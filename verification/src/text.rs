//! Facts about text that the rest of the crate relies on.

use vstd::prelude::*;

verus! {

/// The characters with the Unicode property `White_Space`.
pub open spec fn is_white_space(c: char) -> bool {
    ||| '\u{0009}' <= c <= '\u{000D}'
    ||| c == '\u{0020}'
    ||| c == '\u{0085}'
    ||| c == '\u{00A0}'
    ||| c == '\u{1680}'
    ||| '\u{2000}' <= c <= '\u{200A}'
    ||| c == '\u{2028}'
    ||| c == '\u{2029}'
    ||| c == '\u{202F}'
    ||| c == '\u{205F}'
    ||| c == '\u{3000}'
}

/// Nothing but white space.
pub open spec fn is_blank(s: Seq<char>) -> bool {
    forall|i: int| 0 <= i < s.len() ==> is_white_space(#[trigger] s[i])
}

/// `inner` is what is left of `s` between characters `from` and `to` when the
/// white space at both ends is cut off.
pub open spec fn trims_to(s: Seq<char>, inner: Seq<char>, from: int, to: int) -> bool {
    &&& 0 <= from <= to <= s.len()
    &&& inner == s.subrange(from, to)
    &&& is_blank(s.subrange(0, from))
    &&& is_blank(s.subrange(to, s.len() as int))
    &&& inner.len() > 0 ==> !is_white_space(inner.first()) && !is_white_space(inner.last())
}

/// `str::trim` returns the slice of `s` without the `White_Space` characters
/// at its start and at its end.
pub assume_specification[ str::trim ](s: &str) -> (res: &str)
    ensures
        exists|from: int, to: int| trims_to(s@, res@, from, to),
;

/// Whether `s` holds nothing but white space.
pub fn blank(s: &str) -> (res: bool)
    ensures
        res == is_blank(s@),
{
    let inner = s.trim();
    proof {
        let (from, to) = choose|from: int, to: int| trims_to(s@, inner@, from, to);
        if inner@.len() == 0 {
            assert forall|i: int| 0 <= i < s@.len() implies is_white_space(#[trigger] s@[i]) by {
                if i < from {
                    assert(s@.subrange(0, from)[i] == s@[i]);
                } else {
                    assert(s@.subrange(to, s@.len() as int)[i - to] == s@[i]);
                }
            }
        } else {
            assert(inner@.first() == s@[from]);
        }
    }
    inner.is_empty()
}

/// Whether `a` and `b` hold the same characters.
pub fn same_text(a: &str, b: &str) -> (res: bool)
    ensures
        res == (a@ == b@),
{
    a.to_owned() == b.to_owned()
}

/// The text that `{:?}` gives for a string with these characters.
pub uninterp spec fn debug_text(s: Seq<char>) -> Seq<char>;

/// Formats `s` with the `Debug` impl of `str`, which `String` shares. The text
/// depends on the characters alone; what it reads like is not stated.
#[verifier::external_body]
pub(crate) fn to_debug_text(s: &str) -> (res: String)
    ensures
        res@ == debug_text(s@),
{
    format!("{s:?}")
}

} // verus!
