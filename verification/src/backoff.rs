//! Growing pauses between failed attempts.

use vstd::arithmetic::power2::pow2;
use vstd::prelude::*;

use crate::duration::{Duration, NANOS_PER_MILLI};

verus! {

/// The first pause, in nanoseconds: 200 milliseconds.
pub open spec fn first_delay() -> nat {
    200 * NANOS_PER_MILLI as nat
}

/// The longest pause, in nanoseconds: 5 seconds.
pub open spec fn longest_delay() -> nat {
    5_000 * NANOS_PER_MILLI as nat
}

/// The smaller of two numbers.
pub open spec fn least(a: nat, b: nat) -> nat {
    if a <= b {
        a
    } else {
        b
    }
}

/// The pause that follows a pause of `delay` nanoseconds.
pub open spec fn following_delay(delay: nat) -> nat {
    least(2 * delay, longest_delay())
}

/// The pause after `failures` earlier failures in a row: the first one, doubled
/// for each of them, up to the longest one.
pub open spec fn delay_after(failures: nat) -> nat {
    least(first_delay() * pow2(failures), longest_delay())
}

/// Hands out pauses that double from 200 milliseconds up to 5 seconds.
///
/// The view is the next pause in nanoseconds.
#[derive(Debug)]
pub struct Backoff {
    next: Duration,
}

impl View for Backoff {
    type V = nat;

    closed spec fn view(&self) -> nat {
        self.next@
    }
}

impl Backoff {
    /// The next pause lies between the first and the longest one.
    #[verifier::type_invariant]
    pub closed spec fn wf(self) -> bool {
        first_delay() <= self.next@ <= longest_delay()
    }

    /// Starts with the first pause.
    pub fn new() -> (res: Self)
        ensures
            res@ == first_delay(),
    {
        Backoff { next: Duration::from_millis(200) }
    }

    /// Starts over with the first pause.
    pub fn reset(&mut self)
        ensures
            final(self)@ == first_delay(),
    {
        self.next = Duration::from_millis(200);
    }

    /// The pause to make now; the one after it is twice as long, but not longer
    /// than the longest one.
    pub fn next_delay(&mut self) -> (res: Duration)
        ensures
            res@ == old(self)@,
            first_delay() <= res@ <= longest_delay(),
            final(self)@ == following_delay(old(self)@),
    {
        proof {
            use_type_invariant(&*self);
        }
        let out = self.next;
        self.next = out.doubled().min(Duration::from_secs(5));
        out
    }
}

/// Failure after failure, the pauses follow [`delay_after`].
pub proof fn law_delays_double(failures: nat)
    ensures
        delay_after(0) == first_delay(),
        following_delay(delay_after(failures)) == delay_after(failures + 1),
{
    vstd::arithmetic::power2::lemma_pow2_unfold(failures + 1);
    vstd::arithmetic::power2::lemma2_to64();
    let p = pow2(failures);
    assert(first_delay() * pow2(failures + 1) == 2 * (first_delay() * p)) by (nonlinear_arith)
        requires
            pow2(failures + 1) == 2 * p,
    ;
}

/// No pause is shorter than the one before it, and none leaves the bounds.
pub proof fn law_delays_grow_within_bounds(failures: nat)
    ensures
        first_delay() <= delay_after(failures) <= delay_after(failures + 1) <= longest_delay(),
{
    law_delays_double(failures);
    vstd::arithmetic::power2::lemma_pow2_pos(failures);
    assert(first_delay() <= first_delay() * pow2(failures)) by (nonlinear_arith)
        requires
            pow2(failures) >= 1,
    ;
}

/// From the fifth doubling on, the pause stays at the longest one.
pub proof fn law_delays_level_off(failures: nat)
    requires
        failures >= 5,
    ensures
        delay_after(failures) == longest_delay(),
    decreases failures,
{
    vstd::arithmetic::power2::lemma2_to64();
    if failures > 5 {
        law_delays_level_off((failures - 1) as nat);
        law_delays_double((failures - 1) as nat);
    }
}

/// Pauses start at 200 milliseconds; each is followed by one twice as long, or by
/// 5 seconds where that would be longer; the one after `failures` failures in a row
/// is 200 milliseconds times a power of two, or 5 seconds.
pub proof fn law_delays_in_nanoseconds(delay: nat, failures: nat)
    ensures
        first_delay() == 200_000_000,
        longest_delay() == 5_000_000_000,
        2 * delay <= 5_000_000_000 ==> following_delay(delay) == 2 * delay,
        2 * delay > 5_000_000_000 ==> following_delay(delay) == 5_000_000_000,
        200_000_000 * pow2(failures) <= 5_000_000_000 ==> delay_after(failures) == 200_000_000
            * pow2(failures),
        200_000_000 * pow2(failures) > 5_000_000_000 ==> delay_after(failures) == 5_000_000_000,
{
}

} // verus!
