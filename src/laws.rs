//! Properties that relate the pallet's calls to one another.
use vstd::prelude::*;
use crate::arith::fits;
use crate::pallet::{call_weight, transition, Call, Error, Origin, PalletState};
use crate::weights::{HASHING_BASE, Runtime};

verus! {

/// Storing a value and then reading the current value gives back exactly that value.
pub proof fn lemma_store_then_read(s: PalletState, who: u64, v: u32)
    ensures
        transition(s, Origin::Signed(who), Call::StoreSomething(v)).1 is Ok,
        transition(s, Origin::Signed(who), Call::StoreSomething(v)).0.current == Some(v),
{
}

/// Incrementing an absent value fails with `NoneValue` and leaves the state,
/// and so the absent cell, as it was.
pub proof fn lemma_increment_absent_fails(s: PalletState, who: u64)
    requires
        s.current is None,
    ensures
        transition(s, Origin::Signed(who), Call::CauseError) == (s, Err::<(), Error>(Error::NoneValue)),
{
}

/// A transactional sum that overflows fails with `Overflow` and leaves both
/// cells, and the event log, exactly as they were.
pub proof fn lemma_transactional_sum_overflow_unchanged(s: PalletState, who: u64, v: u32)
    requires
        !fits(s.current_or_zero(), v),
    ensures
        transition(s, Origin::Signed(who), Call::TransactionalSum(v)) == (s, Err::<(), Error>(Error::Overflow)),
{
}

/// A non-transactional sum that overflows fails with `Overflow` after it has
/// already written `v` as the current value; the running sum and the event log
/// stay as they were.
pub proof fn lemma_non_transactional_sum_overflow_partial(s: PalletState, who: u64, v: u32)
    requires
        !fits(s.current_or_zero(), v),
    ensures
        ({
            let (t, r) = transition(s, Origin::Signed(who), Call::NonTransactionalSum(v));
            &&& r == Err::<(), Error>(Error::Overflow)
            &&& t.current == Some(v)
            &&& t.sum == s.sum
            &&& t.events == s.events
        }),
{
}

/// The declared weight of bounded hashing grows linearly in the number of
/// rounds: `2n` rounds cost twice `n` rounds less the fixed part.
pub proof fn lemma_hashing_weight_linear(n: u32)
    requires
        2 * n <= u32::MAX,
    ensures
        call_weight::<Runtime>(Call::BenignRepeatHashing((2 * n) as u32))
            == 2 * call_weight::<Runtime>(Call::BenignRepeatHashing(n)) - HASHING_BASE,
{
    assert(659_000 * (2 * n) == 2 * (659_000 * n)) by (nonlinear_arith);
    assert(659_000 * n <= 659_000 * 0xffff_ffffu64) by (nonlinear_arith)
        requires
            n <= 0xffff_ffffu32,
    ;
}

/// Removing the current value twice in a row succeeds both times and leaves
/// the cell absent after each; the second removal changes nothing.
pub proof fn lemma_remove_twice(s: PalletState, who: u64)
    ensures
        ({
            let (s1, r1) = transition(s, Origin::Signed(who), Call::RemoveSomething);
            let (s2, r2) = transition(s1, Origin::Signed(who), Call::RemoveSomething);
            &&& r1 is Ok
            &&& r2 is Ok
            &&& s1.current is None
            &&& s2.current is None
            &&& s2 == s1
        }),
{
}

} // verus!
