use vstd::prelude::*;
use crate::error::{CounterError, InstructionError};
use crate::identity::Identity;
use crate::instructions::{authorized, decrement_spec, increment_spec, reset_spec};
use crate::state::{Counter, CounterReset, CounterUpdated};

verus! {

/// One step of a run of adjustments.
pub enum Adjustment {
    Increment,
    Decrement,
}

/// The slot after one adjustment signed by `signer`.
pub open spec fn adjust(signer: Identity, slot: Option<Counter>, a: Adjustment) -> Option<Counter> {
    match a {
        Adjustment::Increment => increment_spec(signer, slot).0,
        Adjustment::Decrement => decrement_spec(signer, slot).0,
    }
}

/// The slot after the adjustments `ops`, in order, all signed by `signer`.
pub open spec fn run_adjustments(signer: Identity, slot: Option<Counter>, ops: Seq<Adjustment>)
    -> Option<Counter>
    decreases ops.len(),
{
    if ops.len() == 0 {
        slot
    } else {
        run_adjustments(signer, adjust(signer, slot, ops[0]), ops.drop_first())
    }
}

/// Whatever run of increments and decrements is applied to a well-formed
/// counter, it stays a well-formed counter: its count stays within
/// `[0, max_count]`, and its maximum, bump and authority do not change.
pub proof fn lemma_adjustments_stay_in_bounds(signer: Identity, c: Counter, ops: Seq<Adjustment>)
    requires
        c.wf(),
    ensures
        run_adjustments(signer, Some(c), ops) matches Some(d) && {
            &&& d.wf()
            &&& d.max_count == c.max_count
            &&& d.bump == c.bump
            &&& d.authority == c.authority
        },
    decreases ops.len(),
{
    if ops.len() > 0 {
        let next = adjust(signer, Some(c), ops[0]);
        let d = next.unwrap();
        lemma_adjustments_stay_in_bounds(signer, d, ops.drop_first());
    }
}

/// For the counter's authority, an increment at the maximum fails with
/// `CountExceeded` and a decrement at zero fails with `Underflow`; neither
/// changes the record.
pub proof fn lemma_bounds_are_refused(signer: Identity, c: Counter)
    requires
        authorized(signer, c),
        c.wf(),
    ensures
        c.count == c.max_count ==> increment_spec(signer, Some(c)) == (
            Some(c),
            Err::<CounterUpdated, InstructionError>(
                InstructionError::Counter(CounterError::CountExceeded),
            ),
        ),
        c.count == 0 ==> decrement_spec(signer, Some(c)) == (
            Some(c),
            Err::<CounterUpdated, InstructionError>(
                InstructionError::Counter(CounterError::Underflow),
            ),
        ),
{
}

/// A failed increment or decrement leaves the slot as it was: the count, the
/// maximum, the authority and the bump.
pub proof fn lemma_refusal_changes_nothing(signer: Identity, slot: Option<Counter>)
    ensures
        increment_spec(signer, slot).1 is Err ==> increment_spec(signer, slot).0 == slot,
        decrement_spec(signer, slot).1 is Err ==> decrement_spec(signer, slot).0 == slot,
{
}

/// Every instruction that changes a counter, signed by anyone but its
/// authority, fails with `Unauthorized` and leaves the record unchanged.
pub proof fn lemma_only_authority_changes(signer: Identity, c: Counter)
    requires
        signer@ != c.authority@,
    ensures
        increment_spec(signer, Some(c)) == (
            Some(c),
            Err::<CounterUpdated, InstructionError>(
                InstructionError::Counter(CounterError::Unauthorized),
            ),
        ),
        decrement_spec(signer, Some(c)) == (
            Some(c),
            Err::<CounterUpdated, InstructionError>(
                InstructionError::Counter(CounterError::Unauthorized),
            ),
        ),
        reset_spec(signer, Some(c)) == (
            Some(c),
            Err::<CounterReset, InstructionError>(
                InstructionError::Counter(CounterError::Unauthorized),
            ),
        ),
{
}

/// A reset by the authority reports a new count of zero and removes the
/// record; after it, every increment, decrement or reset, by anyone, fails
/// because the record no longer exists, until it is initialized again.
pub proof fn lemma_reset_closes_the_record(signer: Identity, c: Counter, next: Identity)
    requires
        authorized(signer, c),
    ensures
        reset_spec(signer, Some(c)).0 is None,
        reset_spec(signer, Some(c)).1 matches Ok(e) && e.new_count == 0,
        increment_spec(next, reset_spec(signer, Some(c)).0).1
            == Err::<CounterUpdated, InstructionError>(InstructionError::AccountNotInitialized),
        decrement_spec(next, reset_spec(signer, Some(c)).0).1
            == Err::<CounterUpdated, InstructionError>(InstructionError::AccountNotInitialized),
        reset_spec(next, reset_spec(signer, Some(c)).0).1
            == Err::<CounterReset, InstructionError>(InstructionError::AccountNotInitialized),
{
}

} // verus!
