use vstd::prelude::*;
use crate::error::{CounterError, InstructionError};
use crate::identity::Identity;
use crate::state::{
    Counter, CounterInitialized, CounterReset, CounterUpdated, Decrement, Increment, Initialize,
    Reset, MAX_COUNT_LIMIT,
};

verus! {

/// The signer may change the counter: it is the counter's authority.
pub open spec fn authorized(signer: Identity, c: Counter) -> bool {
    signer@ == c.authority@
}

/// What `initialize` does to the slot at the signer's derived address, and
/// what it returns.
pub open spec fn initialize_spec(signer: Identity, bump: u8, slot: Option<Counter>, max_count: u64)
    -> (Option<Counter>, Result<CounterInitialized, InstructionError>)
{
    if slot is Some {
        (slot, Err(InstructionError::AccountAlreadyInUse))
    } else if max_count == 0 {
        (slot, Err(InstructionError::Counter(CounterError::InvalidMaxCount)))
    } else if max_count > MAX_COUNT_LIMIT {
        (slot, Err(InstructionError::Counter(CounterError::MaxCountTooLarge)))
    } else {
        (
            Some(Counter { count: 0, max_count, bump, authority: signer }),
            Ok(CounterInitialized { authority: signer, count: 0, max_count }),
        )
    }
}

/// What `increment` does to the slot, and what it returns.
pub open spec fn increment_spec(signer: Identity, slot: Option<Counter>)
    -> (Option<Counter>, Result<CounterUpdated, InstructionError>)
{
    match slot {
        None => (slot, Err(InstructionError::AccountNotInitialized)),
        Some(c) => {
            if !authorized(signer, c) {
                (slot, Err(InstructionError::Counter(CounterError::Unauthorized)))
            } else if c.count >= c.max_count {
                (slot, Err(InstructionError::Counter(CounterError::CountExceeded)))
            } else {
                let n = (c.count + 1) as u64;
                (
                    Some(Counter { count: n, ..c }),
                    Ok(
                        CounterUpdated {
                            authority: signer,
                            previous_count: c.count,
                            new_count: n,
                            max_reached: n == c.max_count,
                        },
                    ),
                )
            }
        },
    }
}

/// What `decrement` does to the slot, and what it returns. A decrement never
/// reports the maximum as reached.
pub open spec fn decrement_spec(signer: Identity, slot: Option<Counter>)
    -> (Option<Counter>, Result<CounterUpdated, InstructionError>)
{
    match slot {
        None => (slot, Err(InstructionError::AccountNotInitialized)),
        Some(c) => {
            if !authorized(signer, c) {
                (slot, Err(InstructionError::Counter(CounterError::Unauthorized)))
            } else if c.count == 0 {
                (slot, Err(InstructionError::Counter(CounterError::Underflow)))
            } else {
                let n = (c.count - 1) as u64;
                (
                    Some(Counter { count: n, ..c }),
                    Ok(
                        CounterUpdated {
                            authority: signer,
                            previous_count: c.count,
                            new_count: n,
                            max_reached: false,
                        },
                    ),
                )
            }
        },
    }
}

/// What `reset` does to the slot, and what it returns: the record is closed,
/// and the reported previous count is one more than the count it held.
pub open spec fn reset_spec(signer: Identity, slot: Option<Counter>)
    -> (Option<Counter>, Result<CounterReset, InstructionError>)
{
    match slot {
        None => (slot, Err(InstructionError::AccountNotInitialized)),
        Some(c) => {
            if !authorized(signer, c) {
                (slot, Err(InstructionError::Counter(CounterError::Unauthorized)))
            } else {
                (
                    None,
                    Ok(
                        CounterReset {
                            authority: signer,
                            previous_count: (c.count + 1) as u64,
                            new_count: 0,
                        },
                    ),
                )
            }
        },
    }
}

/// The guard shared by every instruction that changes an existing counter:
/// only its authority may sign for it.
pub fn check_authority(signer: &Identity, counter: &Counter) -> (r: Result<(), CounterError>)
    ensures
        r == (if authorized(*signer, *counter) {
            Ok::<(), CounterError>(())
        } else {
            Err(CounterError::Unauthorized)
        }),
{
    if signer.same_as(&counter.authority) {
        Ok(())
    } else {
        Err(CounterError::Unauthorized)
    }
}

/// The record named by an instruction, once it is known to exist and to
/// belong to the signer.
fn load_authorized(signer: &Identity, slot: Option<Counter>) -> (r: Result<Counter, InstructionError>)
    ensures
        match slot {
            None => r == Err::<Counter, InstructionError>(InstructionError::AccountNotInitialized),
            Some(c) => r == (if authorized(*signer, c) {
                Ok(c)
            } else {
                Err(InstructionError::Counter(CounterError::Unauthorized))
            }),
        },
{
    match slot {
        None => Err(InstructionError::AccountNotInitialized),
        Some(c) => match check_authority(signer, &c) {
            Ok(()) => Ok(c),
            Err(e) => Err(InstructionError::Counter(e)),
        },
    }
}

/// Creates the signer's counter with a count of zero and the given maximum.
pub fn initialize(ctx: &mut Initialize, max_count: u64) -> (r: Result<
    CounterInitialized,
    InstructionError,
>)
    ensures
        (final(ctx).counter, r) == initialize_spec(
            old(ctx).authority,
            old(ctx).bump,
            old(ctx).counter,
            max_count,
        ),
        final(ctx).authority == old(ctx).authority,
        final(ctx).bump == old(ctx).bump,
        old(ctx).counter is None && 1 <= max_count <= MAX_COUNT_LIMIT ==> {
            &&& r is Ok
            &&& final(ctx).counter matches Some(c)
            &&& c.count == 0
            &&& c.max_count == max_count
            &&& c.wf()
        },
        old(ctx).counter is None && max_count == 0 ==> {
            &&& r == Err::<CounterInitialized, InstructionError>(
                InstructionError::Counter(CounterError::InvalidMaxCount),
            )
            &&& final(ctx).counter is None
        },
        old(ctx).counter is None && max_count > MAX_COUNT_LIMIT ==> {
            &&& r == Err::<CounterInitialized, InstructionError>(
                InstructionError::Counter(CounterError::MaxCountTooLarge),
            )
            &&& final(ctx).counter is None
        },
{
    if ctx.counter.is_some() {
        return Err(InstructionError::AccountAlreadyInUse);
    }
    if max_count == 0 {
        return Err(InstructionError::Counter(CounterError::InvalidMaxCount));
    }
    if max_count > MAX_COUNT_LIMIT {
        return Err(InstructionError::Counter(CounterError::MaxCountTooLarge));
    }
    let counter = Counter { count: 0, max_count, bump: ctx.bump, authority: ctx.authority };
    ctx.counter = Some(counter);
    Ok(CounterInitialized { authority: ctx.authority, count: counter.count, max_count: counter.max_count })
}

/// Adds one to the signer's counter, unless it is at its maximum.
pub fn increment(ctx: &mut Increment) -> (r: Result<CounterUpdated, InstructionError>)
    ensures
        (final(ctx).counter, r) == increment_spec(old(ctx).authority, old(ctx).counter),
        final(ctx).authority == old(ctx).authority,
{
    let c = match load_authorized(&ctx.authority, ctx.counter) {
        Ok(c) => c,
        Err(e) => return Err(e),
    };
    if c.count >= c.max_count {
        return Err(InstructionError::Counter(CounterError::CountExceeded));
    }
    let n = match c.count.checked_add(1) {
        Some(n) => n,
        None => return Err(InstructionError::Counter(CounterError::ArithmeticOverflow)),
    };
    ctx.counter = Some(Counter { count: n, ..c });
    Ok(
        CounterUpdated {
            authority: ctx.authority,
            previous_count: n - 1,
            new_count: n,
            max_reached: n == c.max_count,
        },
    )
}

/// Takes one from the signer's counter, unless it is at zero.
pub fn decrement(ctx: &mut Decrement) -> (r: Result<CounterUpdated, InstructionError>)
    ensures
        (final(ctx).counter, r) == decrement_spec(old(ctx).authority, old(ctx).counter),
        final(ctx).authority == old(ctx).authority,
{
    let c = match load_authorized(&ctx.authority, ctx.counter) {
        Ok(c) => c,
        Err(e) => return Err(e),
    };
    if c.count == 0 {
        return Err(InstructionError::Counter(CounterError::Underflow));
    }
    let n = match c.count.checked_sub(1) {
        Some(n) => n,
        None => return Err(InstructionError::Counter(CounterError::ArithmeticOverflow)),
    };
    ctx.counter = Some(Counter { count: n, ..c });
    Ok(CounterUpdated { authority: ctx.authority, previous_count: n + 1, new_count: n, max_reached: false })
}

/// Sets the signer's counter to zero and closes its record.
pub fn reset(ctx: &mut Reset) -> (r: Result<CounterReset, InstructionError>)
    requires
        old(ctx).counter matches Some(c) ==> c.count < u64::MAX,
    ensures
        (final(ctx).counter, r) == reset_spec(old(ctx).authority, old(ctx).counter),
        final(ctx).authority == old(ctx).authority,
{
    let c = match load_authorized(&ctx.authority, ctx.counter) {
        Ok(c) => c,
        Err(e) => return Err(e),
    };
    let previous_count = c.count + 1;
    ctx.counter = None;
    Ok(CounterReset { authority: ctx.authority, previous_count, new_count: 0 })
}

} // verus!
