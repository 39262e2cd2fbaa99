use vstd::prelude::*;

verus! {

/// The counter's own refusals.
#[derive(Clone, Copy, Debug, PartialEq, Eq, Structural)]
pub enum CounterError {
    /// An increment was asked of a counter already at its maximum.
    CountExceeded,
    /// A decrement was asked of a counter already at zero.
    Underflow,
    /// A checked addition or subtraction left the 64-bit range.
    ArithmeticOverflow,
    /// The signer is not the counter's authority.
    Unauthorized,
    /// `initialize` was given a maximum of zero.
    InvalidMaxCount,
    /// `initialize` was given a maximum above `MAX_COUNT_LIMIT`.
    MaxCountTooLarge,
}

/// Why an instruction failed: the counter record is missing or already there,
/// or the counter itself refused.
#[derive(Clone, Copy, Debug, PartialEq, Eq, Structural)]
pub enum InstructionError {
    /// The instruction names a counter record that does not exist.
    AccountNotInitialized,
    /// `initialize` found a counter record already at its address.
    AccountAlreadyInUse,
    /// The record exists, and the counter refused the instruction.
    Counter(CounterError),
}

} // verus!
