use vstd::prelude::*;
use crate::identity::Identity;

verus! {

/// The largest maximum a counter may be created with.
pub const MAX_COUNT_LIMIT: u64 = 1_000_000;

/// The persisted counter record.
#[derive(Clone, Copy, Debug, PartialEq, Eq)]
pub struct Counter {
    pub count: u64,
    pub max_count: u64,
    /// Salt of the record's derived address, fixed at creation.
    pub bump: u8,
    /// The only identity allowed to change the record, fixed at creation.
    pub authority: Identity,
}

impl Counter {
    /// The record's invariant: `1 <= max_count <= MAX_COUNT_LIMIT` and
    /// `count <= max_count`.
    pub open spec fn wf(&self) -> bool {
        &&& 1 <= self.max_count <= MAX_COUNT_LIMIT
        &&& self.count <= self.max_count
    }
}

/// The record slot at an owner's derived address is empty or holds a
/// well-formed counter.
pub open spec fn slot_wf(slot: Option<Counter>) -> bool {
    slot matches Some(c) ==> c.wf()
}

/// Accounts of `initialize`: the signer, who becomes the authority, the bump
/// of the signer's derived address, and the record slot at that address.
#[derive(Clone, Copy, Debug)]
pub struct Initialize {
    pub authority: Identity,
    pub bump: u8,
    pub counter: Option<Counter>,
}

/// Accounts of `increment`: the signer and the counter record it names.
#[derive(Clone, Copy, Debug)]
pub struct Increment {
    pub authority: Identity,
    pub counter: Option<Counter>,
}

/// Accounts of `decrement`: the signer and the counter record it names.
#[derive(Clone, Copy, Debug)]
pub struct Decrement {
    pub authority: Identity,
    pub counter: Option<Counter>,
}

/// Accounts of `reset`: the signer and the counter record it names; a
/// successful reset closes the record.
#[derive(Clone, Copy, Debug)]
pub struct Reset {
    pub authority: Identity,
    pub counter: Option<Counter>,
}

/// Emitted when a counter is created.
#[derive(Clone, Copy, Debug, PartialEq, Eq)]
pub struct CounterInitialized {
    pub authority: Identity,
    pub count: u64,
    pub max_count: u64,
}

/// Emitted on each successful increment or decrement.
#[derive(Clone, Copy, Debug, PartialEq, Eq)]
pub struct CounterUpdated {
    pub authority: Identity,
    pub previous_count: u64,
    pub new_count: u64,
    pub max_reached: bool,
}

/// Emitted when a counter is reset and closed.
#[derive(Clone, Copy, Debug, PartialEq, Eq)]
pub struct CounterReset {
    pub authority: Identity,
    pub previous_count: u64,
    pub new_count: u64,
}

} // verus!
