//! The global program state: a singleton record created once per
//! deployment, binding the program to one compute provider. Every later
//! request must reference that provider; the record is never updated or
//! destroyed by any current operation.

use vstd::prelude::*;
use crate::address::Address;

verus! {

/// The global state of a subject program.
pub struct ProgramState {
    /// Derived-address bump seed.
    pub bump: u8,
    /// The account authorized to make config changes.
    pub authority: Address,
    /// The bound compute provider: the oracle function every request of
    /// this program must reference.
    pub switchboard_function: Address,
}

impl ProgramState {
    /// Creates the singleton state, binding the compute provider.
    pub fn initialize(bump: u8, authority: Address, switchboard_function: Address) -> (r:
        ProgramState)
        ensures
            r.bump == bump,
            r.authority@ == authority@,
            r.switchboard_function@ == switchboard_function@,
    {
        ProgramState { bump, authority, switchboard_function }
    }

    /// Whether `function` is the provider this deployment is bound to;
    /// requests referencing any other provider are rejected by the host's
    /// account constraints.
    pub fn is_bound_provider(&self, function: &Address) -> (r: bool)
        ensures
            r == (self.switchboard_function@ == function@),
    {
        self.switchboard_function.eq_addr(function)
    }
}

} // verus!
