//! The compute-request lifecycle: `init -> triggered -> closed`, the only
//! transitions this core issues against the external oracle queue. The
//! request's own scheduling and attestation are the collaborator's business;
//! here the request is the escrow-funded unit of work with its parameters
//! and its not-before tick.

use vstd::prelude::*;
use crate::address::Address;
use crate::escrow::{Escrow, EscrowError};

verus! {

/// Where a request stands in its lifecycle.
#[derive(PartialEq, Eq, Structural, Clone, Copy, Debug)]
pub enum RequestPhase {
    /// Created and funded, not yet armed for execution.
    Pending,
    /// Armed: eligible for execution once its not-before tick passes.
    Triggered,
    /// Terminal: escrow drained, removed from the active set.
    Closed,
}

/// Why a lifecycle transition failed.
#[derive(PartialEq, Eq, Structural, Clone, Copy, Debug)]
pub enum RequestError {
    /// The request was already closed; closing is terminal and a second
    /// close is fatal, not retried.
    AlreadyClosed,
}

/// An escrow-funded unit of work delegated to the off-ledger executor.
pub struct ComputeRequest {
    /// The subject record on whose behalf the request executes; its
    /// signing authority drives re-triggers.
    pub authority: Address,
    /// The `KEY=VALUE` wire text handed to the task.
    pub container_params: Vec<u8>,
    /// The cap on the parameter payload, fixed when the request is
    /// created; the payload never exceeds it.
    pub max_params_len: u32,
    /// The logical-clock tick before which the executor must not act;
    /// zero means immediately eligible.
    pub valid_after_slot: u64,
    /// The request's own escrow, drained only by `close`.
    pub escrow: Escrow,
    pub phase: RequestPhase,
}

impl ComputeRequest {
    /// The payload respects the cap it was created with.
    pub open spec fn wf(&self) -> bool {
        self.container_params@.len() <= self.max_params_len
    }

    /// Creates a request whose authority is the subject, carrying the
    /// given container parameters under the given cap, immediately
    /// eligible and unfunded.
    pub fn init(authority: Address, container_params: Vec<u8>, max_params_len: u32) -> (r:
        ComputeRequest)
        requires
            container_params@.len() <= max_params_len,
        ensures
            r.wf(),
            r.authority@ == authority@,
            r.container_params@ == container_params@,
            r.max_params_len == max_params_len,
            r.valid_after_slot == 0,
            r.escrow.balance == 0,
            r.phase == RequestPhase::Pending,
    {
        ComputeRequest {
            authority,
            container_params,
            max_params_len,
            valid_after_slot: 0,
            escrow: Escrow::new(),
            phase: RequestPhase::Pending,
        }
    }

    /// Funds the request's escrow from the payer's balance, atomically.
    pub fn fund(&mut self, payer_balance: &mut u64, amount: u64) -> (r: Result<(), EscrowError>)
        ensures
            r is Ok <==> *old(payer_balance) >= amount && old(self).escrow.balance + amount
                <= u64::MAX,
            r is Ok ==> final(self).escrow.balance == old(self).escrow.balance + amount
                && *final(payer_balance) == *old(payer_balance) - amount && final(self).phase
                == old(self).phase && final(self).authority == old(self).authority && final(self).container_params == old(self).container_params && final(self).max_params_len
                == old(self).max_params_len && final(self).valid_after_slot
                == old(self).valid_after_slot,
            r is Err ==> *final(self) == *old(self) && *final(payer_balance) == *old(payer_balance),
    {
        self.escrow.deposit(payer_balance, amount)
    }

    /// Arms the request for a (repeat) invocation, optionally scheduling
    /// it to run no earlier than `valid_after_slot`. Callers gate repeat
    /// triggers behind the timeout guard; an already-closed request cannot
    /// be re-armed.
    pub fn trigger(&mut self, valid_after_slot: Option<u64>) -> (r: Result<(), RequestError>)
        ensures
            r is Ok <==> old(self).phase != RequestPhase::Closed,
            r is Err ==> r == Err::<(), RequestError>(RequestError::AlreadyClosed) && *final(self) == *old(self),
            r is Ok ==> final(self).phase == RequestPhase::Triggered && final(self).valid_after_slot == (match valid_after_slot {
                Some(v) => v,
                None => 0u64,
            }) && final(self).authority == old(self).authority && final(self).container_params
                == old(self).container_params && final(self).max_params_len == old(
                self,
            ).max_params_len && final(self).escrow == old(self).escrow,
    {
        match self.phase {
            RequestPhase::Closed => Err(RequestError::AlreadyClosed),
            _ => {
                self.phase = RequestPhase::Triggered;
                self.valid_after_slot = match valid_after_slot {
                    Some(v) => v,
                    None => 0,
                };
                Ok(())
            },
        }
    }

    /// Terminal close: drains the residual escrow to the caller's chosen
    /// destination and removes the request from the active set. Closing an
    /// already-closed request fails.
    pub fn close(&mut self) -> (r: Result<u64, RequestError>)
        ensures
            r is Ok <==> old(self).phase != RequestPhase::Closed,
            r matches Ok(v) ==> v == old(self).escrow.balance && final(self).escrow.balance == 0
                && final(self).phase == RequestPhase::Closed && final(self).authority == old(self).authority && final(self).container_params == old(self).container_params && final(self).max_params_len == old(self).max_params_len && final(self).valid_after_slot == old(self).valid_after_slot,
            r is Err ==> r == Err::<u64, RequestError>(RequestError::AlreadyClosed) && *final(self) == *old(self),
    {
        match self.phase {
            RequestPhase::Closed => Err(RequestError::AlreadyClosed),
            _ => {
                let drained = self.escrow.drain();
                self.phase = RequestPhase::Closed;
                Ok(drained)
            },
        }
    }
}

} // verus!
