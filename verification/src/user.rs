//! The guessing game's user record and its transitions. The
//! request-subject composite walks `Uninitialized -> Open -> Pending ->
//! Settled`, looping back to `Open` on a new guess or ending in `Closed`;
//! at most one unsettled request per authority, enforced lazily by the
//! timeout guard.

use vstd::prelude::*;
use crate::address::Address;
use crate::base58::base58_of;
use crate::guard::{guard_accepts, check_timeout_guard};
use crate::params::{guess_params_wire, encode_guess_params};
use crate::request::{ComputeRequest, RequestPhase, RequestError};
use crate::REQUEST_TIMEOUT;
use crate::MIN_RESULT;
use crate::MAX_RESULT;

verus! {

/// Why a guess or settlement was rejected.
#[derive(PartialEq, Eq, Structural, Clone, Copy, Debug)]
pub enum SimpleRandomnessError {
    /// The signing authority does not own the record.
    InvalidAuthority,
    /// An earlier guess is still unsettled and too young to replace.
    RequestNotReady,
    /// The current guess was already settled.
    RequestAlreadySettled,
    /// The reported result lies outside `[MIN_RESULT, MAX_RESULT)`.
    RandomResultOutOfBounds,
}

/// A user's record: one guess in flight at a time.
pub struct UserState {
    /// Derived-address bump seed.
    pub bump: u8,
    /// The account authorized to act for this user.
    pub authority: Address,
    /// The user's compute-request account.
    pub switchboard_request: Address,
    /// The current guess.
    pub guess: u32,
    /// The reported result, zero while unsettled.
    pub result: u32,
    /// When the current guess was placed; zero before the first guess.
    pub request_timestamp: i64,
    /// When the current guess was settled; zero while unsettled.
    pub settled_timestamp: i64,
}

/// What a settlement reports: the guess, the drawn result, and whether
/// they matched.
#[derive(Debug)]
pub struct UserGuessSettled {
    pub user: Address,
    pub user_guess: u32,
    pub result: u32,
    pub user_won: bool,
    pub request_timestamp: i64,
    pub settled_timestamp: i64,
}

impl UserState {
    /// Creates a user record together with its compute request. The
    /// request's parameters name the settling program, the fixed result
    /// bounds, and the user record to settle.
    pub fn create_user(
        bump: u8,
        authority: Address,
        request_key: Address,
        program_id: &Address,
        user_key: &Address,
    ) -> (r: (UserState, ComputeRequest))
        requires
            program_id.wf(),
            user_key.wf(),
        ensures
            r.0.bump == bump,
            r.0.authority@ == authority@,
            r.0.switchboard_request@ == request_key@,
            r.0.guess == 0 && r.0.result == 0,
            r.0.request_timestamp == 0 && r.0.settled_timestamp == 0,
            r.1.wf(),
            r.1.phase == RequestPhase::Pending,
            r.1.authority@ == user_key@,
            r.1.max_params_len == 512,
            r.1.valid_after_slot == 0,
            r.1.escrow.balance == 0,
            r.1.container_params@ == guess_params_wire(
                base58_of(program_id@),
                base58_of(user_key@),
            ),
    {
        let params = encode_guess_params(program_id, user_key);
        // The cap leaves headroom past the payload's own length.
        let request = ComputeRequest::init(user_key.clone(), params, 512);
        let user = UserState {
            bump,
            authority,
            switchboard_request: request_key,
            guess: 0,
            result: 0,
            request_timestamp: 0,
            settled_timestamp: 0,
        };
        (user, request)
    }

    /// Submits a new guess: rejected while an earlier guess is unsettled
    /// and younger than the timeout; otherwise records the guess, clears
    /// the old result, stamps the request time, and re-arms the user's
    /// compute request for immediate execution.
    pub fn guess(&mut self, guess_value: u32, now: i64, request: &mut ComputeRequest) -> (r:
        Result<(), SimpleRandomnessError>)
        requires
            old(self).request_timestamp > 0 && old(self).settled_timestamp == 0 ==> now - old(self).request_timestamp >= i64::MIN,
            old(request).phase != RequestPhase::Closed,
        ensures
            r is Ok <==> guard_accepts(
                old(self).request_timestamp,
                old(self).settled_timestamp,
                now,
                REQUEST_TIMEOUT,
            ),
            r is Err ==> r == Err::<(), SimpleRandomnessError>(
                SimpleRandomnessError::RequestNotReady,
            ) && *final(self) == *old(self) && *final(request) == *old(request),
            r is Ok ==> final(self).guess == guess_value && final(self).result == 0 && final(self).request_timestamp == now && final(self).settled_timestamp == 0 && final(self).bump
                == old(self).bump && final(self).authority == old(self).authority && final(self).switchboard_request == old(self).switchboard_request,
            r is Ok ==> final(request).phase == RequestPhase::Triggered && final(request).valid_after_slot == 0 && final(request).authority == old(request).authority
                && final(request).container_params == old(request).container_params && final(request).escrow == old(request).escrow,
    {
        if !check_timeout_guard(
            self.request_timestamp,
            self.settled_timestamp,
            now,
            REQUEST_TIMEOUT,
        ) {
            return Err(SimpleRandomnessError::RequestNotReady);
        }
        let trigger_result = request.trigger(None);
        proof {
            assert(trigger_result is Ok);
        }
        self.guess = guess_value;
        self.result = 0;
        self.request_timestamp = now;
        self.settled_timestamp = 0;
        Ok(())
    }

    /// Applies a reported result: rejected when out of bounds or when the
    /// current guess was already settled; otherwise records the result,
    /// stamps the settlement time, and reports whether the user won.
    pub fn settle(&mut self, result: u32, now: i64, user_key: &Address) -> (r: Result<
        UserGuessSettled,
        SimpleRandomnessError,
    >)
        ensures
            r is Ok <==> (MIN_RESULT <= result < MAX_RESULT && old(self).settled_timestamp
                <= 0),
            r == Err::<UserGuessSettled, SimpleRandomnessError>(
                SimpleRandomnessError::RandomResultOutOfBounds,
            ) <==> !(MIN_RESULT <= result < MAX_RESULT),
            r == Err::<UserGuessSettled, SimpleRandomnessError>(
                SimpleRandomnessError::RequestAlreadySettled,
            ) <==> (MIN_RESULT <= result < MAX_RESULT && old(self).settled_timestamp > 0),
            r is Err ==> *final(self) == *old(self),
            r matches Ok(ev) ==> final(self).result == result && final(self).settled_timestamp
                == now && final(self).bump == old(self).bump && final(self).authority == old(self).authority && final(self).switchboard_request == old(self).switchboard_request
                && final(self).guess == old(self).guess && final(self).request_timestamp == old(self).request_timestamp && ev.user@ == user_key@ && ev.user_guess == old(self).guess
                && ev.result == result && ev.user_won == (old(self).guess == result)
                && ev.request_timestamp == old(self).request_timestamp && ev.settled_timestamp
                == now,
    {
        if !(MIN_RESULT <= result && result < MAX_RESULT) {
            return Err(SimpleRandomnessError::RandomResultOutOfBounds);
        }
        if self.settled_timestamp > 0 {
            return Err(SimpleRandomnessError::RequestAlreadySettled);
        }
        self.result = result;
        self.settled_timestamp = now;
        Ok(
            UserGuessSettled {
                user: user_key.clone(),
                user_guess: self.guess,
                result: self.result,
                user_won: self.result == self.guess,
                request_timestamp: self.request_timestamp,
                settled_timestamp: self.settled_timestamp,
            },
        )
    }

    /// Terminal close: consumes the user record and closes its compute
    /// request, draining the request's escrow to the user's authority.
    /// Closing an already-closed request fails.
    pub fn close(self, request: &mut ComputeRequest) -> (r: Result<u64, RequestError>)
        ensures
            r is Ok <==> old(request).phase != RequestPhase::Closed,
            r matches Ok(v) ==> v == old(request).escrow.balance && final(request).phase
                == RequestPhase::Closed && final(request).escrow.balance == 0,
            r is Err ==> r == Err::<u64, RequestError>(RequestError::AlreadyClosed) && *final(request) == *old(request),
    {
        request.close()
    }
}

} // verus!
