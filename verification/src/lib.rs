//! A request/settlement protocol between on-ledger programs and a trusted
//! off-ledger compute task that draws randomness and reports the outcome
//! through a single settlement instruction.
//!
//! The on-ledger side keeps a guessing game (`UserState`) and a fixed-capacity
//! lottery (`LotteryState`), both funded through escrow balances and driven by
//! compute requests against an external oracle queue. The off-ledger side
//! decodes its container parameters, validates the subject record, selects a
//! result, and emits exactly one settlement instruction.

use vstd::prelude::*;

pub mod address;
pub mod base58;
pub mod decimal;
pub mod digest;
pub mod escrow;
pub mod guard;
pub mod kv;
pub mod lottery;
pub mod params;
pub mod random;
pub mod records;
pub mod request;
pub mod secret;
pub mod state;
pub mod task;
pub mod user;

verus! {

/// The maximum number of tickets allowed to enter a lottery.
pub const MAX_TICKETS: usize = 256;

/// The default number of slots per lottery (about an hour of ledger time).
pub const DEFAULT_LOTTERY_DURATION_SLOTS: u32 = 9000;

/// The minimum result that can be drawn for a guess, inclusive.
pub const MIN_RESULT: u32 = 1;

/// The upper bound on results drawn for a guess, exclusive.
pub const MAX_RESULT: u32 = 10;

/// The minimum time in ledger-clock seconds before a user may re-guess
/// while an earlier guess is still unsettled.
pub const REQUEST_TIMEOUT: i64 = 60;

} // verus!
