//! The off-ledger compute task: decode the container parameters, validate
//! the subject record, compute the result, and emit exactly one settlement
//! instruction with the fixed binary layout — an 8-byte opcode
//! discriminator followed by the payload, a little-endian 4-byte result
//! for a guess or a 32-byte winner address for a lottery. The task
//! performs no network submission; an external runner broadcasts.

use vstd::prelude::*;
use crate::address::Address;
use crate::digest::{ixn_discriminator, get_ixn_discriminator};
use crate::kv::append_bytes;
use crate::lottery::LotteryState;
use crate::params::{ContainerParams, GuessContainerParams, ValidationError, has_addr_value,
    num_value, pid_key, lottery_key_name, user_key_name, min_result_key, max_result_key};
use crate::random::{selected, generate_randomness_from, lemma_selected_in_range};
use crate::records::{u32_le_bytes, u32_from_le, push_u32_le, lottery_record_shape_ok};
use crate::MAX_TICKETS;

verus! {

/// Why the guess task failed: its parameters did not decode.
#[derive(PartialEq, Eq, Structural, Clone, Copy, Debug)]
pub enum SbError {
    ArgParseFail,
}

/// The one settlement instruction a task run emits: the program to invoke
/// and the opcode-tagged payload. The accounts the host must pass along
/// are the runner's business.
#[derive(Debug)]
pub struct SettlementInstruction {
    pub program_id: Address,
    pub data: Vec<u8>,
}

/// The instruction entrypoint name `settle`.
pub open spec fn settle_name() -> Seq<u8> {
    seq![115u8, 101u8, 116u8, 116u8, 108u8, 101u8]
}

/// The instruction entrypoint name `draw_winner`.
pub open spec fn draw_winner_name() -> Seq<u8> {
    seq![100u8, 114u8, 97u8, 119u8, 95u8, 119u8, 105u8, 110u8, 110u8, 101u8, 114u8]
}

/// The settlement payload for a guess: the `settle` opcode discriminator,
/// then the result as a little-endian 4-byte unsigned integer.
pub open spec fn settle_ixn_data(result: u32) -> Seq<u8> {
    ixn_discriminator(settle_name()) + u32_le_bytes(result)
}

/// The settlement payload for a lottery: the `draw_winner` opcode
/// discriminator, then the winner's 32-byte address.
pub open spec fn draw_winner_ixn_data(winner: Seq<u8>) -> Seq<u8> {
    ixn_discriminator(draw_winner_name()) + winner
}

/// Builds the `settle` instruction data for a result.
pub fn build_settle_ixn_data(result: u32) -> (r: Vec<u8>)
    ensures
        r@ == settle_ixn_data(result),
{
    let name: Vec<u8> = vec![115u8, 101u8, 116u8, 116u8, 108u8, 101u8];
    assert(name@ =~= settle_name());
    let mut r = get_ixn_discriminator(&name);
    push_u32_le(&mut r, result);
    r
}

/// Builds the `draw_winner` instruction data for a winner.
pub fn build_draw_winner_ixn_data(winner: &Address) -> (r: Vec<u8>)
    ensures
        r@ == draw_winner_ixn_data(winner@),
{
    let name: Vec<u8> = vec![
        100u8, 114u8, 97u8, 119u8, 95u8, 119u8, 105u8, 110u8, 110u8, 101u8, 114u8,
    ];
    assert(name@ =~= draw_winner_name());
    let mut r = get_ixn_discriminator(&name);
    append_bytes(&mut r, &winner.bytes);
    r
}

/// Picks the winner: a ticket indexed by the draw when any were sold, the
/// lottery's own authority otherwise, so a zero-participant lottery can
/// still close.
pub fn select_winner(lottery: &LotteryState, raw: u32) -> (r: Address)
    requires
        lottery.wf(),
    ensures
        lottery.num_tickets == 0 ==> r@ == lottery.authority@,
        lottery.num_tickets > 0 ==> r@ == lottery.tickets_view()[selected(
            0,
            (lottery.num_tickets - 1) as u32,
            raw,
        ) as int],
{
    if lottery.num_tickets == 0 {
        lottery.authority.clone()
    } else {
        let idx = generate_randomness_from(0, lottery.num_tickets - 1, raw);
        proof {
            lemma_selected_in_range(0, (lottery.num_tickets - 1) as u32, raw);
        }
        lottery.tickets[idx as usize].clone()
    }
}

/// The winner's bytes as a function of the raw lottery record and the
/// draw: the ticket the draw indexes, or the record's authority when no
/// tickets were sold.
pub open spec fn lottery_winner_bytes(data: Seq<u8>, raw: u32) -> Seq<u8>
    recommends
        lottery_record_shape_ok(data),
{
    let num = u32_from_le(data.subrange(121, 125));
    if num == 0 {
        data.subrange(9, 41)
    } else {
        data.subrange(
            166 + 32 * (selected(0, (num - 1) as u32, raw) as int),
            166 + 32 * (selected(0, (num - 1) as u32, raw) as int) + 32,
        )
    }
}

/// One run of the guess task: decodes `{PID, MIN_RESULT, MAX_RESULT,
/// USER}`, selects a result from the inclusive range by the raw draw, and
/// emits the `settle` instruction for it. Any decode failure aborts the
/// run as `ArgParseFail` with nothing emitted.
pub fn sb_function(params: &Vec<u8>, raw: u32) -> (r: Result<SettlementInstruction, SbError>)
    ensures
        r is Ok <==> ((exists|b: Seq<u8>| has_addr_value(params@, pid_key(), b)) && num_value(
            params@,
            min_result_key(),
        ) is Some && num_value(params@, max_result_key()) is Some && (exists|b: Seq<u8>|
        has_addr_value(params@, user_key_name(), b))),
        r is Err ==> r == Err::<SettlementInstruction, SbError>(SbError::ArgParseFail),
        r matches Ok(ix) ==> ix.program_id.wf() && has_addr_value(
            params@,
            pid_key(),
            ix.program_id@,
        ),
        r matches Ok(ix) ==> forall|b: Seq<u8>|
            has_addr_value(params@, pid_key(), b) ==> ix.program_id@ == b,
        r matches Ok(ix) ==> forall|mn: u32, mx: u32|
            (num_value(params@, min_result_key()) == Some(mn) && num_value(
                params@,
                max_result_key(),
            ) == Some(mx)) ==> ix.data@ == settle_ixn_data(selected(mn, mx, raw)),
{
    let p = match GuessContainerParams::decode(params) {
        Ok(p) => p,
        Err(_) => {
            return Err(SbError::ArgParseFail);
        },
    };
    let result = generate_randomness_from(p.min_result, p.max_result, raw);
    let data = build_settle_ixn_data(result);
    Ok(SettlementInstruction { program_id: p.program_id, data })
}

/// One run of the lottery task: decodes `{PID, LOTTERY}`, validates the
/// lottery record against the decoded program id, picks the winner by the
/// raw draw, and emits the `draw_winner` instruction naming that winner.
/// Any failure aborts the run with nothing emitted.
pub fn run_lottery_task(
    container_params: &Vec<u8>,
    lottery_data: &Vec<u8>,
    lottery_owner: &Address,
    raw: u32,
) -> (r: Result<SettlementInstruction, ValidationError>)
    ensures
        r is Ok <==> ((exists|b: Seq<u8>|
            has_addr_value(container_params@, pid_key(), b)) && (exists|b: Seq<u8>|
        has_addr_value(container_params@, lottery_key_name(), b)) && has_addr_value(
            container_params@,
            pid_key(),
            lottery_owner@,
        ) && lottery_record_shape_ok(lottery_data@)),
        r matches Ok(ix) ==> ix.program_id.wf() && ix.program_id@ == lottery_owner@
            && has_addr_value(container_params@, pid_key(), ix.program_id@) && ix.data@
            == draw_winner_ixn_data(lottery_winner_bytes(lottery_data@, raw)),
        r matches Ok(ix) ==> forall|b: Seq<u8>|
            has_addr_value(container_params@, pid_key(), b) ==> ix.program_id@ == b,
{
    let p = match ContainerParams::decode(container_params) {
        Ok(p) => p,
        Err(e) => {
            return Err(e);
        },
    };
    let lottery = match LotteryState::fetch(lottery_data, lottery_owner, &p.program_id) {
        Ok(l) => l,
        Err(e) => {
            return Err(e);
        },
    };
    let winner = select_winner(&lottery, raw);
    proof {
        if lottery.num_tickets > 0 {
            lemma_selected_in_range(0, (lottery.num_tickets - 1) as u32, raw);
            assert(winner@ == lottery_winner_bytes(lottery_data@, raw));
        } else {
            assert(winner@ == lottery_winner_bytes(lottery_data@, raw));
        }
    }
    let data = build_draw_winner_ixn_data(&winner);
    Ok(SettlementInstruction { program_id: p.program_id, data })
}

} // verus!
