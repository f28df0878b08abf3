use simple_randomness::address::Address;
use simple_randomness::escrow::{Escrow, EscrowError};
use simple_randomness::lottery::{LotteryError, LotteryState, TicketError};
use simple_randomness::request::{RequestError, RequestPhase};
use simple_randomness::task::run_lottery_task;
use simple_randomness::MAX_TICKETS;

fn addr(n: u8) -> Address {
    Address::from_bytes(vec![n; 32]).unwrap()
}

fn fresh_lottery(entry_fee: u64, duration: u32, now_slot: u64) -> (LotteryState, simple_randomness::request::ComputeRequest) {
    LotteryState::create_lottery(
        255,
        addr(1),
        &addr(2),
        addr(3),
        addr(4),
        &addr(9),
        entry_fee,
        Some(duration),
        now_slot,
    )
}

#[test]
fn test_create_lottery_initial_state() {
    let (lottery, request) = fresh_lottery(1_000_000, 9000, 1000);
    assert_eq!(lottery.num_tickets, 0);
    assert_eq!(lottery.open_slot, 1000);
    assert_eq!(lottery.close_slot, 1000 + 9000);
    assert_eq!(lottery.entry_fee, 1_000_000);
    assert!(!lottery.has_ended);
    assert_eq!(lottery.tickets.len(), MAX_TICKETS);
    // The funding request is armed and scheduled for the close slot,
    // with its payload cap fixed at the payload's own length.
    assert_eq!(request.phase, RequestPhase::Triggered);
    assert_eq!(request.valid_after_slot, lottery.close_slot);
    assert_eq!(request.max_params_len as usize, request.container_params.len());
}

#[test]
fn test_append_fails_after_draw() {
    let (mut lottery, mut request) = fresh_lottery(10, 100, 0);
    let mut escrow = Escrow::new();
    let mut balance = 100u64;
    // A sale at the close slot itself still goes through...
    lottery.buy_ticket(&addr(2), &addr(5), &mut balance, &mut escrow, 100).unwrap();
    // ...and the draw may also happen at that same slot.
    let mut winner_balance = 0u64;
    lottery
        .draw_winner(&addr(2), addr(5), 100, 100, &mut request, &mut escrow, &mut winner_balance)
        .unwrap();
    // Once drawn, a purchase is refused even while the window is open:
    // the ticket list never changes after the draw.
    let r = lottery.buy_ticket(&addr(2), &addr(6), &mut balance, &mut escrow, 100);
    assert_eq!(r.unwrap_err(), TicketError::Lottery(LotteryError::LotteryAlreadyEnded));
    assert_eq!(lottery.num_tickets, 1);
    assert_eq!(balance, 90);
}

#[test]
fn test_append_fills_exactly_to_capacity() {
    let (mut lottery, _request) = fresh_lottery(10, 1000, 0);
    let mut escrow = Escrow::new();
    for i in 0..MAX_TICKETS {
        let mut balance = 100u64;
        let payer = addr((i % 200) as u8 + 10);
        let ev = lottery
            .buy_ticket(&addr(2), &payer, &mut balance, &mut escrow, 5)
            .unwrap();
        assert_eq!(ev.num_tickets as usize, i + 1);
        assert_eq!(balance, 90);
    }
    assert_eq!(lottery.num_tickets as usize, MAX_TICKETS);
    assert_eq!(escrow.balance, 10 * MAX_TICKETS as u64);
    // Call C+1 fails LotterySoldOut and changes nothing.
    let mut balance = 100u64;
    let r = lottery.buy_ticket(&addr(2), &addr(5), &mut balance, &mut escrow, 5);
    assert_eq!(r.unwrap_err(), TicketError::Lottery(LotteryError::LotterySoldOut));
    assert_eq!(lottery.num_tickets as usize, MAX_TICKETS);
    assert_eq!(balance, 100);
    assert_eq!(escrow.balance, 10 * MAX_TICKETS as u64);
}

#[test]
fn test_append_fails_after_close_slot() {
    let (mut lottery, _request) = fresh_lottery(10, 100, 0);
    let mut escrow = Escrow::new();
    let mut balance = 100u64;
    let r = lottery.buy_ticket(&addr(2), &addr(5), &mut balance, &mut escrow, 101);
    assert_eq!(r.unwrap_err(), TicketError::Lottery(LotteryError::LotteryAlreadyEnded));
    // At the close slot itself the sale still goes through.
    let r = lottery.buy_ticket(&addr(2), &addr(5), &mut balance, &mut escrow, 100);
    assert!(r.is_ok());
}

#[test]
fn test_append_fails_on_insufficient_funds() {
    let (mut lottery, _request) = fresh_lottery(1_000_000, 100, 0);
    let mut escrow = Escrow::new();
    let mut balance = 999_999u64;
    let r = lottery.buy_ticket(&addr(2), &addr(5), &mut balance, &mut escrow, 1);
    assert_eq!(r.unwrap_err(), TicketError::Escrow(EscrowError::InsufficientFunds));
    assert_eq!(balance, 999_999);
    assert_eq!(escrow.balance, 0);
    assert_eq!(lottery.num_tickets, 0);
}

#[test]
fn test_draw_winner_at_most_once() {
    let (mut lottery, mut request) = fresh_lottery(10, 100, 0);
    let mut escrow = Escrow::new();
    let mut winner_balance = 0u64;
    // Too early: the window is still open.
    let r = lottery.draw_winner(
        &addr(2),
        addr(1),
        99,
        99,
        &mut request,
        &mut escrow,
        &mut winner_balance,
    );
    assert_eq!(r.unwrap_err(), LotteryError::LotteryActive);
    // At the close slot the draw succeeds.
    let ev = lottery
        .draw_winner(&addr(2), addr(1), 100, 100, &mut request, &mut escrow, &mut winner_balance)
        .unwrap();
    assert!(lottery.has_ended);
    assert_eq!(ev.winner.bytes, addr(1).bytes);
    assert_eq!(request.phase, RequestPhase::Closed);
    // A second draw fails on the idempotency guard.
    let r = lottery.draw_winner(
        &addr(2),
        addr(6),
        200,
        200,
        &mut request,
        &mut escrow,
        &mut winner_balance,
    );
    assert_eq!(r.unwrap_err(), LotteryError::LotteryAlreadyEnded);
    assert_eq!(lottery.winner.bytes, addr(1).bytes);
}

#[test]
fn test_request_close_is_terminal() {
    let (_lottery, mut request) = fresh_lottery(10, 100, 0);
    let mut payer = 500u64;
    request.fund(&mut payer, 200).unwrap();
    assert_eq!(request.escrow.balance, 200);
    let drained = request.close().unwrap();
    assert_eq!(drained, 200);
    assert_eq!(request.escrow.balance, 0);
    let r = request.close();
    assert_eq!(r.unwrap_err(), RequestError::AlreadyClosed);
    let r = request.trigger(None);
    assert_eq!(r.unwrap_err(), RequestError::AlreadyClosed);
}

#[test]
fn test_lottery_end_to_end() {
    // create_lottery(entryFee=1_000_000, duration=9000)
    let program_id = addr(9);
    let lottery_key = addr(2);
    let (mut lottery, mut request) = LotteryState::create_lottery(
        255,
        addr(1),
        &lottery_key,
        addr(3),
        addr(4),
        &program_id,
        1_000_000,
        Some(9000),
        1000,
    );
    assert_eq!(lottery.num_tickets, 0);
    assert_eq!(lottery.close_slot, lottery.open_slot + 9000);

    // Three ticket purchases.
    let mut escrow = Escrow::new();
    let buyers = [addr(21), addr(22), addr(23)];
    for payer in buyers.iter() {
        let mut balance = 2_000_000u64;
        lottery
            .buy_ticket(&lottery_key, payer, &mut balance, &mut escrow, 1500)
            .unwrap();
        assert_eq!(balance, 1_000_000);
    }
    assert_eq!(lottery.num_tickets, 3);
    assert_eq!(escrow.balance, 3_000_000);

    // The off-ledger task runs once the close slot is reached: it reads the
    // record, draws an index over the sold tickets, and emits the
    // settlement instruction.
    let record = lottery.to_record_bytes();
    let raw = 7u32;  // 7 % 3 == 1: the second buyer
    let ix = run_lottery_task(&request.container_params, &record, &program_id, raw).unwrap();
    assert_eq!(ix.program_id.bytes, program_id.bytes);
    let winner_bytes = ix.data[8..40].to_vec();
    assert_eq!(winner_bytes, buyers[1].bytes);
    assert!(buyers.iter().any(|b| b.bytes == winner_bytes));

    // The host applies the guarded transition: the winner takes the pot.
    let winner = Address::from_bytes(winner_bytes).unwrap();
    let mut winner_balance = 0u64;
    let ev = lottery
        .draw_winner(
            &lottery_key,
            winner,
            lottery.close_slot,
            123_456,
            &mut request,
            &mut escrow,
            &mut winner_balance,
        )
        .unwrap();
    assert!(lottery.has_ended);
    assert_eq!(lottery.winner.bytes, buyers[1].bytes);
    assert_eq!(escrow.balance, 0);
    assert_eq!(winner_balance, 3_000_000);
    assert_eq!(ev.jackpot, 3_000_000);
}

#[test]
fn test_zero_participant_draw_falls_back_to_authority() {
    let program_id = addr(9);
    let (lottery, request) = fresh_lottery(10, 100, 0);
    let record = lottery.to_record_bytes();
    let ix = run_lottery_task(&request.container_params, &record, &program_id, 424_242).unwrap();
    // No tickets were sold: the authority is named the winner.
    assert_eq!(ix.data[8..40].to_vec(), addr(1).bytes);
}
