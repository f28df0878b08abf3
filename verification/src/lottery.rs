//! The lottery: a fixed-capacity, append-only participant list with a
//! terminal draw. The record walks `Created -> Open (selling tickets) ->
//! ClosedWindow (close slot reached) -> Drawn (terminal)`; once drawn,
//! tickets, their count and the winner never change again.

use vstd::prelude::*;
use crate::address::{Address, zero_address};
use crate::base58::base58_of;
use crate::escrow::{Escrow, EscrowError};
use crate::params::{lottery_params_wire, encode_lottery_params, pid_key, lottery_key_name};
use crate::kv::wire_lookup;
use crate::request::{ComputeRequest, RequestPhase};
use crate::{MAX_TICKETS, DEFAULT_LOTTERY_DURATION_SLOTS};

verus! {

/// Why a lottery operation was rejected.
#[derive(PartialEq, Eq, Structural, Clone, Copy, Debug)]
pub enum LotteryError {
    /// The signing authority does not own the record.
    InvalidAuthority,
    /// The sales window has passed, or the draw already happened.
    LotteryAlreadyEnded,
    /// Every ticket slot is taken.
    LotterySoldOut,
    /// The sales window is still open, so the draw must wait.
    LotteryActive,
}

/// Why a ticket purchase failed. Either way nothing changed.
#[derive(PartialEq, Eq, Structural, Clone, Copy, Debug)]
pub enum TicketError {
    /// A lottery rule rejected the purchase.
    Lottery(LotteryError),
    /// The escrow rejected the payment.
    Escrow(EscrowError),
}

/// A ticket was sold.
#[derive(Debug)]
pub struct LotteryTicketPurchased {
    pub lottery: Address,
    pub user: Address,
    pub entry_fee: u64,
    pub num_tickets: u32,
}

/// The draw happened: the winner and the jackpot paid out.
#[derive(Debug)]
pub struct LotteryWinnerSelected {
    pub lottery: Address,
    pub winner: Address,
    pub jackpot: u64,
    pub settled_timestamp: i64,
    pub settled_slot: u64,
}

/// The state of one lottery.
pub struct LotteryState {
    /// Derived-address bump seed.
    pub bump: u8,
    /// The account authorized to act for this lottery, and the fallback
    /// winner of a zero-participant draw.
    pub authority: Address,
    /// The lottery's escrow account.
    pub escrow: Address,
    /// The lottery's compute-request account.
    pub switchboard_request: Address,
    /// The slot at which ticket sales opened.
    pub open_slot: u64,
    /// The slot at which sales close and the draw becomes possible.
    pub close_slot: u64,
    /// How many tickets are sold; indexes the next free slot.
    pub num_tickets: u32,
    /// The price of one ticket.
    pub entry_fee: u64,
    /// The drawn winner; meaningful only once `has_ended`.
    pub winner: Address,
    /// Whether the terminal draw happened.
    pub has_ended: bool,
    /// The participant arena: a buffer of fixed capacity, filled from the
    /// front; slots at `num_tickets` and beyond are unsold.
    pub tickets: Vec<Address>,
}

impl LotteryState {
    /// The ticket buffer as plain byte strings.
    pub open spec fn tickets_view(&self) -> Seq<Seq<u8>> {
        self.tickets@.map_values(|a: Address| a@)
    }

    /// All address fields, tickets included, hold exactly 32 bytes.
    pub open spec fn addrs_wf(&self) -> bool {
        &&& self.authority.wf()
        &&& self.escrow.wf()
        &&& self.switchboard_request.wf()
        &&& self.winner.wf()
        &&& forall|i: int| 0 <= i < self.tickets@.len() ==> (#[trigger] self.tickets@[i]).wf()
    }

    /// Well-formed: full-capacity arena, counter within capacity, and a
    /// sales window that does not end before it opens.
    pub open spec fn wf(&self) -> bool {
        &&& self.tickets@.len() == MAX_TICKETS
        &&& self.num_tickets <= MAX_TICKETS as u32
        &&& self.open_slot <= self.close_slot
    }

    /// Whether a ticket can still be sold: a free slot remains, the sales
    /// window has not passed, and the draw has not happened — once it has,
    /// neither the tickets, their count nor the winner may change.
    pub open spec fn sale_open(&self, now_slot: u64) -> bool {
        self.num_tickets < MAX_TICKETS as u32 && self.close_slot >= now_slot
            && !self.has_ended
    }

    /// Whether the terminal draw may happen: not yet drawn, and the sales
    /// window is over.
    pub open spec fn draw_allowed(&self, now_slot: u64) -> bool {
        !self.has_ended && self.close_slot <= now_slot
    }

    /// The duration a caller asked for, or the default.
    pub open spec fn chosen_duration(duration_slots: Option<u32>) -> u32 {
        match duration_slots {
            Some(d) => d,
            None => DEFAULT_LOTTERY_DURATION_SLOTS,
        }
    }

    /// Creates a lottery atomically with its funding request: the request
    /// carries the `PID`/`LOTTERY` parameters and is scheduled to execute
    /// at the slot the sales window closes.
    pub fn create_lottery(
        bump: u8,
        authority: Address,
        lottery_key: &Address,
        lottery_escrow: Address,
        request_key: Address,
        program_id: &Address,
        entry_fee: u64,
        duration_slots: Option<u32>,
        now_slot: u64,
    ) -> (r: (LotteryState, ComputeRequest))
        requires
            program_id.wf(),
            lottery_key.wf(),
            now_slot + Self::chosen_duration(duration_slots) <= u64::MAX,
        ensures
            r.0.wf(),
            r.0.bump == bump,
            r.0.authority@ == authority@,
            r.0.escrow@ == lottery_escrow@,
            r.0.switchboard_request@ == request_key@,
            r.0.open_slot == now_slot,
            r.0.close_slot == now_slot + Self::chosen_duration(duration_slots),
            r.0.num_tickets == 0,
            r.0.entry_fee == entry_fee,
            r.0.winner@ == zero_address(),
            !r.0.has_ended,
            r.0.tickets_view() == Seq::new(MAX_TICKETS as nat, |i: int| zero_address()),
            r.1.wf(),
            r.1.phase == RequestPhase::Triggered,
            r.1.authority@ == lottery_key@,
            r.1.max_params_len == r.1.container_params@.len(),
            r.1.escrow.balance == 0,
            r.1.valid_after_slot == r.0.close_slot,
            r.1.container_params@ == lottery_params_wire(
                base58_of(program_id@),
                base58_of(lottery_key@),
            ),
            wire_lookup(r.1.container_params@, pid_key()) == Some(base58_of(program_id@)),
            wire_lookup(r.1.container_params@, lottery_key_name()) == Some(
                base58_of(lottery_key@),
            ),
    {
        let params = encode_lottery_params(program_id, lottery_key);
        // The payload's own length is the cap, as the request is created
        // with exactly this payload.
        let cap = params.len() as u32;
        let mut request = ComputeRequest::init(lottery_key.clone(), params, cap);
        let duration: u32 = match duration_slots {
            Some(d) => d,
            None => DEFAULT_LOTTERY_DURATION_SLOTS,
        };
        let close_slot = now_slot + duration as u64;
        // Arm the request now, scheduled to run as soon as the lottery ends.
        let trigger_result = request.trigger(Some(close_slot));
        proof {
            assert(trigger_result is Ok);
        }
        let mut tickets: Vec<Address> = Vec::new();
        let mut i: usize = 0;
        while i < MAX_TICKETS
            invariant
                i <= MAX_TICKETS,
                tickets@.len() == i,
                forall|j: int| 0 <= j < i ==> #[trigger] tickets@[j]@ == zero_address(),
            decreases MAX_TICKETS - i,
        {
            tickets.push(Address::zeroed());
            i += 1;
        }
        let lottery = LotteryState {
            bump,
            authority,
            escrow: lottery_escrow,
            switchboard_request: request_key,
            open_slot: now_slot,
            close_slot,
            num_tickets: 0,
            entry_fee,
            winner: Address::zeroed(),
            has_ended: false,
            tickets,
        };
        proof {
            assert(lottery.tickets_view() =~= Seq::new(
                MAX_TICKETS as nat,
                |i: int| zero_address(),
            ));
        }
        (lottery, request)
    }

    /// Sells one ticket: fails `LotterySoldOut` once every slot is taken
    /// and `LotteryAlreadyEnded` once the sales window has passed or the
    /// draw has happened; the entry fee moves into escrow atomically, and
    /// the buyer is written at the next free slot. Nothing changes on any
    /// failure.
    pub fn buy_ticket(
        &mut self,
        lottery_key: &Address,
        payer: &Address,
        payer_balance: &mut u64,
        escrow: &mut Escrow,
        now_slot: u64,
    ) -> (r: Result<LotteryTicketPurchased, TicketError>)
        requires
            old(self).wf(),
        ensures
            final(self).wf(),
            r is Ok <==> (old(self).sale_open(now_slot) && *old(payer_balance) >= old(
                self,
            ).entry_fee && old(escrow).balance + old(self).entry_fee <= u64::MAX),
            r == Err::<LotteryTicketPurchased, TicketError>(
                TicketError::Lottery(LotteryError::LotterySoldOut),
            ) <==> old(self).num_tickets >= MAX_TICKETS as u32,
            r == Err::<LotteryTicketPurchased, TicketError>(
                TicketError::Lottery(LotteryError::LotteryAlreadyEnded),
            ) <==> (old(self).num_tickets < MAX_TICKETS as u32 && (old(self).close_slot
                < now_slot || old(self).has_ended)),
            r == Err::<LotteryTicketPurchased, TicketError>(
                TicketError::Escrow(EscrowError::InsufficientFunds),
            ) <==> (old(self).sale_open(now_slot) && *old(payer_balance) < old(
                self,
            ).entry_fee),
            r is Err ==> *final(self) == *old(self) && *final(escrow) == *old(escrow) && *final(payer_balance) == *old(payer_balance),
            r is Ok ==> final(self).num_tickets == old(self).num_tickets + 1 && final(self).tickets_view() == old(self).tickets_view().update(
                old(self).num_tickets as int,
                payer@,
            ) && final(self).bump == old(self).bump && final(self).authority == old(self).authority && final(self).escrow == old(self).escrow && final(self).switchboard_request == old(self).switchboard_request && final(self).open_slot
                == old(self).open_slot && final(self).close_slot == old(self).close_slot
                && final(self).entry_fee == old(self).entry_fee && final(self).winner == old(self).winner && final(self).has_ended == old(self).has_ended,
            r is Ok ==> final(escrow).balance == old(escrow).balance + old(self).entry_fee
                && *final(payer_balance) == *old(payer_balance) - old(self).entry_fee,
            r matches Ok(ev) ==> ev.lottery@ == lottery_key@ && ev.user@ == payer@
                && ev.entry_fee == old(self).entry_fee && ev.num_tickets == old(self).num_tickets + 1,
    {
        if self.num_tickets >= MAX_TICKETS as u32 {
            return Err(TicketError::Lottery(LotteryError::LotterySoldOut));
        }
        if self.close_slot < now_slot || self.has_ended {
            return Err(TicketError::Lottery(LotteryError::LotteryAlreadyEnded));
        }
        // Wrap the payer's native balance into escrow; the whole purchase
        // fails if the payment does.
        match escrow.deposit(payer_balance, self.entry_fee) {
            Ok(()) => {},
            Err(e) => {
                return Err(TicketError::Escrow(e));
            },
        }
        let idx = self.num_tickets as usize;
        self.tickets[idx] = payer.clone();
        self.num_tickets = self.num_tickets + 1;
        proof {
            assert(self.tickets_view() =~= old(self).tickets_view().update(
                old(self).num_tickets as int,
                payer@,
            ));
        }
        Ok(
            LotteryTicketPurchased {
                lottery: lottery_key.clone(),
                user: payer.clone(),
                entry_fee: self.entry_fee,
                num_tickets: self.num_tickets,
            },
        )
    }

    /// The terminal draw: fails `LotteryAlreadyEnded` once drawn — the
    /// draw happens at most once — and `LotteryActive` while the sales
    /// window is open. On success the winner is recorded, the compute
    /// request is closed with its residual escrow folded into the payout,
    /// the lottery escrow is drained, and the winner receives the whole
    /// pot. The candidate winner is not checked against the ticket list
    /// here; that check belongs to the off-ledger task.
    pub fn draw_winner(
        &mut self,
        lottery_key: &Address,
        winner: Address,
        now_slot: u64,
        now_timestamp: i64,
        request: &mut ComputeRequest,
        escrow: &mut Escrow,
        winner_balance: &mut u64,
    ) -> (r: Result<LotteryWinnerSelected, LotteryError>)
        requires
            old(self).wf(),
            old(request).phase != RequestPhase::Closed,
            *old(winner_balance) + old(escrow).balance + old(request).escrow.balance
                <= u64::MAX,
        ensures
            final(self).wf(),
            r is Ok <==> old(self).draw_allowed(now_slot),
            r == Err::<LotteryWinnerSelected, LotteryError>(LotteryError::LotteryAlreadyEnded)
                <==> old(self).has_ended,
            r == Err::<LotteryWinnerSelected, LotteryError>(LotteryError::LotteryActive) <==> (
            !old(self).has_ended && old(self).close_slot > now_slot),
            r is Err ==> *final(self) == *old(self) && *final(escrow) == *old(escrow) && *final(request) == *old(request) && *final(winner_balance) == *old(winner_balance),
            r is Ok ==> final(self).has_ended && final(self).winner@ == winner@ && final(self).num_tickets == old(self).num_tickets && final(self).tickets_view() == old(self).tickets_view() && final(self).bump == old(self).bump && final(self).authority
                == old(self).authority && final(self).escrow == old(self).escrow && final(self).switchboard_request == old(self).switchboard_request && final(self).open_slot
                == old(self).open_slot && final(self).close_slot == old(self).close_slot
                && final(self).entry_fee == old(self).entry_fee,
            r is Ok ==> final(request).phase == RequestPhase::Closed && final(request).escrow.balance == 0 && final(escrow).balance == 0 && *final(winner_balance)
                == *old(winner_balance) + old(escrow).balance + old(request).escrow.balance,
            r matches Ok(ev) ==> ev.lottery@ == lottery_key@ && ev.winner@ == winner@
                && ev.jackpot == old(escrow).balance && ev.settled_slot == now_slot
                && ev.settled_timestamp == now_timestamp,
    {
        if self.has_ended {
            return Err(LotteryError::LotteryAlreadyEnded);
        }
        if self.close_slot > now_slot {
            return Err(LotteryError::LotteryActive);
        }
        let jackpot = escrow.balance;
        // Close the compute request; its residual escrow joins the payout.
        let residual = match request.close() {
            Ok(v) => v,
            Err(_) => {
                proof {
                    assert(false);
                }
                0
            },
        };
        // Drain the lottery's own escrow to the winner.
        let pot = escrow.drain();
        *winner_balance = *winner_balance + pot + residual;
        self.has_ended = true;
        self.winner = winner;
        Ok(
            LotteryWinnerSelected {
                lottery: lottery_key.clone(),
                winner: self.winner.clone(),
                jackpot,
                settled_timestamp: now_timestamp,
                settled_slot: now_slot,
            },
        )
    }
}


/// Capacity law: a lottery admits one more ticket exactly while fewer
/// than `MAX_TICKETS` are sold, so from a fresh lottery — each sale
/// raising the counter by one, as `buy_ticket` ensures — sales succeed
/// exactly `MAX_TICKETS` times, and the next attempt is refused
/// `LotterySoldOut` whatever the clock says.
pub proof fn lemma_capacity_exhausted(l: LotteryState, now_slot: u64)
    requires
        l.wf(),
        l.num_tickets == MAX_TICKETS as u32,
    ensures
        !l.sale_open(now_slot),
{
}

/// Terminality law: the draw happens at most once. A successful draw
/// leaves `has_ended` set, as `draw_winner` ensures, and such a state
/// never allows another draw, at any later slot.
pub proof fn lemma_draw_at_most_once(l: LotteryState, now_slot: u64)
    requires
        l.has_ended,
    ensures
        !l.draw_allowed(now_slot),
{
}

} // verus!
