//! Escrow accounting: a holding balance tied to a request or ticket pool.
//! Deposits wrap a payer's native balance into escrow atomically, failing
//! the whole operation on insufficient funds; the only withdrawal is a full
//! drain to one destination — no partial drains.

use vstd::prelude::*;

verus! {

/// Why a deposit failed. Either way nothing moved.
#[derive(PartialEq, Eq, Structural, Clone, Copy, Debug)]
pub enum EscrowError {
    /// The payer's balance does not cover the amount.
    InsufficientFunds,
    /// The deposit would push the escrow balance past `u64::MAX`.
    BalanceOverflow,
}

/// An escrow balance.
pub struct Escrow {
    pub balance: u64,
}

impl Escrow {
    /// A fresh, empty escrow.
    pub fn new() -> (r: Escrow)
        ensures
            r.balance == 0,
    {
        Escrow { balance: 0 }
    }

    /// Atomically moves `amount` from the payer's balance into escrow:
    /// either the full amount moves, or nothing does.
    pub fn deposit(&mut self, payer_balance: &mut u64, amount: u64) -> (r: Result<
        (),
        EscrowError,
    >)
        ensures
            r is Ok <==> *old(payer_balance) >= amount && old(self).balance + amount
                <= u64::MAX,
            r == Err::<(), EscrowError>(EscrowError::InsufficientFunds) <==> *old(payer_balance)
                < amount,
            r == Err::<(), EscrowError>(EscrowError::BalanceOverflow) <==> (*old(payer_balance)
                >= amount && old(self).balance + amount > u64::MAX),
            r is Ok ==> final(self).balance == old(self).balance + amount && *final(payer_balance) == *old(payer_balance) - amount,
            r is Err ==> *final(self) == *old(self) && *final(payer_balance) == *old(payer_balance),
    {
        if *payer_balance < amount {
            return Err(EscrowError::InsufficientFunds);
        }
        if amount > u64::MAX - self.balance {
            return Err(EscrowError::BalanceOverflow);
        }
        *payer_balance = *payer_balance - amount;
        self.balance = self.balance + amount;
        Ok(())
    }

    /// Drains the full balance to one destination and returns the amount
    /// moved; the escrow is left empty.
    pub fn drain(&mut self) -> (r: u64)
        ensures
            r == old(self).balance,
            final(self).balance == 0,
    {
        let r = self.balance;
        self.balance = 0;
        r
    }
}

} // verus!
