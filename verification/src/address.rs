//! Ledger addresses: 32-byte identifiers for accounts and programs.

use vstd::prelude::*;

verus! {

/// The width of a ledger address in bytes.
pub const ADDRESS_LEN: usize = 32;

/// A 32-byte ledger address (an account key or a program id).
#[derive(Debug)]
pub struct Address {
    pub bytes: Vec<u8>,
}

impl View for Address {
    type V = Seq<u8>;

    open spec fn view(&self) -> Seq<u8> {
        self.bytes@
    }
}

/// The all-zero address, used by the wire codec to mean "undefined".
pub open spec fn zero_address() -> Seq<u8> {
    Seq::new(ADDRESS_LEN as nat, |i: int| 0u8)
}

impl Address {
    /// A well-formed address holds exactly 32 bytes.
    pub open spec fn wf(&self) -> bool {
        self@.len() == ADDRESS_LEN
    }

    /// Wraps a byte vector as an address; fails unless it is exactly 32 bytes.
    pub fn from_bytes(bytes: Vec<u8>) -> (r: Option<Address>)
        ensures
            match r {
                Some(a) => a.wf() && a@ == bytes@,
                None => bytes@.len() != ADDRESS_LEN,
            },
    {
        if bytes.len() == ADDRESS_LEN {
            Some(Address { bytes })
        } else {
            None
        }
    }

    /// The all-zero address.
    pub fn zeroed() -> (r: Address)
        ensures
            r.wf(),
            r@ == zero_address(),
    {
        let mut bytes: Vec<u8> = Vec::new();
        let mut i: usize = 0;
        while i < ADDRESS_LEN
            invariant
                i <= ADDRESS_LEN,
                bytes@.len() == i,
                forall|j: int| 0 <= j < i ==> bytes@[j] == 0u8,
            decreases ADDRESS_LEN - i,
        {
            bytes.push(0u8);
            i += 1;
        }
        let r = Address { bytes };
        assert(r@ =~= zero_address());
        r
    }

    /// Byte-for-byte equality of two addresses.
    pub fn eq_addr(&self, other: &Address) -> (r: bool)
        ensures
            r == (self@ == other@),
    {
        if self.bytes.len() != other.bytes.len() {
            assert(self@ != other@);
            return false;
        }
        let n = self.bytes.len();
        let mut i: usize = 0;
        while i < n
            invariant
                i <= n,
                n == self@.len() && n == other@.len(),
                forall|j: int| 0 <= j < i ==> self@[j] == other@[j],
            decreases n - i,
        {
            if self.bytes[i] != other.bytes[i] {
                return false;
            }
            i += 1;
        }
        assert(self@ =~= other@);
        true
    }

    /// Whether this address is the all-zero "undefined" address.
    pub fn is_zero(&self) -> (r: bool)
        requires
            self.wf(),
        ensures
            r == (self@ == zero_address()),
    {
        let mut i: usize = 0;
        while i < ADDRESS_LEN
            invariant
                i <= ADDRESS_LEN,
                self.wf(),
                forall|j: int| 0 <= j < i ==> self@[j] == 0u8,
            decreases ADDRESS_LEN - i,
        {
            if self.bytes[i] != 0u8 {
                assert(self@[i as int] != zero_address()[i as int]);
                return false;
            }
            i += 1;
        }
        assert(self@ =~= zero_address());
        true
    }
}

impl Clone for Address {
    fn clone(&self) -> (r: Self)
        ensures
            r@ == self@,
    {
        let mut bytes: Vec<u8> = Vec::new();
        let n = self.bytes.len();
        let mut i: usize = 0;
        while i < n
            invariant
                i <= n,
                n == self@.len(),
                bytes@ == self@.take(i as int),
            decreases n - i,
        {
            bytes.push(self.bytes[i]);
            assert(bytes@ =~= self@.take(i + 1));
            i += 1;
        }
        assert(bytes@ =~= self@);
        Address { bytes }
    }
}

} // verus!
