//! Ledger records: fixed-layout binary storage cells. A record is its
//! 8-byte type discriminator followed by fixed-width packed fields; this
//! module holds the little-endian field codecs, the trust validator that
//! checks a fetched record's owner and tag, and the typed record codecs.

use vstd::prelude::*;
use crate::address::{Address, ADDRESS_LEN};
use crate::digest::{account_discriminator, get_account_discriminator};
use crate::kv::{copy_range, bytes_eq, append_bytes};
use crate::params::ValidationError;
use crate::state::ProgramState;
use crate::user::UserState;
use crate::lottery::LotteryState;
use crate::MAX_TICKETS;

verus! {

/// The bytes of `n` in little-endian order.
pub open spec fn u32_le_bytes(n: u32) -> Seq<u8> {
    seq![
        (n & 0xff) as u8,
        ((n >> 8) & 0xff) as u8,
        ((n >> 16) & 0xff) as u8,
        ((n >> 24) & 0xff) as u8,
    ]
}

/// The bytes of `n` in little-endian order.
pub open spec fn u64_le_bytes(n: u64) -> Seq<u8> {
    seq![
        (n & 0xff) as u8,
        ((n >> 8) & 0xff) as u8,
        ((n >> 16) & 0xff) as u8,
        ((n >> 24) & 0xff) as u8,
        ((n >> 32) & 0xff) as u8,
        ((n >> 40) & 0xff) as u8,
        ((n >> 48) & 0xff) as u8,
        ((n >> 56) & 0xff) as u8,
    ]
}

/// The bytes of `n` in little-endian two's-complement order.
pub open spec fn i64_le_bytes(n: i64) -> Seq<u8> {
    u64_le_bytes(n as u64)
}

/// One byte for a flag: `1` for true, `0` for false.
pub open spec fn bool_byte(b: bool) -> u8 {
    if b {
        1u8
    } else {
        0u8
    }
}

/// The number written little-endian in a 4-byte string.
pub open spec fn u32_from_le(s: Seq<u8>) -> u32
    recommends
        s.len() == 4,
{
    (s[0] as u32) | ((s[1] as u32) << 8) | ((s[2] as u32) << 16) | ((s[3] as u32) << 24)
}

/// The number written little-endian in an 8-byte string.
pub open spec fn u64_from_le(s: Seq<u8>) -> u64
    recommends
        s.len() == 8,
{
    (s[0] as u64) | ((s[1] as u64) << 8) | ((s[2] as u64) << 16) | ((s[3] as u64) << 24) | (
    (s[4] as u64) << 32) | ((s[5] as u64) << 40) | ((s[6] as u64) << 48) | ((s[7] as u64)
        << 56)
}

/// Appends `n` in little-endian order.
pub fn push_u32_le(out: &mut Vec<u8>, n: u32)
    ensures
        final(out)@ == old(out)@ + u32_le_bytes(n),
{
    out.push((n & 0xff) as u8);
    out.push(((n >> 8) & 0xff) as u8);
    out.push(((n >> 16) & 0xff) as u8);
    out.push(((n >> 24) & 0xff) as u8);
    assert(out@ =~= old(out)@ + u32_le_bytes(n));
}

/// Appends `n` in little-endian order.
pub fn push_u64_le(out: &mut Vec<u8>, n: u64)
    ensures
        final(out)@ == old(out)@ + u64_le_bytes(n),
{
    out.push((n & 0xff) as u8);
    out.push(((n >> 8) & 0xff) as u8);
    out.push(((n >> 16) & 0xff) as u8);
    out.push(((n >> 24) & 0xff) as u8);
    out.push(((n >> 32) & 0xff) as u8);
    out.push(((n >> 40) & 0xff) as u8);
    out.push(((n >> 48) & 0xff) as u8);
    out.push(((n >> 56) & 0xff) as u8);
    assert(out@ =~= old(out)@ + u64_le_bytes(n));
}

/// Appends `n` in little-endian two's-complement order.
pub fn push_i64_le(out: &mut Vec<u8>, n: i64)
    ensures
        final(out)@ == old(out)@ + i64_le_bytes(n),
{
    push_u64_le(out, n as u64);
}

/// Reads the number written little-endian at `offset`.
pub fn read_u32_le(data: &Vec<u8>, offset: usize) -> (r: u32)
    requires
        offset + 4 <= data@.len(),
    ensures
        r == u32_from_le(data@.subrange(offset as int, offset + 4)),
{
    let n = data.len();
    let r = (data[offset] as u32) | ((data[offset + 1] as u32) << 8) | ((data[offset + 2]
        as u32) << 16) | ((data[offset + 3] as u32) << 24);
    proof {
        let s = data@.subrange(offset as int, offset + 4);
        assert(s[0] == data@[offset as int] && s[1] == data@[offset + 1] && s[2] == data@[
            offset + 2] && s[3] == data@[offset + 3]);
    }
    r
}

/// Reads the number written little-endian at `offset`.
pub fn read_u64_le(data: &Vec<u8>, offset: usize) -> (r: u64)
    requires
        offset + 8 <= data@.len(),
    ensures
        r == u64_from_le(data@.subrange(offset as int, offset + 8)),
{
    let n = data.len();
    let r = (data[offset] as u64) | ((data[offset + 1] as u64) << 8) | ((data[offset + 2]
        as u64) << 16) | ((data[offset + 3] as u64) << 24) | ((data[offset + 4] as u64) << 32)
        | ((data[offset + 5] as u64) << 40) | ((data[offset + 6] as u64) << 48) | ((data[offset
        + 7] as u64) << 56);
    proof {
        let s = data@.subrange(offset as int, offset + 8);
        assert(s[0] == data@[offset as int] && s[1] == data@[offset + 1] && s[2] == data@[
            offset + 2] && s[3] == data@[offset + 3] && s[4] == data@[offset + 4] && s[5]
            == data@[offset + 5] && s[6] == data@[offset + 6] && s[7] == data@[offset + 7]);
    }
    r
}

/// Reads the number written little-endian at `offset` as a signed value.
pub fn read_i64_le(data: &Vec<u8>, offset: usize) -> (r: i64)
    requires
        offset + 8 <= data@.len(),
    ensures
        r == u64_from_le(data@.subrange(offset as int, offset + 8)) as i64,
{
    let u = read_u64_le(data, offset);
    u as i64
}

/// Reads the 32-byte address at `offset`.
pub fn read_address(data: &Vec<u8>, offset: usize) -> (r: Address)
    requires
        offset + ADDRESS_LEN <= data@.len(),
    ensures
        r.wf(),
        r@ == data@.subrange(offset as int, offset + ADDRESS_LEN),
{
    let n = data.len();
    let bytes = copy_range(data, offset, offset + ADDRESS_LEN);
    Address { bytes }
}

/// The trust validator: checks that the record at hand is owned by the
/// expected program, is long enough to carry a tag, and carries the
/// expected tag; on success returns an independent copy of the payload
/// after the tag. Checked in that order, as the errors state.
pub fn load_account(
    data: &Vec<u8>,
    owner: &Address,
    program_id: &Address,
    expected_disc: &Vec<u8>,
) -> (r: Result<Vec<u8>, ValidationError>)
    requires
        expected_disc@.len() == 8,
    ensures
        r matches Ok(payload) ==> owner@ == program_id@ && data@.len() >= 8 && data@.take(8)
            == expected_disc@ && payload@ == data@.skip(8),
        r is Ok <==> (owner@ == program_id@ && data@.len() >= 8 && data@.take(8)
            == expected_disc@),
        r == Err::<Vec<u8>, ValidationError>(ValidationError::OwnershipError) <==> owner@
            != program_id@,
        r == Err::<Vec<u8>, ValidationError>(ValidationError::AccountParseError) <==> (owner@
            == program_id@ && data@.len() < 8),
        r == Err::<Vec<u8>, ValidationError>(ValidationError::DiscriminatorMismatch) <==> (
        owner@ == program_id@ && data@.len() >= 8 && data@.take(8) != expected_disc@),
{
    if !owner.eq_addr(program_id) {
        return Err(ValidationError::OwnershipError);
    }
    if data.len() < 8 {
        return Err(ValidationError::AccountParseError);
    }
    let head = copy_range(data, 0, 8);
    proof {
        assert(head@ =~= data@.take(8));
    }
    if !bytes_eq(&head, expected_disc) {
        return Err(ValidationError::DiscriminatorMismatch);
    }
    let payload = copy_range(data, 8, data.len());
    proof {
        assert(payload@ =~= data@.skip(8));
    }
    Ok(payload)
}

/// The record type name `ProgramState`.
pub open spec fn program_state_name() -> Seq<u8> {
    seq![80u8, 114u8, 111u8, 103u8, 114u8, 97u8, 109u8, 83u8, 116u8, 97u8, 116u8, 101u8]
}

fn program_state_name_vec() -> (r: Vec<u8>)
    ensures
        r@ == program_state_name(),
{
    let r: Vec<u8> = vec![
        80u8, 114u8, 111u8, 103u8, 114u8, 97u8, 109u8, 83u8, 116u8, 97u8, 116u8, 101u8,
    ];
    assert(r@ =~= program_state_name());
    r
}

/// The payload of a `ProgramState` record: bump, authority, bound
/// compute provider.
pub open spec fn program_state_record_bytes(s: ProgramState) -> Seq<u8> {
    seq![s.bump] + s.authority@ + s.switchboard_function@
}

impl ProgramState {
    /// All address fields hold exactly 32 bytes.
    pub open spec fn addrs_wf(&self) -> bool {
        self.authority.wf() && self.switchboard_function.wf()
    }

    /// Serializes the record: tag, then the packed payload.
    pub fn to_record_bytes(&self) -> (r: Vec<u8>)
        requires
            self.addrs_wf(),
        ensures
            r@ == account_discriminator(program_state_name()) + program_state_record_bytes(
                *self,
            ),
    {
        let name = program_state_name_vec();
        let mut r = get_account_discriminator(&name);
        r.push(self.bump);
        append_bytes(&mut r, &self.authority.bytes);
        append_bytes(&mut r, &self.switchboard_function.bytes);
        assert(r@ =~= account_discriminator(program_state_name())
            + program_state_record_bytes(*self));
        r
    }

    /// Fetches a `ProgramState` from a raw record: validates owner and
    /// tag, then reinterprets the fixed layout, returning an independent
    /// copy.
    pub fn fetch(data: &Vec<u8>, owner: &Address, program_id: &Address) -> (r: Result<
        ProgramState,
        ValidationError,
    >)
        ensures
            r matches Ok(s) ==> s.addrs_wf() && owner@ == program_id@ && data@ ==
                account_discriminator(program_state_name()) + program_state_record_bytes(s),
            r is Ok <==> (owner@ == program_id@ && data@.len() == 73 && data@.take(8)
                == account_discriminator(program_state_name())),
    {
        let name = program_state_name_vec();
        let disc = get_account_discriminator(&name);
        let payload = match load_account(data, owner, program_id, &disc) {
            Ok(p) => p,
            Err(e) => {
                return Err(e);
            },
        };
        if payload.len() != 65 {
            return Err(ValidationError::AccountParseError);
        }
        let bump = payload[0];
        let authority = read_address(&payload, 1);
        let switchboard_function = read_address(&payload, 33);
        let s = ProgramState { bump, authority, switchboard_function };
        proof {
            assert(data@ =~= data@.take(8) + data@.skip(8));
            assert(payload@ =~= program_state_record_bytes(s));
        }
        Ok(s)
    }
}

/// Reading digits back from rendered bytes: the byte-level codec
/// round-trips in the other direction too.
pub proof fn lemma_u32_from_le_round_trip(s: Seq<u8>)
    requires
        s.len() == 4,
    ensures
        u32_le_bytes(u32_from_le(s)) == s,
{
    let b0 = s[0];
    let b1 = s[1];
    let b2 = s[2];
    let b3 = s[3];
    let n = u32_from_le(s);
    assert(n == (b0 as u32) | ((b1 as u32) << 8) | ((b2 as u32) << 16) | ((b3 as u32) << 24));
    assert(((((b0 as u32) | ((b1 as u32) << 8) | ((b2 as u32) << 16) | ((b3 as u32) << 24))
        & 0xff) as u8) == b0) by (bit_vector);
    assert((((((b0 as u32) | ((b1 as u32) << 8) | ((b2 as u32) << 16) | ((b3 as u32) << 24))
        >> 8) & 0xff) as u8) == b1) by (bit_vector);
    assert((((((b0 as u32) | ((b1 as u32) << 8) | ((b2 as u32) << 16) | ((b3 as u32) << 24))
        >> 16) & 0xff) as u8) == b2) by (bit_vector);
    assert((((((b0 as u32) | ((b1 as u32) << 8) | ((b2 as u32) << 16) | ((b3 as u32) << 24))
        >> 24) & 0xff) as u8) == b3) by (bit_vector);
    assert(u32_le_bytes(n) =~= s);
}

/// Reading digits back from rendered bytes, for the 8-byte codec.
pub proof fn lemma_u64_from_le_round_trip(s: Seq<u8>)
    requires
        s.len() == 8,
    ensures
        u64_le_bytes(u64_from_le(s)) == s,
{
    let b0 = s[0];
    let b1 = s[1];
    let b2 = s[2];
    let b3 = s[3];
    let b4 = s[4];
    let b5 = s[5];
    let b6 = s[6];
    let b7 = s[7];
    let n = u64_from_le(s);
    assert(n == (b0 as u64) | ((b1 as u64) << 8) | ((b2 as u64) << 16) | ((b3 as u64) << 24) | (
    (b4 as u64) << 32) | ((b5 as u64) << 40) | ((b6 as u64) << 48) | ((b7 as u64) << 56));
    assert(((((b0 as u64) | ((b1 as u64) << 8) | ((b2 as u64) << 16) | ((b3 as u64) << 24) | (
    (b4 as u64) << 32) | ((b5 as u64) << 40) | ((b6 as u64) << 48) | ((b7 as u64) << 56))
        & 0xff) as u8) == b0) by (bit_vector);
    assert((((((b0 as u64) | ((b1 as u64) << 8) | ((b2 as u64) << 16) | ((b3 as u64) << 24) | (
    (b4 as u64) << 32) | ((b5 as u64) << 40) | ((b6 as u64) << 48) | ((b7 as u64) << 56))
        >> 8) & 0xff) as u8) == b1) by (bit_vector);
    assert((((((b0 as u64) | ((b1 as u64) << 8) | ((b2 as u64) << 16) | ((b3 as u64) << 24) | (
    (b4 as u64) << 32) | ((b5 as u64) << 40) | ((b6 as u64) << 48) | ((b7 as u64) << 56))
        >> 16) & 0xff) as u8) == b2) by (bit_vector);
    assert((((((b0 as u64) | ((b1 as u64) << 8) | ((b2 as u64) << 16) | ((b3 as u64) << 24) | (
    (b4 as u64) << 32) | ((b5 as u64) << 40) | ((b6 as u64) << 48) | ((b7 as u64) << 56))
        >> 24) & 0xff) as u8) == b3) by (bit_vector);
    assert((((((b0 as u64) | ((b1 as u64) << 8) | ((b2 as u64) << 16) | ((b3 as u64) << 24) | (
    (b4 as u64) << 32) | ((b5 as u64) << 40) | ((b6 as u64) << 48) | ((b7 as u64) << 56))
        >> 32) & 0xff) as u8) == b4) by (bit_vector);
    assert((((((b0 as u64) | ((b1 as u64) << 8) | ((b2 as u64) << 16) | ((b3 as u64) << 24) | (
    (b4 as u64) << 32) | ((b5 as u64) << 40) | ((b6 as u64) << 48) | ((b7 as u64) << 56))
        >> 40) & 0xff) as u8) == b5) by (bit_vector);
    assert((((((b0 as u64) | ((b1 as u64) << 8) | ((b2 as u64) << 16) | ((b3 as u64) << 24) | (
    (b4 as u64) << 32) | ((b5 as u64) << 40) | ((b6 as u64) << 48) | ((b7 as u64) << 56))
        >> 48) & 0xff) as u8) == b6) by (bit_vector);
    assert((((((b0 as u64) | ((b1 as u64) << 8) | ((b2 as u64) << 16) | ((b3 as u64) << 24) | (
    (b4 as u64) << 32) | ((b5 as u64) << 40) | ((b6 as u64) << 48) | ((b7 as u64) << 56))
        >> 56) & 0xff) as u8) == b7) by (bit_vector);
    assert(u64_le_bytes(n) =~= s);
}

/// Signed and unsigned views of the same 8 bytes coincide.
pub proof fn lemma_i64_cast_round_trip(x: u64)
    ensures
        (x as i64) as u64 == x,
{
    assert((x as i64) as u64 == x) by (bit_vector);
}


/// The record type name `UserState`.
pub open spec fn user_state_name() -> Seq<u8> {
    seq![85u8, 115u8, 101u8, 114u8, 83u8, 116u8, 97u8, 116u8, 101u8]
}

fn user_state_name_vec() -> (r: Vec<u8>)
    ensures
        r@ == user_state_name(),
{
    let r: Vec<u8> = vec![85u8, 115u8, 101u8, 114u8, 83u8, 116u8, 97u8, 116u8, 101u8];
    assert(r@ =~= user_state_name());
    r
}

/// The payload of a `UserState` record: bump, authority, request, guess,
/// result, and the two timestamps.
pub open spec fn user_state_record_bytes(u: UserState) -> Seq<u8> {
    seq![u.bump] + u.authority@ + u.switchboard_request@ + u32_le_bytes(u.guess) + u32_le_bytes(
        u.result,
    ) + i64_le_bytes(u.request_timestamp) + i64_le_bytes(u.settled_timestamp)
}

impl UserState {
    /// All address fields hold exactly 32 bytes.
    pub open spec fn addrs_wf(&self) -> bool {
        self.authority.wf() && self.switchboard_request.wf()
    }

    /// Serializes the record: tag, then the packed payload.
    pub fn to_record_bytes(&self) -> (r: Vec<u8>)
        requires
            self.addrs_wf(),
        ensures
            r@ == account_discriminator(user_state_name()) + user_state_record_bytes(*self),
    {
        let name = user_state_name_vec();
        let mut r = get_account_discriminator(&name);
        r.push(self.bump);
        append_bytes(&mut r, &self.authority.bytes);
        append_bytes(&mut r, &self.switchboard_request.bytes);
        push_u32_le(&mut r, self.guess);
        push_u32_le(&mut r, self.result);
        push_i64_le(&mut r, self.request_timestamp);
        push_i64_le(&mut r, self.settled_timestamp);
        assert(r@ =~= account_discriminator(user_state_name()) + user_state_record_bytes(
            *self,
        ));
        r
    }

    /// Fetches a `UserState` from a raw record: validates owner and tag,
    /// then reinterprets the fixed layout, returning an independent copy.
    pub fn fetch(data: &Vec<u8>, owner: &Address, program_id: &Address) -> (r: Result<
        UserState,
        ValidationError,
    >)
        ensures
            r matches Ok(u) ==> u.addrs_wf() && owner@ == program_id@ && data@
                == account_discriminator(user_state_name()) + user_state_record_bytes(u),
            r is Ok <==> (owner@ == program_id@ && data@.len() == 97 && data@.take(8)
                == account_discriminator(user_state_name())),
    {
        let name = user_state_name_vec();
        let disc = get_account_discriminator(&name);
        let payload = match load_account(data, owner, program_id, &disc) {
            Ok(p) => p,
            Err(e) => {
                return Err(e);
            },
        };
        if payload.len() != 89 {
            return Err(ValidationError::AccountParseError);
        }
        let bump = payload[0];
        let authority = read_address(&payload, 1);
        let switchboard_request = read_address(&payload, 33);
        let guess = read_u32_le(&payload, 65);
        let result = read_u32_le(&payload, 69);
        let request_timestamp = read_i64_le(&payload, 73);
        let settled_timestamp = read_i64_le(&payload, 81);
        let u = UserState {
            bump,
            authority,
            switchboard_request,
            guess,
            result,
            request_timestamp,
            settled_timestamp,
        };
        proof {
            lemma_u32_from_le_round_trip(payload@.subrange(65, 69));
            lemma_u32_from_le_round_trip(payload@.subrange(69, 73));
            lemma_u64_from_le_round_trip(payload@.subrange(73, 81));
            lemma_u64_from_le_round_trip(payload@.subrange(81, 89));
            lemma_i64_cast_round_trip(u64_from_le(payload@.subrange(73, 81)));
            lemma_i64_cast_round_trip(u64_from_le(payload@.subrange(81, 89)));
            assert(payload@ =~= user_state_record_bytes(u));
            assert(data@ =~= data@.take(8) + data@.skip(8));
        }
        Ok(u)
    }
}


/// The flat bytes of a ticket arena: each entry's 32 bytes in order.
pub open spec fn flatten_addrs(ts: Seq<Seq<u8>>) -> Seq<u8>
    decreases ts.len(),
{
    if ts.len() == 0 {
        Seq::<u8>::empty()
    } else {
        ts[0] + flatten_addrs(ts.drop_first())
    }
}

/// An arena whose entries each mirror one 32-byte slice of a larger
/// string flattens to the contiguous region those slices cover.
pub proof fn lemma_flatten_of_subranges(ts: Seq<Seq<u8>>, big: Seq<u8>, off: int)
    requires
        0 <= off,
        off + 32 * ts.len() <= big.len(),
        forall|i: int| 0 <= i < ts.len() ==> ts[i] == big.subrange(
            off + 32 * i,
            off + 32 * i + 32,
        ),
    ensures
        flatten_addrs(ts) == big.subrange(off, off + 32 * ts.len()),
    decreases ts.len(),
{
    if ts.len() == 0 {
        assert(flatten_addrs(ts) =~= big.subrange(off, off));
    } else {
        let rest = ts.drop_first();
        assert(ts[0] == big.subrange(off, off + 32));
        assert(forall|i: int| 0 <= i < rest.len() ==> rest[i] == ts[i + 1]);
        assert(forall|i: int|
            0 <= i < rest.len() ==> rest[i] == big.subrange(
                (off + 32) + 32 * i,
                (off + 32) + 32 * i + 32,
            ));
        lemma_flatten_of_subranges(rest, big, off + 32);
        assert(flatten_addrs(ts) =~= big.subrange(off, off + 32 * ts.len()));
    }
}

/// Appending one entry appends its bytes.
pub proof fn lemma_flatten_push(ts: Seq<Seq<u8>>, t: Seq<u8>)
    ensures
        flatten_addrs(ts.push(t)) == flatten_addrs(ts) + t,
    decreases ts.len(),
{
    if ts.len() == 0 {
        assert(ts.push(t).len() == 1);
        assert(ts.push(t)[0] == t);
        assert(ts.push(t).drop_first() =~~= Seq::<Seq<u8>>::empty());
        assert(flatten_addrs(ts.push(t)) == t + flatten_addrs(Seq::<Seq<u8>>::empty()));
        assert(flatten_addrs(Seq::<Seq<u8>>::empty()) =~= Seq::<u8>::empty());
        assert(flatten_addrs(ts) =~= Seq::<u8>::empty());
        assert(flatten_addrs(ts.push(t)) =~= flatten_addrs(ts) + t);
    } else {
        assert(ts.push(t)[0] == ts[0]);
        assert(ts.push(t).drop_first() =~~= ts.drop_first().push(t));
        lemma_flatten_push(ts.drop_first(), t);
        assert(flatten_addrs(ts.push(t)) == ts[0] + flatten_addrs(ts.drop_first().push(t)));
        assert(flatten_addrs(ts) == ts[0] + flatten_addrs(ts.drop_first()));
        assert(flatten_addrs(ts.push(t)) =~= flatten_addrs(ts) + t);
    }
}

/// The record type name `LotteryState`.
pub open spec fn lottery_state_name() -> Seq<u8> {
    seq![76u8, 111u8, 116u8, 116u8, 101u8, 114u8, 121u8, 83u8, 116u8, 97u8, 116u8, 101u8]
}

fn lottery_state_name_vec() -> (r: Vec<u8>)
    ensures
        r@ == lottery_state_name(),
{
    let r: Vec<u8> = vec![
        76u8, 111u8, 116u8, 116u8, 101u8, 114u8, 121u8, 83u8, 116u8, 97u8, 116u8, 101u8,
    ];
    assert(r@ =~= lottery_state_name());
    r
}

/// The payload of a `LotteryState` record: bump, the four addresses, the
/// sales window, the ticket counter and fee, the winner, the terminal
/// flag, and the full fixed-capacity ticket arena.
pub open spec fn lottery_record_bytes(l: LotteryState) -> Seq<u8> {
    seq![l.bump] + l.authority@ + l.escrow@ + l.switchboard_request@ + u64_le_bytes(l.open_slot)
        + u64_le_bytes(l.close_slot) + u32_le_bytes(l.num_tickets) + u64_le_bytes(l.entry_fee)
        + l.winner@ + seq![bool_byte(l.has_ended)] + flatten_addrs(l.tickets_view())
}

/// Whether raw record bytes have the shape of a well-formed
/// `LotteryState`: right length, right tag, a boolean byte that is 0 or 1,
/// a ticket counter within capacity, and a sales window in order.
pub open spec fn lottery_record_shape_ok(data: Seq<u8>) -> bool {
    &&& data.len() == 8358
    &&& data.take(8) == account_discriminator(lottery_state_name())
    &&& (data[165] == 0 || data[165] == 1)
    &&& u32_from_le(data.subrange(121, 125)) <= MAX_TICKETS as u32
    &&& u64_from_le(data.subrange(105, 113)) <= u64_from_le(data.subrange(113, 121))
}

impl LotteryState {
    /// Serializes the record: tag, then the packed payload.
    pub fn to_record_bytes(&self) -> (r: Vec<u8>)
        requires
            self.addrs_wf(),
            self.wf(),
        ensures
            r@ == account_discriminator(lottery_state_name()) + lottery_record_bytes(*self),
    {
        let name = lottery_state_name_vec();
        let mut r = get_account_discriminator(&name);
        r.push(self.bump);
        append_bytes(&mut r, &self.authority.bytes);
        append_bytes(&mut r, &self.escrow.bytes);
        append_bytes(&mut r, &self.switchboard_request.bytes);
        push_u64_le(&mut r, self.open_slot);
        push_u64_le(&mut r, self.close_slot);
        push_u32_le(&mut r, self.num_tickets);
        push_u64_le(&mut r, self.entry_fee);
        append_bytes(&mut r, &self.winner.bytes);
        r.push(if self.has_ended { 1u8 } else { 0u8 });
        let ghost head = r@;
        let mut i: usize = 0;
        let n = self.tickets.len();
        proof {
            assert(self.tickets_view().take(0) =~~= Seq::<Seq<u8>>::empty());
        }
        while i < n
            invariant
                i <= n,
                n == self.tickets@.len(),
                r@ == head + flatten_addrs(self.tickets_view().take(i as int)),
            decreases n - i,
        {
            append_bytes(&mut r, &self.tickets[i].bytes);
            proof {
                lemma_flatten_push(self.tickets_view().take(i as int), self.tickets_view()[i as int]);
                assert(self.tickets_view().take(i as int).push(self.tickets_view()[i as int])
                    =~~= self.tickets_view().take(i + 1));
            }
            i += 1;
        }
        proof {
            assert(self.tickets_view().take(n as int) =~~= self.tickets_view());
            assert(r@ =~= account_discriminator(lottery_state_name()) + lottery_record_bytes(
                *self,
            ));
        }
        r
    }

    /// Fetches a `LotteryState` from a raw record: validates owner and
    /// tag, reinterprets the fixed layout, and rejects bytes that violate
    /// the record's invariants, returning an independent copy.
    pub fn fetch(data: &Vec<u8>, owner: &Address, program_id: &Address) -> (r: Result<
        LotteryState,
        ValidationError,
    >)
        ensures
            r matches Ok(l) ==> l.wf() && l.addrs_wf() && owner@ == program_id@ && data@
                == account_discriminator(lottery_state_name()) + lottery_record_bytes(l),
            r matches Ok(l) ==> l.authority@ == data@.subrange(9, 41) && l.num_tickets
                == u32_from_le(data@.subrange(121, 125)) && forall|i: int|
                0 <= i < MAX_TICKETS ==> l.tickets_view()[i] == data@.subrange(
                    166 + 32 * i,
                    166 + 32 * i + 32,
                ),
            r is Ok <==> (owner@ == program_id@ && lottery_record_shape_ok(data@)),
    {
        let name = lottery_state_name_vec();
        let disc = get_account_discriminator(&name);
        let payload = match load_account(data, owner, program_id, &disc) {
            Ok(p) => p,
            Err(e) => {
                return Err(e);
            },
        };
        if payload.len() != 8350 {
            return Err(ValidationError::AccountParseError);
        }
        proof {
            assert(data@.len() == 8358);
            assert(forall|a: int, b: int|
                0 <= a <= b <= 8350 ==> payload@.subrange(a, b) =~= data@.subrange(
                    8 + a,
                    8 + b,
                ));
        }
        let bump = payload[0];
        let authority = read_address(&payload, 1);
        let escrow = read_address(&payload, 33);
        let switchboard_request = read_address(&payload, 65);
        let open_slot = read_u64_le(&payload, 97);
        let close_slot = read_u64_le(&payload, 105);
        let num_tickets = read_u32_le(&payload, 113);
        let entry_fee = read_u64_le(&payload, 117);
        let winner = read_address(&payload, 125);
        let flag = payload[157];
        proof {
            assert(payload@[157] == data@[165]);
        }
        if flag > 1 {
            return Err(ValidationError::AccountParseError);
        }
        let has_ended = flag == 1;
        if num_tickets > MAX_TICKETS as u32 {
            return Err(ValidationError::AccountParseError);
        }
        if open_slot > close_slot {
            return Err(ValidationError::AccountParseError);
        }
        let mut tickets: Vec<Address> = Vec::new();
        let mut i: usize = 0;
        while i < MAX_TICKETS
            invariant
                i <= MAX_TICKETS,
                tickets@.len() == i,
                payload@.len() == 8350,
                forall|j: int| 0 <= j < i ==> (#[trigger] tickets@[j]).wf(),
                forall|j: int| 0 <= j < i ==> (#[trigger] tickets@[j])@ == payload@.subrange(
                    158 + 32 * j,
                    158 + 32 * j + 32,
                ),
            decreases MAX_TICKETS - i,
        {
            let t = read_address(&payload, 158 + 32 * i);
            tickets.push(t);
            i += 1;
        }
        let l = LotteryState {
            bump,
            authority,
            escrow,
            switchboard_request,
            open_slot,
            close_slot,
            num_tickets,
            entry_fee,
            winner,
            has_ended,
            tickets,
        };
        proof {
            lemma_u64_from_le_round_trip(payload@.subrange(97, 105));
            lemma_u64_from_le_round_trip(payload@.subrange(105, 113));
            lemma_u32_from_le_round_trip(payload@.subrange(113, 117));
            lemma_u64_from_le_round_trip(payload@.subrange(117, 125));
            assert(forall|j: int|
                0 <= j < MAX_TICKETS ==> l.tickets_view()[j] == payload@.subrange(
                    158 + 32 * j,
                    158 + 32 * j + 32,
                ));
            lemma_flatten_of_subranges(l.tickets_view(), payload@, 158);
            assert(flatten_addrs(l.tickets_view()) == payload@.subrange(158, 8350));
            assert(payload@ =~= lottery_record_bytes(l));
            assert(data@ =~= data@.take(8) + data@.skip(8));
            assert(u32_from_le(data@.subrange(121, 125)) == l.num_tickets);
            assert(u64_from_le(data@.subrange(105, 113)) == l.open_slot);
            assert(u64_from_le(data@.subrange(113, 121)) == l.close_slot);
            assert(lottery_record_shape_ok(data@));
        }
        Ok(l)
    }
}

} // verus!
