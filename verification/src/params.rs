//! Container parameters: the decoded view of the `KEY=VALUE` wire text that
//! controls one off-ledger task invocation. The lottery variant carries
//! `{PID, LOTTERY}`; the guess variant carries
//! `{PID, MIN_RESULT, MAX_RESULT, USER}`. Unknown keys are ignored, the
//! last occurrence of a duplicate key wins, and a missing or unparseable
//! required value fails the decode.

use vstd::prelude::*;
use crate::address::{Address, zero_address};
use crate::base58::{base58_of, base58_decode, base58_encode, is_base58_byte};
use crate::decimal::{all_dec_digits, dec_value, dec_repr, parse_u32, u32_to_dec};
use crate::kv::{COMMA, EQUALS, wire_lookup, split_on, lookup, key_value, lookup_value,
    append_bytes, lemma_split_no_sep, lemma_split_sep_head, lemma_key_value_at};
use crate::{MIN_RESULT, MAX_RESULT};

verus! {

/// Why a decode or record validation failed. Decode failures are fatal to
/// the task invocation and never retried.
#[derive(PartialEq, Eq, Structural, Clone, Copy, Debug)]
pub enum ValidationError {
    /// No `PID` pair decodes to a defined 32-byte address.
    MissingProgramId,
    /// No `LOTTERY` pair decodes to a defined 32-byte address.
    MissingLotteryKey,
    /// No `USER` pair decodes to a defined 32-byte address.
    MissingUser,
    /// No `MIN_RESULT` pair holds an unsigned 32-bit number.
    MissingMinResult,
    /// No `MAX_RESULT` pair holds an unsigned 32-bit number.
    MissingMaxResult,
    /// The record is too short to hold its discriminator, has the wrong
    /// length for its layout, or holds a malformed field.
    AccountParseError,
    /// The record's leading tag differs from the expected one.
    DiscriminatorMismatch,
    /// The record is owned by a different program than expected.
    OwnershipError,
}

/// The key `PID`.
pub open spec fn pid_key() -> Seq<u8> {
    seq![80u8, 73u8, 68u8]
}

/// The key `LOTTERY`.
pub open spec fn lottery_key_name() -> Seq<u8> {
    seq![76u8, 79u8, 84u8, 84u8, 69u8, 82u8, 89u8]
}

/// The key `USER`.
pub open spec fn user_key_name() -> Seq<u8> {
    seq![85u8, 83u8, 69u8, 82u8]
}

/// The key `MIN_RESULT`.
pub open spec fn min_result_key() -> Seq<u8> {
    seq![77u8, 73u8, 78u8, 95u8, 82u8, 69u8, 83u8, 85u8, 76u8, 84u8]
}

/// The key `MAX_RESULT`.
pub open spec fn max_result_key() -> Seq<u8> {
    seq![77u8, 65u8, 88u8, 95u8, 82u8, 69u8, 83u8, 85u8, 76u8, 84u8]
}

fn pid_key_vec() -> (r: Vec<u8>)
    ensures
        r@ == pid_key(),
{
    let r: Vec<u8> = vec![80u8, 73u8, 68u8];
    assert(r@ =~= pid_key());
    r
}

fn lottery_key_vec() -> (r: Vec<u8>)
    ensures
        r@ == lottery_key_name(),
{
    let r: Vec<u8> = vec![76u8, 79u8, 84u8, 84u8, 69u8, 82u8, 89u8];
    assert(r@ =~= lottery_key_name());
    r
}

fn user_key_vec() -> (r: Vec<u8>)
    ensures
        r@ == user_key_name(),
{
    let r: Vec<u8> = vec![85u8, 83u8, 69u8, 82u8];
    assert(r@ =~= user_key_name());
    r
}

fn min_result_key_vec() -> (r: Vec<u8>)
    ensures
        r@ == min_result_key(),
{
    let r: Vec<u8> = vec![77u8, 73u8, 78u8, 95u8, 82u8, 69u8, 83u8, 85u8, 76u8, 84u8];
    assert(r@ =~= min_result_key());
    r
}

fn max_result_key_vec() -> (r: Vec<u8>)
    ensures
        r@ == max_result_key(),
{
    let r: Vec<u8> = vec![77u8, 65u8, 88u8, 95u8, 82u8, 69u8, 83u8, 85u8, 76u8, 84u8];
    assert(r@ =~= max_result_key());
    r
}

/// Whether the wire text binds `key` to the base58 rendering of the
/// defined (non-zero) 32-byte address `a`.
pub open spec fn has_addr_value(s: Seq<u8>, key: Seq<u8>, a: Seq<u8>) -> bool {
    a.len() == 32 && a != zero_address() && wire_lookup(s, key) == Some(base58_of(a))
}

/// The unsigned 32-bit number the wire text binds `key` to, if any.
pub open spec fn num_value(s: Seq<u8>, key: Seq<u8>) -> Option<u32> {
    match wire_lookup(s, key) {
        Some(v) => if v.len() > 0 && all_dec_digits(v) && dec_value(v) <= u32::MAX {
            Some(dec_value(v) as u32)
        } else {
            None
        },
        None => None,
    }
}

/// Parses a base58 value as a defined address: exactly 32 bytes once
/// decoded, and not the all-zero "undefined" address.
pub fn parse_address(v: &Vec<u8>) -> (r: Option<Address>)
    ensures
        r matches Some(a) ==> a.wf() && a@ != zero_address() && v@ == base58_of(a@),
        r matches Some(a) ==> forall|b: Seq<u8>| v@ == base58_of(b) ==> a@ == b,
        r is None ==> forall|b: Seq<u8>|
            b.len() == 32 && b != zero_address() ==> v@ != base58_of(b),
{
    match base58_decode(v) {
        Some(bytes) => {
            match Address::from_bytes(bytes) {
                Some(a) => {
                    if a.is_zero() {
                        assert forall|b: Seq<u8>|
                            b.len() == 32 && b != zero_address() implies v@ != base58_of(b) by {
                            if v@ == base58_of(b) {
                                assert(a@ == b);
                            }
                        }
                        None
                    } else {
                        Some(a)
                    }
                },
                None => {
                    assert forall|b: Seq<u8>|
                        b.len() == 32 && b != zero_address() implies v@ != base58_of(b) by {
                        if v@ == base58_of(b) {
                            assert(b.len() != 32);
                        }
                    }
                    None
                },
            }
        },
        None => None,
    }
}

/// The decoded view of a lottery task invocation: the program to settle
/// against and the lottery record to read.
pub struct ContainerParams {
    pub program_id: Address,
    pub lottery_key: Address,
}

impl ContainerParams {
    /// Decodes `PID` and `LOTTERY` from the wire text. Each required key
    /// must decode, through base58, to a defined 32-byte address; `PID` is
    /// checked first.
    pub fn decode(container_params: &Vec<u8>) -> (r: Result<ContainerParams, ValidationError>)
        ensures
            r matches Ok(p) ==> p.program_id.wf() && p.lottery_key.wf() && has_addr_value(
                container_params@,
                pid_key(),
                p.program_id@,
            ) && has_addr_value(container_params@, lottery_key_name(), p.lottery_key@),
            r matches Ok(p) ==> forall|b: Seq<u8>|
                has_addr_value(container_params@, pid_key(), b) ==> p.program_id@ == b,
            r matches Ok(p) ==> forall|b: Seq<u8>|
                has_addr_value(container_params@, lottery_key_name(), b) ==> p.lottery_key@
                    == b,
            r == Err::<ContainerParams, ValidationError>(ValidationError::MissingProgramId)
                <==> !(exists|b: Seq<u8>| has_addr_value(container_params@, pid_key(), b)),
            r == Err::<ContainerParams, ValidationError>(ValidationError::MissingLotteryKey)
                <==> ((exists|b: Seq<u8>| has_addr_value(container_params@, pid_key(), b))
                && !(exists|b: Seq<u8>|
                has_addr_value(container_params@, lottery_key_name(), b))),
            r is Ok <==> ((exists|b: Seq<u8>| has_addr_value(container_params@, pid_key(), b))
                && (exists|b: Seq<u8>|
            has_addr_value(container_params@, lottery_key_name(), b))),
    {
        let program_id = match Self::addr_for_key(container_params, pid_key_vec()) {
            Some(a) => a,
            None => {
                return Err(ValidationError::MissingProgramId);
            },
        };
        let lottery_key = match Self::addr_for_key(container_params, lottery_key_vec()) {
            Some(a) => a,
            None => {
                return Err(ValidationError::MissingLotteryKey);
            },
        };
        Ok(ContainerParams { program_id, lottery_key })
    }

    /// The defined address bound to `key`, if the wire text binds one.
    fn addr_for_key(s: &Vec<u8>, key: Vec<u8>) -> (r: Option<Address>)
        ensures
            r matches Some(a) ==> a.wf() && has_addr_value(s@, key@, a@),
            r matches Some(a) ==> forall|b: Seq<u8>| has_addr_value(s@, key@, b) ==> a@ == b,
            r is None ==> !(exists|b: Seq<u8>| has_addr_value(s@, key@, b)),
    {
        match lookup_value(s, &key) {
            Some(v) => {
                match parse_address(&v) {
                    Some(a) => Some(a),
                    None => {
                        assert forall|b: Seq<u8>| !has_addr_value(s@, key@, b) by {
                            if has_addr_value(s@, key@, b) {
                                assert(v@ == base58_of(b));
                            }
                        }
                        None
                    },
                }
            },
            None => None,
        }
    }
}

/// The decoded view of a guess task invocation: the program to settle
/// against, the inclusive-exclusive result bounds, and the user record.
pub struct GuessContainerParams {
    pub program_id: Address,
    pub min_result: u32,
    pub max_result: u32,
    pub user_key: Address,
}

impl GuessContainerParams {
    /// Decodes `PID`, `MIN_RESULT`, `MAX_RESULT` and `USER` from the wire
    /// text, in that order of checking.
    pub fn decode(container_params: &Vec<u8>) -> (r: Result<
        GuessContainerParams,
        ValidationError,
    >)
        ensures
            r matches Ok(p) ==> p.program_id.wf() && p.user_key.wf() && has_addr_value(
                container_params@,
                pid_key(),
                p.program_id@,
            ) && has_addr_value(container_params@, user_key_name(), p.user_key@) && num_value(
                container_params@,
                min_result_key(),
            ) == Some(p.min_result) && num_value(container_params@, max_result_key()) == Some(
                p.max_result,
            ),
            r matches Ok(p) ==> forall|b: Seq<u8>|
                has_addr_value(container_params@, pid_key(), b) ==> p.program_id@ == b,
            r matches Ok(p) ==> forall|b: Seq<u8>|
                has_addr_value(container_params@, user_key_name(), b) ==> p.user_key@ == b,
            r is Ok <==> ((exists|b: Seq<u8>| has_addr_value(container_params@, pid_key(), b))
                && num_value(container_params@, min_result_key()) is Some && num_value(
                container_params@,
                max_result_key(),
            ) is Some && (exists|b: Seq<u8>|
            has_addr_value(container_params@, user_key_name(), b))),
            r == Err::<GuessContainerParams, ValidationError>(ValidationError::MissingProgramId)
                <==> !(exists|b: Seq<u8>| has_addr_value(container_params@, pid_key(), b)),
            r == Err::<GuessContainerParams, ValidationError>(ValidationError::MissingMinResult)
                <==> ((exists|b: Seq<u8>| has_addr_value(container_params@, pid_key(), b))
                && num_value(container_params@, min_result_key()) is None),
            r == Err::<GuessContainerParams, ValidationError>(ValidationError::MissingMaxResult)
                <==> ((exists|b: Seq<u8>| has_addr_value(container_params@, pid_key(), b))
                && num_value(container_params@, min_result_key()) is Some && num_value(
                container_params@,
                max_result_key(),
            ) is None),
            r == Err::<GuessContainerParams, ValidationError>(ValidationError::MissingUser)
                <==> ((exists|b: Seq<u8>| has_addr_value(container_params@, pid_key(), b))
                && num_value(container_params@, min_result_key()) is Some && num_value(
                container_params@,
                max_result_key(),
            ) is Some && !(exists|b: Seq<u8>|
            has_addr_value(container_params@, user_key_name(), b))),
    {
        let program_id = match ContainerParams::addr_for_key(container_params, pid_key_vec()) {
            Some(a) => a,
            None => {
                return Err(ValidationError::MissingProgramId);
            },
        };
        let min_result = match Self::num_for_key(container_params, min_result_key_vec()) {
            Some(n) => n,
            None => {
                return Err(ValidationError::MissingMinResult);
            },
        };
        let max_result = match Self::num_for_key(container_params, max_result_key_vec()) {
            Some(n) => n,
            None => {
                return Err(ValidationError::MissingMaxResult);
            },
        };
        let user_key = match ContainerParams::addr_for_key(container_params, user_key_vec()) {
            Some(a) => a,
            None => {
                return Err(ValidationError::MissingUser);
            },
        };
        Ok(GuessContainerParams { program_id, min_result, max_result, user_key })
    }

    /// The number bound to `key`, if the wire text binds one.
    fn num_for_key(s: &Vec<u8>, key: Vec<u8>) -> (r: Option<u32>)
        ensures
            r == num_value(s@, key@),
    {
        match lookup_value(s, &key) {
            Some(v) => parse_u32(&v),
            None => None,
        }
    }
}

/// The wire text `PID=<pid>,LOTTERY=<lottery>` over already-rendered
/// values.
pub open spec fn lottery_params_wire(pid_enc: Seq<u8>, lottery_enc: Seq<u8>) -> Seq<u8> {
    pid_key() + seq![EQUALS] + pid_enc + seq![COMMA] + lottery_key_name() + seq![EQUALS]
        + lottery_enc
}

/// Whether a byte can appear in a pair value without being mistaken for a
/// separator.
pub open spec fn is_sep_free(s: Seq<u8>) -> bool {
    forall|i: int| 0 <= i < s.len() ==> s[i] != COMMA && s[i] != EQUALS
}

/// Round trip of the lottery wire format: a text built from any
/// separator-free renderings of the two values binds `PID` back to exactly
/// the first and `LOTTERY` back to exactly the second, whatever other
/// bytes the renderings hold.
pub proof fn lemma_lottery_params_round_trip(pid_enc: Seq<u8>, lottery_enc: Seq<u8>)
    requires
        is_sep_free(pid_enc),
        is_sep_free(lottery_enc),
    ensures
        wire_lookup(lottery_params_wire(pid_enc, lottery_enc), pid_key()) == Some(pid_enc),
        wire_lookup(lottery_params_wire(pid_enc, lottery_enc), lottery_key_name()) == Some(
            lottery_enc,
        ),
{
    let w = lottery_params_wire(pid_enc, lottery_enc);
    let a = pid_key() + seq![EQUALS] + pid_enc;
    let b = lottery_key_name() + seq![EQUALS] + lottery_enc;
    assert(w =~= a + seq![COMMA] + b);
    assert(forall|i: int| 0 <= i < a.len() ==> a[i] != COMMA);
    assert(forall|i: int| 0 <= i < b.len() ==> b[i] != COMMA);
    lemma_split_sep_head(a, COMMA, b);
    lemma_split_no_sep(b, COMMA);
    let parts = split_on(w, COMMA);
    assert(parts =~~= seq![a, b]);
    assert(a[3] == EQUALS);
    assert(forall|i: int| 0 <= i < 3 ==> a[i] != EQUALS);
    lemma_key_value_at(a, 3);
    assert(a.take(3) =~= pid_key());
    assert(a.skip(4) =~= pid_enc);
    assert(b[7] == EQUALS);
    assert(forall|i: int| 0 <= i < 7 ==> b[i] != EQUALS);
    lemma_key_value_at(b, 7);
    assert(b.take(7) =~= lottery_key_name());
    assert(b.skip(8) =~= lottery_enc);
    assert(lottery_key_name().len() != pid_key().len());
    assert(lottery_key_name() != pid_key());
    assert(key_value(a) == Some((pid_key(), pid_enc)));
    assert(key_value(b) == Some((lottery_key_name(), lottery_enc)));
    assert(parts.last() == b);
    assert(parts.drop_last() =~~= seq![a]);
    assert(seq![a].last() == a);
    assert(lookup(seq![a], pid_key()) == Some(pid_enc));
    assert(lookup(parts, pid_key()) == lookup(parts.drop_last(), pid_key()));
    assert(lookup(parts, pid_key()) == Some(pid_enc));
    assert(lookup(parts, lottery_key_name()) == Some(lottery_enc));
}

/// The wire text `PID=<pid>,MIN_RESULT=<min>,MAX_RESULT=<max>,USER=<user>`
/// over an already-rendered program id and user key, with the fixed result
/// bounds of the guessing game.
pub open spec fn guess_params_wire(pid_enc: Seq<u8>, user_enc: Seq<u8>) -> Seq<u8> {
    pid_key() + seq![EQUALS] + pid_enc + seq![COMMA] + min_result_key() + seq![EQUALS]
        + dec_repr(MIN_RESULT as int) + seq![COMMA] + max_result_key() + seq![EQUALS] + dec_repr(
        MAX_RESULT as int,
    ) + seq![COMMA] + user_key_name() + seq![EQUALS] + user_enc
}

/// Round trip of the guess wire format: a text built from any
/// separator-free renderings binds each of the four required keys back to
/// exactly the value it was built from.
pub proof fn lemma_guess_params_round_trip(pid_enc: Seq<u8>, user_enc: Seq<u8>)
    requires
        is_sep_free(pid_enc),
        is_sep_free(user_enc),
    ensures
        wire_lookup(guess_params_wire(pid_enc, user_enc), pid_key()) == Some(pid_enc),
        wire_lookup(guess_params_wire(pid_enc, user_enc), min_result_key()) == Some(
            dec_repr(MIN_RESULT as int),
        ),
        wire_lookup(guess_params_wire(pid_enc, user_enc), max_result_key()) == Some(
            dec_repr(MAX_RESULT as int),
        ),
        wire_lookup(guess_params_wire(pid_enc, user_enc), user_key_name()) == Some(user_enc),
{
    let w = guess_params_wire(pid_enc, user_enc);
    let min_repr = dec_repr(MIN_RESULT as int);
    let max_repr = dec_repr(MAX_RESULT as int);
    assert(min_repr =~= seq![49u8]);
    assert(max_repr =~= seq![49u8, 48u8]);
    let p1 = pid_key() + seq![EQUALS] + pid_enc;
    let p2 = min_result_key() + seq![EQUALS] + min_repr;
    let p3 = max_result_key() + seq![EQUALS] + max_repr;
    let p4 = user_key_name() + seq![EQUALS] + user_enc;
    let rest2 = p2 + seq![COMMA] + p3 + seq![COMMA] + p4;
    let rest3 = p3 + seq![COMMA] + p4;
    assert(w =~= p1 + seq![COMMA] + rest2);
    assert(rest2 =~= p2 + seq![COMMA] + rest3);
    assert(forall|i: int| 0 <= i < p1.len() ==> p1[i] != COMMA);
    assert(forall|i: int| 0 <= i < p2.len() ==> p2[i] != COMMA);
    assert(forall|i: int| 0 <= i < p3.len() ==> p3[i] != COMMA);
    assert(forall|i: int| 0 <= i < p4.len() ==> p4[i] != COMMA);
    lemma_split_sep_head(p1, COMMA, rest2);
    lemma_split_sep_head(p2, COMMA, rest3);
    lemma_split_sep_head(p3, COMMA, p4);
    lemma_split_no_sep(p4, COMMA);
    let parts = split_on(w, COMMA);
    assert(parts =~~= seq![p1, p2, p3, p4]);
    assert(p1[3] == EQUALS && forall|i: int| 0 <= i < 3 ==> p1[i] != EQUALS);
    lemma_key_value_at(p1, 3);
    assert(p1.take(3) =~= pid_key());
    assert(p1.skip(4) =~= pid_enc);
    assert(p2[10] == EQUALS && forall|i: int| 0 <= i < 10 ==> p2[i] != EQUALS);
    lemma_key_value_at(p2, 10);
    assert(p2.take(10) =~= min_result_key());
    assert(p2.skip(11) =~= min_repr);
    assert(p3[10] == EQUALS && forall|i: int| 0 <= i < 10 ==> p3[i] != EQUALS);
    lemma_key_value_at(p3, 10);
    assert(p3.take(10) =~= max_result_key());
    assert(p3.skip(11) =~= max_repr);
    assert(p4[4] == EQUALS && forall|i: int| 0 <= i < 4 ==> p4[i] != EQUALS);
    lemma_key_value_at(p4, 4);
    assert(p4.take(4) =~= user_key_name());
    assert(p4.skip(5) =~= user_enc);
    assert(key_value(p1) == Some((pid_key(), pid_enc)));
    assert(key_value(p2) == Some((min_result_key(), min_repr)));
    assert(key_value(p3) == Some((max_result_key(), max_repr)));
    assert(key_value(p4) == Some((user_key_name(), user_enc)));
    // The four keys are pairwise distinct: different lengths, except the
    // two bounds, which differ in their second byte.
    assert(min_result_key()[1] != max_result_key()[1]);
    assert(min_result_key() != max_result_key());
    let parts3 = seq![p1, p2, p3];
    let parts2 = seq![p1, p2];
    let parts1 = seq![p1];
    assert(parts.last() == p4);
    assert(parts.drop_last() =~~= parts3);
    assert(parts3.last() == p3);
    assert(parts3.drop_last() =~~= parts2);
    assert(parts2.last() == p2);
    assert(parts2.drop_last() =~~= parts1);
    assert(parts1.last() == p1);
    assert(lookup(parts1, pid_key()) == Some(pid_enc));
    assert(lookup(parts2, pid_key()) == Some(pid_enc));
    assert(lookup(parts3, pid_key()) == Some(pid_enc));
    assert(lookup(parts, pid_key()) == Some(pid_enc));
    assert(lookup(parts2, min_result_key()) == Some(min_repr));
    assert(lookup(parts3, min_result_key()) == Some(min_repr));
    assert(lookup(parts, min_result_key()) == Some(min_repr));
    assert(lookup(parts3, max_result_key()) == Some(max_repr));
    assert(lookup(parts, max_result_key()) == Some(max_repr));
    assert(lookup(parts, user_key_name()) == Some(user_enc));
}

/// Builds the wire text `PID=<pid>,MIN_RESULT=<min>,MAX_RESULT=<max>,
/// USER=<user>` with the addresses rendered in base58 and the fixed result
/// bounds in decimal, so that decoding finds exactly these values.
pub fn encode_guess_params(program_id: &Address, user_key: &Address) -> (r: Vec<u8>)
    requires
        program_id.wf(),
        user_key.wf(),
    ensures
        r@ == guess_params_wire(base58_of(program_id@), base58_of(user_key@)),
        wire_lookup(r@, pid_key()) == Some(base58_of(program_id@)),
        wire_lookup(r@, min_result_key()) == Some(dec_repr(MIN_RESULT as int)),
        wire_lookup(r@, max_result_key()) == Some(dec_repr(MAX_RESULT as int)),
        wire_lookup(r@, user_key_name()) == Some(base58_of(user_key@)),
        r@.len() <= 134,
{
    let pid_enc = base58_encode(&program_id.bytes);
    let user_enc = base58_encode(&user_key.bytes);
    proof {
        assert(is_sep_free(pid_enc@));
        assert(is_sep_free(user_enc@));
        lemma_guess_params_round_trip(pid_enc@, user_enc@);
        assert(dec_repr(1int) =~= seq![49u8]);
        assert(dec_repr(10int) =~= seq![49u8, 48u8]);
    }
    let mut r = pid_key_vec();
    r.push(EQUALS);
    append_bytes(&mut r, &pid_enc);
    r.push(COMMA);
    let min_key = min_result_key_vec();
    append_bytes(&mut r, &min_key);
    r.push(EQUALS);
    let min_dec = u32_to_dec(MIN_RESULT);
    append_bytes(&mut r, &min_dec);
    r.push(COMMA);
    let max_key = max_result_key_vec();
    append_bytes(&mut r, &max_key);
    r.push(EQUALS);
    let max_dec = u32_to_dec(MAX_RESULT);
    append_bytes(&mut r, &max_dec);
    r.push(COMMA);
    let user_k = user_key_vec();
    append_bytes(&mut r, &user_k);
    r.push(EQUALS);
    append_bytes(&mut r, &user_enc);
    assert(r@ =~= guess_params_wire(base58_of(program_id@), base58_of(user_key@)));
    r
}

/// Builds the wire text `PID=<pid>,LOTTERY=<lottery>` with both addresses
/// rendered in base58, so that decoding finds exactly these two values.
pub fn encode_lottery_params(program_id: &Address, lottery: &Address) -> (r: Vec<u8>)
    requires
        program_id.wf(),
        lottery.wf(),
    ensures
        r@ == lottery_params_wire(base58_of(program_id@), base58_of(lottery@)),
        wire_lookup(r@, pid_key()) == Some(base58_of(program_id@)),
        wire_lookup(r@, lottery_key_name()) == Some(base58_of(lottery@)),
        r@.len() <= 109,
{
    let pid_enc = base58_encode(&program_id.bytes);
    let lottery_enc = base58_encode(&lottery.bytes);
    proof {
        assert(is_sep_free(pid_enc@));
        assert(is_sep_free(lottery_enc@));
        lemma_lottery_params_round_trip(pid_enc@, lottery_enc@);
    }
    let mut r = pid_key_vec();
    r.push(EQUALS);
    let mut i: usize = 0;
    let n1 = pid_enc.len();
    while i < n1
        invariant
            i <= n1,
            n1 == pid_enc@.len(),
            r@ == pid_key() + seq![EQUALS] + pid_enc@.take(i as int),
        decreases n1 - i,
    {
        r.push(pid_enc[i]);
        assert(r@ =~= pid_key() + seq![EQUALS] + pid_enc@.take(i + 1));
        i += 1;
    }
    assert(r@ =~= pid_key() + seq![EQUALS] + pid_enc@);
    r.push(COMMA);
    let lk = lottery_key_vec();
    let mut j: usize = 0;
    while j < 7
        invariant
            j <= 7,
            lk@ == lottery_key_name(),
            r@ == pid_key() + seq![EQUALS] + pid_enc@ + seq![COMMA] + lottery_key_name().take(
                j as int,
            ),
        decreases 7 - j,
    {
        r.push(lk[j]);
        assert(r@ =~= pid_key() + seq![EQUALS] + pid_enc@ + seq![COMMA]
            + lottery_key_name().take(j + 1));
        j += 1;
    }
    assert(r@ =~= pid_key() + seq![EQUALS] + pid_enc@ + seq![COMMA] + lottery_key_name());
    r.push(EQUALS);
    let mut m: usize = 0;
    let n2 = lottery_enc.len();
    while m < n2
        invariant
            m <= n2,
            n2 == lottery_enc@.len(),
            r@ == pid_key() + seq![EQUALS] + pid_enc@ + seq![COMMA] + lottery_key_name() + seq![
                EQUALS,
            ] + lottery_enc@.take(m as int),
        decreases n2 - m,
    {
        r.push(lottery_enc[m]);
        assert(r@ =~= pid_key() + seq![EQUALS] + pid_enc@ + seq![COMMA] + lottery_key_name()
            + seq![EQUALS] + lottery_enc@.take(m + 1));
        m += 1;
    }
    assert(r@ =~= lottery_params_wire(base58_of(program_id@), base58_of(lottery@)));
    r
}

} // verus!
