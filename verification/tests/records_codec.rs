use sha2::Digest;
use simple_randomness::address::Address;
use simple_randomness::escrow::Escrow;
use simple_randomness::lottery::LotteryState;
use simple_randomness::params::ValidationError;
use simple_randomness::state::ProgramState;
use simple_randomness::user::UserState;

fn addr(n: u8) -> Address {
    Address::from_bytes(vec![n; 32]).unwrap()
}

#[test]
fn test_program_state_record_round_trip() {
    let owner = addr(9);
    let state = ProgramState::initialize(3, addr(1), addr(2));
    let record = state.to_record_bytes();
    assert_eq!(record.len(), 8 + 65);
    // The tag is the anchor account discriminator of the type name.
    let digest = sha2::Sha256::digest(b"account:ProgramState");
    assert_eq!(&record[..8], &digest[..8]);
    let back = ProgramState::fetch(&record, &owner, &owner).unwrap();
    assert_eq!(back.bump, 3);
    assert_eq!(back.authority.bytes, addr(1).bytes);
    assert_eq!(back.switchboard_function.bytes, addr(2).bytes);
}

#[test]
fn test_fetch_rejects_wrong_owner() {
    let state = ProgramState::initialize(3, addr(1), addr(2));
    let record = state.to_record_bytes();
    let r = ProgramState::fetch(&record, &addr(7), &addr(8));
    assert!(matches!(r, Err(ValidationError::OwnershipError)));
}

#[test]
fn test_fetch_rejects_short_record() {
    let owner = addr(9);
    let r = ProgramState::fetch(&vec![1, 2, 3], &owner, &owner);
    assert!(matches!(r, Err(ValidationError::AccountParseError)));
}

#[test]
fn test_fetch_rejects_wrong_discriminator() {
    let owner = addr(9);
    let state = ProgramState::initialize(3, addr(1), addr(2));
    let mut record = state.to_record_bytes();
    record[0] ^= 0xff;
    let r = ProgramState::fetch(&record, &owner, &owner);
    assert!(matches!(r, Err(ValidationError::DiscriminatorMismatch)));
}

#[test]
fn test_user_state_record_round_trip() {
    let owner = addr(9);
    let (mut user, mut request) = UserState::create_user(7, addr(1), addr(4), &addr(9), &addr(5));
    user.guess(6, 1234, &mut request).unwrap();
    user.settle(6, -5, &addr(5)).unwrap();
    // A negative timestamp exercises the signed byte codec.
    let record = user.to_record_bytes();
    assert_eq!(record.len(), 8 + 89);
    let back = UserState::fetch(&record, &owner, &owner).unwrap();
    assert_eq!(back.bump, 7);
    assert_eq!(back.authority.bytes, addr(1).bytes);
    assert_eq!(back.switchboard_request.bytes, addr(4).bytes);
    assert_eq!(back.guess, 6);
    assert_eq!(back.result, 6);
    assert_eq!(back.request_timestamp, 1234);
    assert_eq!(back.settled_timestamp, -5);
}

#[test]
fn test_lottery_record_round_trip() {
    let (mut lottery, _request) = LotteryState::create_lottery(
        11,
        addr(1),
        &addr(2),
        addr(3),
        addr(4),
        &addr(9),
        500,
        None,
        42,
    );
    let mut escrow = Escrow::new();
    let mut balance = 1_000u64;
    lottery.buy_ticket(&addr(2), &addr(21), &mut balance, &mut escrow, 50).unwrap();
    lottery.buy_ticket(&addr(2), &addr(22), &mut balance, &mut escrow, 50).unwrap();
    let record = lottery.to_record_bytes();
    assert_eq!(record.len(), 8 + 8350);
    let digest = sha2::Sha256::digest(b"account:LotteryState");
    assert_eq!(&record[..8], &digest[..8]);
    let owner = addr(9);
    let back = LotteryState::fetch(&record, &owner, &owner).unwrap();
    assert_eq!(back.bump, 11);
    assert_eq!(back.open_slot, 42);
    // The default duration applies when none is given.
    assert_eq!(back.close_slot, 42 + 9000);
    assert_eq!(back.num_tickets, 2);
    assert_eq!(back.entry_fee, 500);
    assert!(!back.has_ended);
    assert_eq!(back.tickets[0].bytes, addr(21).bytes);
    assert_eq!(back.tickets[1].bytes, addr(22).bytes);
    assert_eq!(back.tickets[2].bytes, vec![0u8; 32]);
}

#[test]
fn test_lottery_fetch_rejects_malformed_fields() {
    let (lottery, _request) = LotteryState::create_lottery(
        11,
        addr(1),
        &addr(2),
        addr(3),
        addr(4),
        &addr(9),
        500,
        Some(100),
        0,
    );
    let owner = addr(9);
    let record = lottery.to_record_bytes();

    // A flag byte that is neither 0 nor 1.
    let mut bad = record.clone();
    bad[165] = 2;
    assert!(matches!(
        LotteryState::fetch(&bad, &owner, &owner),
        Err(ValidationError::AccountParseError)
    ));

    // A ticket counter past the fixed capacity.
    let mut bad = record.clone();
    bad[121] = 0xff;
    bad[122] = 0xff;
    assert!(matches!(
        LotteryState::fetch(&bad, &owner, &owner),
        Err(ValidationError::AccountParseError)
    ));

    // A record cut short.
    let mut bad = record.clone();
    bad.truncate(100);
    assert!(matches!(
        LotteryState::fetch(&bad, &owner, &owner),
        Err(ValidationError::AccountParseError)
    ));
}

#[test]
fn test_load_account_passes_payload_through() {
    let owner = addr(9);
    let state = ProgramState::initialize(3, addr(1), addr(2));
    let record = state.to_record_bytes();
    let disc = record[..8].to_vec();
    let payload =
        simple_randomness::records::load_account(&record, &owner, &owner, &disc).unwrap();
    assert_eq!(payload, record[8..].to_vec());
}

#[test]
fn test_program_state_binds_provider() {
    let state = ProgramState::initialize(3, addr(1), addr(2));
    assert!(state.is_bound_provider(&addr(2)));
    assert!(!state.is_bound_provider(&addr(3)));
}
