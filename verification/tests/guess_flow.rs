use sha2::Digest;
use simple_randomness::address::Address;
use simple_randomness::guard::check_timeout_guard;
use simple_randomness::params::encode_guess_params;
use simple_randomness::task::{build_settle_ixn_data, sb_function, SbError};
use simple_randomness::user::{SimpleRandomnessError, UserState};
use simple_randomness::REQUEST_TIMEOUT;

fn addr(n: u8) -> Address {
    Address::from_bytes(vec![n; 32]).unwrap()
}

#[test]
fn test_timeout_guard_decision() {
    // A pending request younger than the interval blocks a new one.
    assert!(!check_timeout_guard(100, 0, 130, REQUEST_TIMEOUT));
    // Once the interval has elapsed the guard accepts.
    assert!(check_timeout_guard(100, 0, 160, REQUEST_TIMEOUT));
    // Monotonic in elapsed time: accepted once, accepted later too.
    assert!(check_timeout_guard(100, 0, 161, REQUEST_TIMEOUT));
    assert!(check_timeout_guard(100, 0, 100_000, REQUEST_TIMEOUT));
    // A settled request never blocks.
    assert!(check_timeout_guard(100, 120, 101, REQUEST_TIMEOUT));
    // No request outstanding: accepted.
    assert!(check_timeout_guard(0, 0, 0, REQUEST_TIMEOUT));
}

#[test]
fn test_guess_settle_flow() {
    let program_id = addr(9);
    let user_key = addr(5);
    let (mut user, mut request) = UserState::create_user(7, addr(1), addr(4), &program_id, &user_key);
    assert_eq!(user.request_timestamp, 0);
    // The request's payload fits under its fixed cap.
    assert_eq!(request.max_params_len, 512);
    assert!(request.container_params.len() <= 512);

    // First guess goes through and stamps the request time.
    user.guess(3, 1000, &mut request).unwrap();
    assert_eq!(user.guess, 3);
    assert_eq!(user.request_timestamp, 1000);
    assert_eq!(user.settled_timestamp, 0);

    // A re-guess while the first is young and unsettled is rejected.
    let r = user.guess(4, 1030, &mut request);
    assert_eq!(r.unwrap_err(), SimpleRandomnessError::RequestNotReady);
    assert_eq!(user.guess, 3);

    // Once the timeout has elapsed the re-guess is accepted.
    user.guess(4, 1000 + REQUEST_TIMEOUT, &mut request).unwrap();
    assert_eq!(user.guess, 4);

    // Settlement records the result and whether the user won.
    let ev = user.settle(4, 2000, &user_key).unwrap();
    assert!(ev.user_won);
    assert_eq!(ev.result, 4);
    assert_eq!(user.settled_timestamp, 2000);

    // A second settlement of the same guess is rejected.
    let r = user.settle(5, 2001, &user_key);
    assert_eq!(r.unwrap_err(), SimpleRandomnessError::RequestAlreadySettled);

    // After settlement a new guess is allowed at once.
    user.guess(9, 2002, &mut request).unwrap();
    let ev = user.settle(5, 2100, &user_key).unwrap();
    assert!(!ev.user_won);

    // Closing drains the request escrow and is terminal.
    let drained = user.close(&mut request).unwrap();
    assert_eq!(drained, 0);
}

#[test]
fn test_settle_rejects_out_of_bounds_result() {
    let (mut user, mut request) = UserState::create_user(7, addr(1), addr(4), &addr(9), &addr(5));
    user.guess(3, 1000, &mut request).unwrap();
    // The accepted range is [1, 10): 0 and 10 are both out.
    let r = user.settle(0, 2000, &addr(5));
    assert_eq!(r.unwrap_err(), SimpleRandomnessError::RandomResultOutOfBounds);
    let r = user.settle(10, 2000, &addr(5));
    assert_eq!(r.unwrap_err(), SimpleRandomnessError::RandomResultOutOfBounds);
    assert_eq!(user.settled_timestamp, 0);
    let r = user.settle(9, 2000, &addr(5));
    assert!(r.is_ok());
}

#[test]
fn test_settlement_layout() {
    // opcode "settle", result 7 => discriminator("settle") ++ [07,00,00,00]
    let data = build_settle_ixn_data(7);
    let digest = sha2::Sha256::digest(b"global:settle");
    assert_eq!(data.len(), 12);
    assert_eq!(&data[..8], &digest[..8]);
    assert_eq!(&data[8..], &[7u8, 0, 0, 0]);
}

#[test]
fn test_draw_winner_layout() {
    let winner = addr(6);
    let data = simple_randomness::task::build_draw_winner_ixn_data(&winner);
    let digest = sha2::Sha256::digest(b"global:draw_winner");
    assert_eq!(data.len(), 40);
    assert_eq!(&data[..8], &digest[..8]);
    assert_eq!(&data[8..], winner.bytes.as_slice());
}

#[test]
fn test_sb_function_emits_settlement() {
    let program_id = addr(9);
    let user_key = addr(5);
    let params = encode_guess_params(&program_id, &user_key);
    let ix = sb_function(&params, 42).unwrap();
    assert_eq!(ix.program_id.bytes, program_id.bytes);
    // selected(1, 10, 42): window 10, 42 % 10 == 2, result 3.
    let digest = sha2::Sha256::digest(b"global:settle");
    assert_eq!(&ix.data[..8], &digest[..8]);
    assert_eq!(&ix.data[8..], &[3u8, 0, 0, 0]);
}

#[test]
fn test_sb_function_rejects_bad_params() {
    let r = sb_function(&b"MIN_RESULT=1,MAX_RESULT=10".to_vec(), 42);
    assert_eq!(r.unwrap_err(), SbError::ArgParseFail);
    let r = sb_function(&Vec::new(), 42);
    assert_eq!(r.unwrap_err(), SbError::ArgParseFail);
}
