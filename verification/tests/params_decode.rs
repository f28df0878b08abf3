use simple_randomness::address::Address;
use simple_randomness::params::{
    ContainerParams, GuessContainerParams, ValidationError, encode_guess_params,
    encode_lottery_params,
};

const TOKEN_PROGRAM: &str = "TokenkegQfeZyiNwAJbNbGKPFXCWuBvf9Ss623VQ5DA";

fn addr(n: u8) -> Address {
    Address::from_bytes(vec![n; 32]).unwrap()
}

#[test]
fn test_params_decode() {
    let request_params_string = format!("PID={},LOTTERY={}", TOKEN_PROGRAM, TOKEN_PROGRAM);
    let request_params_bytes = request_params_string.into_bytes();

    let params = ContainerParams::decode(&request_params_bytes).unwrap();

    let expected = bs58::decode(TOKEN_PROGRAM).into_vec().unwrap();
    assert_eq!(params.program_id.bytes, expected);
    assert_eq!(params.lottery_key.bytes, expected);
}

#[test]
fn test_params_decode_missing_pid_fails() {
    let text = format!("LOTTERY={}", TOKEN_PROGRAM).into_bytes();
    let r = ContainerParams::decode(&text);
    assert!(matches!(r, Err(ValidationError::MissingProgramId)));
}

#[test]
fn test_params_decode_missing_lottery_fails() {
    let text = format!("PID={}", TOKEN_PROGRAM).into_bytes();
    let r = ContainerParams::decode(&text);
    assert!(matches!(r, Err(ValidationError::MissingLotteryKey)));
}

#[test]
fn test_params_decode_tolerates_unknown_keys() {
    let text =
        format!("FOO=bar,PID={},junk,X=,LOTTERY={},TRAILING=1", TOKEN_PROGRAM, TOKEN_PROGRAM)
            .into_bytes();
    let params = ContainerParams::decode(&text).unwrap();
    let expected = bs58::decode(TOKEN_PROGRAM).into_vec().unwrap();
    assert_eq!(params.program_id.bytes, expected);
    assert_eq!(params.lottery_key.bytes, expected);
}

#[test]
fn test_params_decode_last_duplicate_wins() {
    let a = addr(5);
    let b = addr(6);
    let a_enc = bs58::encode(&a.bytes).into_string();
    let b_enc = bs58::encode(&b.bytes).into_string();
    let text = format!("PID={},LOTTERY={},PID={}", a_enc, a_enc, b_enc).into_bytes();
    let params = ContainerParams::decode(&text).unwrap();
    assert_eq!(params.program_id.bytes, b.bytes);
    assert_eq!(params.lottery_key.bytes, a.bytes);
}

#[test]
fn test_params_decode_rejects_undefined_address() {
    // The all-zero address renders to base58 but means "undefined".
    let zero = Address::from_bytes(vec![0u8; 32]).unwrap();
    let zero_enc = bs58::encode(&zero.bytes).into_string();
    let text = format!("PID={},LOTTERY={}", zero_enc, TOKEN_PROGRAM).into_bytes();
    let r = ContainerParams::decode(&text);
    assert!(matches!(r, Err(ValidationError::MissingProgramId)));
}

#[test]
fn test_params_decode_rejects_malformed_value() {
    // `0` is not a base58 digit, so the PID value cannot parse.
    let text = format!("PID=0000,LOTTERY={}", TOKEN_PROGRAM).into_bytes();
    let r = ContainerParams::decode(&text);
    assert!(matches!(r, Err(ValidationError::MissingProgramId)));
}

#[test]
fn test_lottery_params_round_trip() {
    let pid = addr(1);
    let lottery = addr(2);
    let wire = encode_lottery_params(&pid, &lottery);
    let params = ContainerParams::decode(&wire).unwrap();
    assert_eq!(params.program_id.bytes, pid.bytes);
    assert_eq!(params.lottery_key.bytes, lottery.bytes);
}

#[test]
fn test_guess_params_round_trip() {
    let pid = addr(3);
    let user = addr(4);
    let wire = encode_guess_params(&pid, &user);
    let params = GuessContainerParams::decode(&wire).unwrap();
    assert_eq!(params.program_id.bytes, pid.bytes);
    assert_eq!(params.user_key.bytes, user.bytes);
    assert_eq!(params.min_result, 1);
    assert_eq!(params.max_result, 10);
}

#[test]
fn test_guess_params_missing_bound_fails() {
    let pid = addr(3);
    let user = addr(4);
    let pid_enc = bs58::encode(&pid.bytes).into_string();
    let user_enc = bs58::encode(&user.bytes).into_string();
    let text = format!("PID={},MAX_RESULT=10,USER={}", pid_enc, user_enc).into_bytes();
    let r = GuessContainerParams::decode(&text);
    assert!(matches!(r, Err(ValidationError::MissingMinResult)));

    let text = format!("PID={},MIN_RESULT=x,MAX_RESULT=10,USER={}", pid_enc, user_enc)
        .into_bytes();
    let r = GuessContainerParams::decode(&text);
    assert!(matches!(r, Err(ValidationError::MissingMinResult)));

    let text = format!("PID={},MIN_RESULT=1,MAX_RESULT=4294967296,USER={}", pid_enc, user_enc)
        .into_bytes();
    let r = GuessContainerParams::decode(&text);
    assert!(matches!(r, Err(ValidationError::MissingMaxResult)));

    let text = format!("PID={},MIN_RESULT=1,MAX_RESULT=10", pid_enc).into_bytes();
    let r = GuessContainerParams::decode(&text);
    assert!(matches!(r, Err(ValidationError::MissingUser)));
}

#[test]
fn test_base58_values_match_reference_encoder() {
    // The library's wire text must carry exactly what bs58 itself renders.
    let pid = addr(7);
    let lottery = addr(8);
    let wire = encode_lottery_params(&pid, &lottery);
    let expected = format!(
        "PID={},LOTTERY={}",
        bs58::encode(&pid.bytes).into_string(),
        bs58::encode(&lottery.bytes).into_string()
    );
    assert_eq!(wire, expected.into_bytes());
}
