use simple_randomness::decimal::{parse_u32, u32_to_dec};
use simple_randomness::escrow::{Escrow, EscrowError};

#[test]
fn test_escrow_deposit_and_drain() {
    let mut escrow = Escrow::new();
    let mut payer = 1_000u64;
    escrow.deposit(&mut payer, 300).unwrap();
    assert_eq!(escrow.balance, 300);
    assert_eq!(payer, 700);
    escrow.deposit(&mut payer, 700).unwrap();
    assert_eq!(escrow.balance, 1_000);
    assert_eq!(payer, 0);
    // The only withdrawal is the full drain.
    let drained = escrow.drain();
    assert_eq!(drained, 1_000);
    assert_eq!(escrow.balance, 0);
}

#[test]
fn test_escrow_deposit_is_atomic() {
    let mut escrow = Escrow::new();
    let mut payer = 100u64;
    let r = escrow.deposit(&mut payer, 101);
    assert_eq!(r.unwrap_err(), EscrowError::InsufficientFunds);
    assert_eq!(escrow.balance, 0);
    assert_eq!(payer, 100);

    escrow.deposit(&mut payer, 100).unwrap();
    let mut rich = u64::MAX;
    let r = escrow.deposit(&mut rich, u64::MAX);
    assert_eq!(r.unwrap_err(), EscrowError::BalanceOverflow);
    assert_eq!(escrow.balance, 100);
    assert_eq!(rich, u64::MAX);
}

#[test]
fn test_decimal_codec() {
    assert_eq!(u32_to_dec(0), b"0".to_vec());
    assert_eq!(u32_to_dec(10), b"10".to_vec());
    assert_eq!(u32_to_dec(4_294_967_295), b"4294967295".to_vec());
    assert_eq!(parse_u32(&b"0".to_vec()), Some(0));
    assert_eq!(parse_u32(&b"007".to_vec()), Some(7));
    assert_eq!(parse_u32(&b"4294967295".to_vec()), Some(4_294_967_295));
    assert_eq!(parse_u32(&b"4294967296".to_vec()), None);
    assert_eq!(parse_u32(&b"".to_vec()), None);
    assert_eq!(parse_u32(&b"12a".to_vec()), None);
}
