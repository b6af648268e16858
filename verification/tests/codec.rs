//! Byte-level round trips of the pool record and the instruction envelope.

use betting_pool::{BettingPool, BettingPoolError, BettingPoolInstruction, Pubkey, TradeArgs};

fn key(tag: u64) -> Pubkey {
    Pubkey { w0: tag, w1: tag.wrapping_mul(3), w2: tag.wrapping_add(7), w3: !tag }
}

fn sample_pool() -> BettingPool {
    BettingPool {
        circulation: 77,
        settled: true,
        winning_side_pubkey: key(1),
        long_escrow_mint_account_pubkey: key(2),
        short_escrow_mint_account_pubkey: key(3),
        long_escrow_account_pubkey: key(4),
        short_escrow_account_pubkey: key(5),
        long_mint_account_pubkey: key(6),
        short_mint_account_pubkey: key(7),
    }
}

#[test]
fn pool_round_trip_is_identity() {
    let pool = sample_pool();
    let bytes = pool.serialize();
    assert_eq!(bytes.len(), 233);
    let back = BettingPool::try_from_slice(&bytes).unwrap();
    assert_eq!(back, pool);
    let again = back.serialize();
    assert_eq!(again, bytes);
}

#[test]
fn pool_layout_is_fixed() {
    let pool = sample_pool();
    let bytes = pool.serialize();
    assert_eq!(&bytes[0..8], &77u64.to_le_bytes());
    assert_eq!(bytes[8], 1);
    assert_eq!(&bytes[9..17], &1u64.to_le_bytes());
    assert_eq!(&bytes[169..177], &6u64.to_le_bytes());
}

#[test]
fn pool_rejects_bad_settled_byte() {
    let mut bytes = sample_pool().serialize();
    bytes[8] = 2;
    assert_eq!(
        BettingPool::try_from_slice(&bytes),
        Err(BettingPoolError::AccountNotInitialized)
    );
}

#[test]
fn pool_rejects_short_buffer() {
    let bytes = sample_pool().serialize();
    assert_eq!(
        BettingPool::try_from_slice(&bytes[0..232]),
        Err(BettingPoolError::AccountNotInitialized)
    );
}

#[test]
fn pool_from_account_ignores_reserved_tail() {
    let pool = sample_pool();
    let mut data = pool.serialize();
    data.extend_from_slice(&[0xAA; 16]);
    let account = betting_pool::LoadedAccount {
        key: key(9),
        owner: key(10),
        is_signer: false,
        data,
    };
    assert_eq!(BettingPool::from_account_info(&account).unwrap(), pool);
}

#[test]
fn instruction_round_trips() {
    let cases = [
        BettingPoolInstruction::InitializeBettingPool,
        BettingPoolInstruction::Trade(TradeArgs { size: 5, buy_price: 10, sell_price: 11 }),
        BettingPoolInstruction::Settle,
        BettingPoolInstruction::Collect,
    ];
    for case in cases {
        let bytes = case.try_to_vec();
        let back = BettingPoolInstruction::try_from_slice(&bytes).unwrap();
        assert_eq!(back, case);
    }
}

#[test]
fn instruction_encoding_is_little_endian_tagged() {
    let bytes = BettingPoolInstruction::Trade(TradeArgs {
        size: 0x0102030405060708,
        buy_price: 9,
        sell_price: 10,
    })
    .try_to_vec();
    assert_eq!(bytes.len(), 25);
    assert_eq!(bytes[0], 1);
    assert_eq!(&bytes[1..9], &[0x08, 0x07, 0x06, 0x05, 0x04, 0x03, 0x02, 0x01]);
    assert_eq!(&bytes[9..17], &9u64.to_le_bytes());
    assert_eq!(BettingPoolInstruction::InitializeBettingPool.try_to_vec(), vec![0]);
    assert_eq!(BettingPoolInstruction::Settle.try_to_vec(), vec![2]);
    assert_eq!(BettingPoolInstruction::Collect.try_to_vec(), vec![3]);
}

#[test]
fn instruction_rejects_bad_payloads() {
    let empty: Vec<u8> = Vec::new();
    assert_eq!(
        BettingPoolInstruction::try_from_slice(&empty),
        Err(BettingPoolError::InvalidInstruction)
    );
    assert_eq!(
        BettingPoolInstruction::try_from_slice(&[4]),
        Err(BettingPoolError::InvalidInstruction)
    );
    assert_eq!(
        BettingPoolInstruction::try_from_slice(&[1, 0, 0]),
        Err(BettingPoolError::InvalidInstruction)
    );
    assert_eq!(
        BettingPoolInstruction::try_from_slice(&[2, 0]),
        Err(BettingPoolError::InvalidInstruction)
    );
}

#[test]
fn error_ordinals_are_stable() {
    assert_eq!(BettingPoolError::InvalidInstruction.code(), 0);
    assert_eq!(BettingPoolError::ExpectedAmountMismatch.code(), 1);
    assert_eq!(BettingPoolError::InvalidSupply.code(), 9);
    assert_eq!(BettingPoolError::PublicKeyMismatch.code(), 16);
    assert_eq!(BettingPoolError::InvalidPoolKey.code(), 17);
    assert_eq!(BettingPoolError::AlreadySettled.code(), 21);
    assert_eq!(BettingPoolError::InvalidTransferTime.code(), 29);
}

#[test]
fn pubkey_bytes_round_trip() {
    let k = key(42);
    let bytes = k.to_bytes();
    assert_eq!(bytes.len(), 32);
    let back = Pubkey::from_bytes(&bytes);
    assert_eq!(back, k);
}
