use stream_contract::compute_fee;
use stream_contract::ProtocolConfig;
use stream_contract::Stream;
use stream_contract::StreamContract;
use stream_contract::StreamError;

const SENDER: u64 = 1;
const RECIPIENT: u64 = 2;
const TOKEN: u64 = 3;
const ADMIN: u64 = 10;
const TREASURY: u64 = 11;

#[test]
fn test_create_no_fee_then_claim() {
    let mut ledger = StreamContract::new();
    let id = ledger.create_stream(SENDER, RECIPIENT, TOKEN, 10_000, 100, true, 0).unwrap();
    assert_eq!(id, 1);

    let stream = ledger.get_stream(id).unwrap();
    assert_eq!(stream.rate_per_second, 100);
    assert_eq!(stream.deposited_amount, 10_000);
    assert_eq!(stream.withdrawn_amount, 0);
    assert!(stream.is_active);

    assert_eq!(ledger.get_claimable_amount(id, 40), Some(4_000));
}

#[test]
fn test_create_with_fee_configured() {
    let mut ledger = StreamContract::new();
    assert_eq!(ledger.initialize(ADMIN, TREASURY, 500), Ok(()));

    let id = ledger.create_stream(SENDER, RECIPIENT, TOKEN, 10_000, 100, true, 0).unwrap();
    let stream = ledger.get_stream(id).unwrap();
    assert_eq!(stream.deposited_amount, 9_500);
    assert_eq!(stream.rate_per_second, 95);
}

#[test]
fn test_top_up_keeps_rate_and_advances_clock() {
    let mut ledger = StreamContract::new();
    let id = ledger.create_stream(SENDER, RECIPIENT, TOKEN, 10_000, 100, true, 0).unwrap();

    assert_eq!(ledger.top_up_stream(SENDER, id, 5_000, 25), Ok(()));
    let stream = ledger.get_stream(id).unwrap();
    assert_eq!(stream.deposited_amount, 15_000);
    assert_eq!(stream.rate_per_second, 100);
    assert_eq!(stream.last_update_time, 25);
}

#[test]
fn test_top_up_pays_fee_when_configured() {
    let mut ledger = StreamContract::new();
    assert_eq!(ledger.initialize(ADMIN, TREASURY, 500), Ok(()));
    let id = ledger.create_stream(SENDER, RECIPIENT, TOKEN, 10_000, 100, true, 0).unwrap();

    assert_eq!(ledger.top_up_stream(SENDER, id, 5_000, 10), Ok(()));
    let stream = ledger.get_stream(id).unwrap();
    assert_eq!(stream.deposited_amount, 9_500 + 4_750);
}

#[test]
fn test_withdraw_caps_at_remaining_and_closes() {
    let mut ledger = StreamContract::new();
    let id = ledger.create_stream(SENDER, RECIPIENT, TOKEN, 10_000, 100, true, 0).unwrap();

    // At t=200 the streamed figure (20000) exceeds the remaining balance.
    assert_eq!(ledger.get_claimable_amount(id, 200), Some(10_000));
    assert_eq!(ledger.withdraw(RECIPIENT, id, 200), Ok(10_000));

    let stream = ledger.get_stream(id).unwrap();
    assert_eq!(stream.withdrawn_amount, 10_000);
    assert!(!stream.is_active);
    assert_eq!(ledger.get_claimable_amount(id, 300), Some(0));
}

#[test]
fn test_withdraw_twice_same_instant() {
    let mut ledger = StreamContract::new();
    let id = ledger.create_stream(SENDER, RECIPIENT, TOKEN, 10_000, 100, true, 0).unwrap();

    assert_eq!(ledger.withdraw(RECIPIENT, id, 40), Ok(4_000));
    assert_eq!(ledger.get_claimable_amount(id, 40), Some(0));
    assert_eq!(ledger.withdraw(RECIPIENT, id, 40), Err(StreamError::InvalidAmount));
}

#[test]
fn test_cancel_settles_and_refunds() {
    let mut ledger = StreamContract::new();
    let id = ledger.create_stream(SENDER, RECIPIENT, TOKEN, 10_000, 100, true, 0).unwrap();

    // Cancel 30% through the 100-unit duration.
    assert_eq!(ledger.cancel_stream(SENDER, id, 30), Ok(()));
    let stream = ledger.get_stream(id).unwrap();
    assert_eq!(stream.withdrawn_amount, 3_000);
    assert!(!stream.is_active);
    // The refund owed to the sender is exactly the un-streamed remainder.
    assert_eq!(stream.deposited_amount - stream.withdrawn_amount, 7_000);
}

#[test]
fn test_cancel_after_partial_withdraw_conserves_funds() {
    let mut ledger = StreamContract::new();
    let id = ledger.create_stream(SENDER, RECIPIENT, TOKEN, 10_000, 100, true, 0).unwrap();

    assert_eq!(ledger.withdraw(RECIPIENT, id, 20), Ok(2_000));
    let before = ledger.get_stream(id).unwrap();
    let remaining_before = before.deposited_amount - before.withdrawn_amount;

    assert_eq!(ledger.cancel_stream(SENDER, id, 50), Ok(()));
    let after = ledger.get_stream(id).unwrap();
    let accrued = after.withdrawn_amount - before.withdrawn_amount;
    let refund = after.deposited_amount - after.withdrawn_amount;
    assert_eq!(accrued, 3_000);
    assert_eq!(refund, 5_000);
    assert_eq!(accrued + refund, remaining_before);
}

#[test]
fn test_claimable_monotone_and_saturating() {
    let mut ledger = StreamContract::new();
    let id = ledger.create_stream(SENDER, RECIPIENT, TOKEN, 10_000, 100, true, 0).unwrap();

    assert_eq!(ledger.get_claimable_amount(id, 0), Some(0));
    assert_eq!(ledger.get_claimable_amount(id, 10), Some(1_000));
    assert_eq!(ledger.get_claimable_amount(id, 99), Some(9_900));
    assert_eq!(ledger.get_claimable_amount(id, 100), Some(10_000));
    assert_eq!(ledger.get_claimable_amount(id, 1_000), Some(10_000));
}

#[test]
fn test_claimable_overflow_saturates_at_remaining() {
    let stream = Stream {
        sender: SENDER,
        recipient: RECIPIENT,
        token_address: TOKEN,
        rate_per_second: i128::MAX,
        deposited_amount: 10_000,
        withdrawn_amount: 0,
        start_time: 0,
        last_update_time: 0,
        is_active: true,
    };
    assert_eq!(StreamContract::calculate_claimable(&stream, 2), 10_000);
}

#[test]
fn test_clock_anomaly_yields_nothing() {
    let stream = Stream {
        sender: SENDER,
        recipient: RECIPIENT,
        token_address: TOKEN,
        rate_per_second: 100,
        deposited_amount: 10_000,
        withdrawn_amount: 0,
        start_time: 50,
        last_update_time: 50,
        is_active: true,
    };
    // The clock reads earlier than the last accounting event.
    assert_eq!(StreamContract::calculate_claimable(&stream, 10), 0);
}

#[test]
fn test_fee_formula_exact() {
    assert_eq!(compute_fee(10_000, 500), 500);
    assert_eq!(compute_fee(9_999, 1), 0);
    assert_eq!(compute_fee(123_456_789, 777), 9_592_592);
    assert_eq!(compute_fee(i128::MAX, 1_000), i128::MAX / 10);
}

#[test]
fn test_initialize_rules() {
    let mut ledger = StreamContract::new();
    assert_eq!(ledger.initialize(ADMIN, TREASURY, 1_001), Err(StreamError::InvalidFeeRate));
    assert_eq!(ledger.get_fee_config(), None);

    assert_eq!(ledger.initialize(ADMIN, TREASURY, 250), Ok(()));
    assert_eq!(
        ledger.get_fee_config(),
        Some(ProtocolConfig { admin: ADMIN, treasury: TREASURY, fee_rate_bps: 250 })
    );

    assert_eq!(ledger.initialize(ADMIN, TREASURY, 250), Err(StreamError::AlreadyInitialized));
}

#[test]
fn test_update_fee_config_rules() {
    let mut ledger = StreamContract::new();
    assert_eq!(ledger.update_fee_config(ADMIN, TREASURY, 100), Err(StreamError::NotInitialized));

    assert_eq!(ledger.initialize(ADMIN, TREASURY, 100), Ok(()));
    assert_eq!(ledger.update_fee_config(99, TREASURY, 100), Err(StreamError::NotAdmin));
    assert_eq!(ledger.update_fee_config(ADMIN, TREASURY, 1_001), Err(StreamError::InvalidFeeRate));

    assert_eq!(ledger.update_fee_config(ADMIN, 42, 1_000), Ok(()));
    assert_eq!(
        ledger.get_fee_config(),
        Some(ProtocolConfig { admin: ADMIN, treasury: 42, fee_rate_bps: 1_000 })
    );
}

#[test]
fn test_create_stream_rejections() {
    let mut ledger = StreamContract::new();
    assert_eq!(
        ledger.create_stream(SENDER, RECIPIENT, TOKEN, 0, 100, true, 0),
        Err(StreamError::InvalidAmount)
    );
    assert_eq!(
        ledger.create_stream(SENDER, RECIPIENT, TOKEN, -5, 100, true, 0),
        Err(StreamError::InvalidAmount)
    );
    assert_eq!(
        ledger.create_stream(SENDER, RECIPIENT, TOKEN, 1_000, 0, true, 0),
        Err(StreamError::InvalidDuration)
    );
    assert_eq!(
        ledger.create_stream(SENDER, RECIPIENT, TOKEN, 1_000, 10, false, 0),
        Err(StreamError::InvalidTokenAddress)
    );
    assert_eq!(ledger.get_stream(1), None);
}

#[test]
fn test_withdraw_rejections() {
    let mut ledger = StreamContract::new();
    assert_eq!(ledger.withdraw(RECIPIENT, 7, 0), Err(StreamError::StreamNotFound));

    let id = ledger.create_stream(SENDER, RECIPIENT, TOKEN, 10_000, 100, true, 0).unwrap();
    assert_eq!(ledger.withdraw(SENDER, id, 40), Err(StreamError::Unauthorized));

    assert_eq!(ledger.cancel_stream(SENDER, id, 40), Ok(()));
    assert_eq!(ledger.withdraw(RECIPIENT, id, 80), Err(StreamError::StreamInactive));
}

#[test]
fn test_cancel_rejections() {
    let mut ledger = StreamContract::new();
    assert_eq!(ledger.cancel_stream(SENDER, 7, 0), Err(StreamError::StreamNotFound));

    let id = ledger.create_stream(SENDER, RECIPIENT, TOKEN, 10_000, 100, true, 0).unwrap();
    assert_eq!(ledger.cancel_stream(RECIPIENT, id, 40), Err(StreamError::Unauthorized));

    assert_eq!(ledger.cancel_stream(SENDER, id, 40), Ok(()));
    assert_eq!(ledger.cancel_stream(SENDER, id, 50), Err(StreamError::StreamInactive));
}

#[test]
fn test_ids_are_monotonic_and_independent() {
    let mut ledger = StreamContract::new();
    let a = ledger.create_stream(SENDER, RECIPIENT, TOKEN, 1_000, 10, true, 0).unwrap();
    let b = ledger.create_stream(SENDER, RECIPIENT, TOKEN, 2_000, 10, true, 0).unwrap();
    assert_eq!(a, 1);
    assert_eq!(b, 2);

    assert_eq!(ledger.cancel_stream(SENDER, a, 5), Ok(()));
    let other = ledger.get_stream(b).unwrap();
    assert!(other.is_active);
    assert_eq!(other.deposited_amount, 2_000);
}
