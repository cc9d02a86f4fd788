use userop::errors::UserOpMiddlewareError;
use userop::fees::{average_gas_fees, TxFeeSample};
use userop::u256::U256;

fn sample(max_fee: u64, max_priority: u64) -> TxFeeSample {
    TxFeeSample {
        max_fee_per_gas: Some(U256::from_u64(max_fee)),
        max_priority_fee_per_gas: Some(U256::from_u64(max_priority)),
    }
}

#[test]
fn average_over_three_transactions() {
    let txs = vec![sample(10, 1), sample(20, 2), sample(30, 3)];
    let (fee, priority) = average_gas_fees(&txs).unwrap();
    assert_eq!(fee, U256::from_u64(20));
    assert_eq!(priority, U256::from_u64(2));
}

#[test]
fn empty_sample_is_an_error_not_zero() {
    let txs: Vec<TxFeeSample> = Vec::new();
    let r = average_gas_fees(&txs);
    assert!(matches!(r, Err(UserOpMiddlewareError::EmptyFeeSampleError)));
}

#[test]
fn transactions_missing_a_fee_field_do_not_qualify() {
    let txs = vec![
        sample(10, 1),
        TxFeeSample { max_fee_per_gas: Some(U256::from_u64(1000)), max_priority_fee_per_gas: None },
        TxFeeSample { max_fee_per_gas: None, max_priority_fee_per_gas: Some(U256::from_u64(7)) },
        sample(30, 3),
    ];
    let (fee, priority) = average_gas_fees(&txs).unwrap();
    assert_eq!(fee, U256::from_u64(20));
    assert_eq!(priority, U256::from_u64(2));
}

#[test]
fn only_disqualified_transactions_is_an_error() {
    let txs = vec![
        TxFeeSample { max_fee_per_gas: Some(U256::from_u64(1000)), max_priority_fee_per_gas: None },
    ];
    assert!(matches!(
        average_gas_fees(&txs),
        Err(UserOpMiddlewareError::EmptyFeeSampleError)
    ));
}

#[test]
fn average_truncates_toward_zero() {
    let txs = vec![sample(10, 1), sample(11, 2)];
    let (fee, priority) = average_gas_fees(&txs).unwrap();
    assert_eq!(fee, U256::from_u64(10));
    assert_eq!(priority, U256::from_u64(1));
}
