use invoice_engine::error::EngineError;
use invoice_engine::sweep::{max_fee_per_gas, plan_sweep, MIN_SWEEP_AMOUNT};

#[test]
fn fee_cap_adds_priority_fee() {
    assert_eq!(max_fee_per_gas(30, 2), Some(32));
    assert_eq!(max_fee_per_gas(u128::MAX, 1), None);
}

#[test]
fn plan_reserves_worst_case_gas() {
    let p = plan_sweep(1_000_000_000, 21_000, 10_000, 2, 1_000_000_000).unwrap();
    assert_eq!(p.max_gas_cost, 210_000_000);
    assert_eq!(p.value, 790_000_000);
    assert_eq!(p.gas_limit, 21_000);
    assert_eq!(p.max_fee_per_gas, 10_000);
    assert_eq!(p.max_priority_fee_per_gas, 2);
}

#[test]
fn gas_above_ceiling_aborts() {
    assert_eq!(plan_sweep(u128::MAX, 21_000, 10_000, 2, 209_999_999), Err(EngineError::GasLimitExceeded));
    assert!(plan_sweep(u128::MAX, 21_000, 10_000, 2, 210_000_000).is_ok());
    assert_eq!(plan_sweep(1, u64::MAX, u128::MAX, 0, u128::MAX), Err(EngineError::GasLimitExceeded));
}

#[test]
fn dust_aborts() {
    let cost: u128 = 21_000 * 10;
    assert_eq!(plan_sweep(cost + MIN_SWEEP_AMOUNT, 21_000, 10, 0, u128::MAX), Err(EngineError::InsufficientFunds));
    assert_eq!(plan_sweep(cost + MIN_SWEEP_AMOUNT + 1, 21_000, 10, 0, u128::MAX).unwrap().value, MIN_SWEEP_AMOUNT + 1);
    assert_eq!(plan_sweep(100, 21_000, 10, 0, u128::MAX), Err(EngineError::InsufficientFunds));
}
