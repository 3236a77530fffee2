//! The forwarding transaction's numbers: fee cap, worst-case gas cost and
//! the amount that may leave the invoice address. All in base units.
use vstd::prelude::*;
use crate::error::EngineError;

verus! {

/// The dust threshold: a sweep must move strictly more than this.
pub const MIN_SWEEP_AMOUNT: u128 = 500000;

/// The parameters of a forwarding transaction that passed every check.
#[derive(Clone, Copy, Debug, PartialEq, Eq, Structural)]
pub struct SweepPlan {
    /// The amount sent to the receiver.
    pub value: u128,
    pub gas_limit: u64,
    pub max_fee_per_gas: u128,
    pub max_priority_fee_per_gas: u128,
    /// `gas_limit * max_fee_per_gas`, reserved out of the balance.
    pub max_gas_cost: u128,
}

/// The worst-case fee of a transaction.
pub open spec fn gas_cost(gas_limit: int, max_fee_per_gas: int) -> int {
    gas_limit * max_fee_per_gas
}

/// What remains of `balance` once `cost` is reserved, never below zero.
pub open spec fn net_amount(balance: int, cost: int) -> int {
    if balance > cost {
        balance - cost
    } else {
        0
    }
}

/// Whether the worst-case fee is above the configured ceiling.
pub open spec fn over_ceiling(gas_limit: int, max_fee_per_gas: int, max_allowed_gas: int) -> bool {
    gas_cost(gas_limit, max_fee_per_gas) > max_allowed_gas
}

/// Whether the amount left after gas is dust.
pub open spec fn is_dust(balance: int, gas_limit: int, max_fee_per_gas: int) -> bool {
    net_amount(balance, gas_cost(gas_limit, max_fee_per_gas)) <= MIN_SWEEP_AMOUNT
}

/// The fee cap per unit of gas: the current gas price plus the configured
/// priority fee, or `None` where that sum does not fit in a `u128`.
pub fn max_fee_per_gas(gas_price: u128, max_priority_fee: u128) -> (r: Option<u128>)
    ensures
        r is Some <==> gas_price + max_priority_fee <= u128::MAX,
        r matches Some(f) ==> f == gas_price + max_priority_fee,
{
    gas_price.checked_add(max_priority_fee)
}

/// Decides a sweep of `balance` with an estimated `gas_limit`. It is
/// aborted with `GasLimitExceeded` where the worst-case fee is above
/// `max_allowed_gas`, and otherwise with `InsufficientFunds` where what is
/// left is not above the dust threshold; only then does a plan come back.
pub fn plan_sweep(
    balance: u128,
    gas_limit: u64,
    max_fee_per_gas: u128,
    max_priority_fee: u128,
    max_allowed_gas: u128,
) -> (r: Result<SweepPlan, EngineError>)
    ensures
        r == Err::<SweepPlan, EngineError>(EngineError::GasLimitExceeded) <==> over_ceiling(
            gas_limit as int,
            max_fee_per_gas as int,
            max_allowed_gas as int,
        ),
        r == Err::<SweepPlan, EngineError>(EngineError::InsufficientFunds) <==> !over_ceiling(
            gas_limit as int,
            max_fee_per_gas as int,
            max_allowed_gas as int,
        ) && is_dust(balance as int, gas_limit as int, max_fee_per_gas as int),
        r is Ok <==> !over_ceiling(gas_limit as int, max_fee_per_gas as int, max_allowed_gas as int)
            && !is_dust(balance as int, gas_limit as int, max_fee_per_gas as int),
        r matches Ok(p) ==> {
            &&& p.value == net_amount(
                balance as int,
                gas_cost(gas_limit as int, max_fee_per_gas as int),
            )
            &&& p.value > MIN_SWEEP_AMOUNT
            &&& p.value + p.max_gas_cost <= balance
            &&& p.gas_limit == gas_limit
            &&& p.max_fee_per_gas == max_fee_per_gas
            &&& p.max_priority_fee_per_gas == max_priority_fee
            &&& p.max_gas_cost == gas_cost(gas_limit as int, max_fee_per_gas as int)
        },
{
    let cost = match (gas_limit as u128).checked_mul(max_fee_per_gas) {
        Some(c) => c,
        None => {
            return Err(EngineError::GasLimitExceeded);
        },
    };
    if cost > max_allowed_gas {
        return Err(EngineError::GasLimitExceeded);
    }
    let send_amount: u128 = if balance > cost {
        balance - cost
    } else {
        0
    };
    if send_amount > MIN_SWEEP_AMOUNT {
        Ok(
            SweepPlan {
                value: send_amount,
                gas_limit,
                max_fee_per_gas,
                max_priority_fee_per_gas: max_priority_fee,
                max_gas_cost: cost,
            },
        )
    } else {
        Err(EngineError::InsufficientFunds)
    }
}

} // verus!
