//! The cap on the estimated gas, and the fee fields of a sponsored transaction.

use vstd::prelude::*;
use crate::error::OdysseyWalletError;
use crate::primitives::Address;
use crate::request::TransactionRequest;

verus! {

/// An estimate of this many units of gas, or more, is turned down.
pub const GAS_ESTIMATE_CEILING: u64 = 350_000;

/// The tip that every sponsored transaction offers per unit of gas: 1 gwei.
pub const PRIORITY_FEE_PER_GAS: u128 = 1_000_000_000;

/// Whether the maximum fee for this base fee can be written in 128 bits.
pub open spec fn fee_fits(base_fee: u128) -> bool {
    base_fee + PRIORITY_FEE_PER_GAS <= u128::MAX
}

/// The request once the relayer's nonce, the chain id and the relayer as sender are
/// filled in.
pub open spec fn with_nonce(
    request: TransactionRequest,
    sender: Address,
    chain_id: u64,
    nonce: u64,
) -> TransactionRequest {
    TransactionRequest {
        nonce: Some(nonce),
        chain_id: Some(chain_id),
        from: Some(sender),
        ..request
    }
}

/// The request once the gas limit and the fee fields are filled in: the tip is the
/// fixed priority fee, the maximum fee is the base fee plus the tip, and no legacy
/// gas price is left.
pub open spec fn with_fees(request: TransactionRequest, gas: u64, base_fee: u128)
    -> TransactionRequest {
    TransactionRequest {
        gas: Some(gas),
        max_fee_per_gas: Some((base_fee + PRIORITY_FEE_PER_GAS) as u128),
        max_priority_fee_per_gas: Some(PRIORITY_FEE_PER_GAS),
        gas_price: None,
        ..request
    }
}

/// Tells whether `fee_fits` holds of a base fee.
pub fn base_fee_fits(base_fee: u128) -> (r: bool)
    ensures
        r == fee_fits(base_fee),
{
    base_fee <= u128::MAX - PRIORITY_FEE_PER_GAS
}

/// Holds an estimate against the ceiling: an estimate at or above it is turned down
/// with `GasEstimateTooHigh`, which carries the estimate; one below it becomes the
/// gas limit.
pub fn check_gas_estimate(estimate: u64) -> (r: Result<u64, OdysseyWalletError>)
    ensures
        estimate < GAS_ESTIMATE_CEILING <==> r == Ok::<u64, OdysseyWalletError>(estimate),
        estimate >= GAS_ESTIMATE_CEILING <==> r == Err::<u64, OdysseyWalletError>(
            OdysseyWalletError::GasEstimateTooHigh { estimate },
        ),
{
    if estimate >= GAS_ESTIMATE_CEILING {
        Err(OdysseyWalletError::GasEstimateTooHigh { estimate })
    } else {
        Ok(estimate)
    }
}

/// Fills in the relayer's next nonce, the chain id, and the relayer as sender.
pub fn assign_nonce(request: TransactionRequest, sender: Address, chain_id: u64, nonce: u64) -> (r:
    TransactionRequest)
    ensures
        r == with_nonce(request, sender, chain_id, nonce),
{
    TransactionRequest { nonce: Some(nonce), chain_id: Some(chain_id), from: Some(sender), ..request }
}

/// Fills in the gas limit and the fee fields for a base fee, and clears the legacy
/// gas price.
pub fn assign_fees(request: TransactionRequest, gas: u64, base_fee: u128) -> (r:
    TransactionRequest)
    requires
        fee_fits(base_fee),
    ensures
        r == with_fees(request, gas, base_fee),
        r.max_fee_per_gas == Some((base_fee + 1_000_000_000) as u128),
        r.max_priority_fee_per_gas == Some(1_000_000_000u128),
        r.gas_price is None,
        r.gas == Some(gas),
{
    TransactionRequest {
        gas: Some(gas),
        max_fee_per_gas: Some(base_fee + PRIORITY_FEE_PER_GAS),
        max_priority_fee_per_gas: Some(PRIORITY_FEE_PER_GAS),
        gas_price: None,
        ..request
    }
}

} // verus!
