//! The transaction request as the gateway's rules see it.

use vstd::prelude::*;
use crate::primitives::{Address, TxKind, U256};

verus! {

/// The contracts to which an account may delegate for the relayer to act on its
/// behalf.
#[derive(Clone, Debug, PartialEq, Eq)]
pub struct DelegationCapability {
    /// A list of valid delegation contracts.
    pub addresses: Vec<Address>,
}

/// The fields of a transaction request that the gateway reads or fills.
///
/// The payload of the request (call data, access list, the authorizations
/// themselves) passes through the gateway untouched and is not held here.
#[derive(Clone, Copy, Debug, PartialEq, Eq)]
pub struct TransactionRequest {
    /// The sender; filled by the gateway with the relayer's address.
    pub from: Option<Address>,
    /// The destination.
    pub to: Option<TxKind>,
    /// The legacy gas price; cleared by the gateway.
    pub gas_price: Option<u128>,
    /// The most that the signer pays per unit of gas.
    pub max_fee_per_gas: Option<u128>,
    /// The tip per unit of gas.
    pub max_priority_fee_per_gas: Option<u128>,
    /// The gas limit.
    pub gas: Option<u64>,
    /// The value transferred.
    pub value: Option<U256>,
    /// The sender's nonce; filled by the gateway.
    pub nonce: Option<u64>,
    /// The chain id; filled by the gateway.
    pub chain_id: Option<u64>,
    /// Whether the request carries an authorization list, that is, sets a delegation.
    pub has_authorization_list: bool,
}

impl TransactionRequest {
    /// The request with no field set and no authorization list.
    pub open spec fn empty() -> TransactionRequest {
        TransactionRequest {
            from: None,
            to: None,
            gas_price: None,
            max_fee_per_gas: None,
            max_priority_fee_per_gas: None,
            gas: None,
            value: None,
            nonce: None,
            chain_id: None,
            has_authorization_list: false,
        }
    }

    /// Sets the sender.
    pub fn from(self, from: Address) -> (r: TransactionRequest)
        ensures
            r == (TransactionRequest { from: Some(from), ..self }),
    {
        TransactionRequest { from: Some(from), ..self }
    }

    /// Sets the destination to a call of the given account.
    pub fn to(self, to: Address) -> (r: TransactionRequest)
        ensures
            r == (TransactionRequest { to: Some(TxKind::Call(to)), ..self }),
    {
        TransactionRequest { to: Some(TxKind::Call(to)), ..self }
    }

    /// Sets the value transferred.
    pub fn value(self, value: U256) -> (r: TransactionRequest)
        ensures
            r == (TransactionRequest { value: Some(value), ..self }),
    {
        TransactionRequest { value: Some(value), ..self }
    }

    /// Sets the nonce.
    pub fn nonce(self, nonce: u64) -> (r: TransactionRequest)
        ensures
            r == (TransactionRequest { nonce: Some(nonce), ..self }),
    {
        TransactionRequest { nonce: Some(nonce), ..self }
    }
}

impl Default for TransactionRequest {
    fn default() -> (r: TransactionRequest)
        ensures
            r == TransactionRequest::empty(),
    {
        TransactionRequest {
            from: None,
            to: None,
            gas_price: None,
            max_fee_per_gas: None,
            max_priority_fee_per_gas: None,
            gas: None,
            value: None,
            nonce: None,
            chain_id: None,
            has_authorization_list: false,
        }
    }
}

} // verus!
