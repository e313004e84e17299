//! The structural checks made on a request before any state is touched.

use vstd::prelude::*;
use crate::error::OdysseyWalletError;
use crate::request::TransactionRequest;

verus! {

/// Whether the request moves a positive value.
pub open spec fn moves_value(request: TransactionRequest) -> bool {
    request.value matches Some(v) && v@ > 0
}

/// The verdict on a request: the first rule that it breaks, in the order value,
/// sender, nonce.
pub open spec fn validation(request: TransactionRequest) -> Result<(), OdysseyWalletError> {
    if moves_value(request) {
        Err(OdysseyWalletError::ValueNotZero)
    } else if request.from is Some {
        Err(OdysseyWalletError::FromSet)
    } else if request.nonce is Some {
        Err(OdysseyWalletError::NonceSet)
    } else {
        Ok(())
    }
}

/// Checks the fields that a caller must leave alone.
///
/// A request that moves a positive value is turned down with `ValueNotZero`, since
/// the relayer pays for gas and for nothing else. One that names a sender is turned
/// down with `FromSet`, and one that names a nonce with `NonceSet`: the gateway
/// fills both. Where several rules are broken the first in this order is reported.
pub fn validate_tx_request(request: &TransactionRequest) -> (r: Result<(), OdysseyWalletError>)
    ensures
        r == validation(*request),
        moves_value(*request) <==> r == Err::<(), OdysseyWalletError>(
            OdysseyWalletError::ValueNotZero,
        ),
        request.from is Some ==> r is Err,
        request.from is Some && !moves_value(*request) ==> r == Err::<(), OdysseyWalletError>(
            OdysseyWalletError::FromSet,
        ),
        request.nonce is Some ==> r is Err,
        request.nonce is Some && !moves_value(*request) && request.from is None ==> r == Err::<
            (),
            OdysseyWalletError,
        >(OdysseyWalletError::NonceSet),
        r is Ok <==> !moves_value(*request) && request.from is None && request.nonce is None,
{
    match request.value {
        Some(v) => {
            if !v.is_zero() {
                return Err(OdysseyWalletError::ValueNotZero);
            }
        },
        None => {},
    }
    if request.from.is_some() {
        return Err(OdysseyWalletError::FromSet);
    }
    if request.nonce.is_some() {
        return Err(OdysseyWalletError::NonceSet);
    }
    Ok(())
}

} // verus!
