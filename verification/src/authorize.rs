//! The rules that decide whether the relayer acts for a destination.

use vstd::prelude::*;
use crate::error::OdysseyWalletError;
use crate::primitives::{Address, TxKind};
use crate::request::TransactionRequest;

verus! {

/// What the chain holds as the code of an account.
#[derive(Clone, Copy, Debug, PartialEq, Eq)]
pub enum AccountCode {
    /// The account has no code.
    Absent,
    /// The account has code that is no delegation designator.
    Plain,
    /// The account's code is a delegation designator for this address.
    Delegation(Address),
}

/// The shape of a request, as far as the destination rules go.
#[derive(Clone, Copy, Debug, PartialEq, Eq)]
pub enum Destination {
    /// The request sets a delegation; it is let through whatever its destination.
    DelegationSetup,
    /// The request calls this account, whose code has to be looked at.
    Call(Address),
    /// Any other shape, such as the creation of a contract.
    Disallowed,
}

/// The shape of a request: a request with an authorization list sets a delegation;
/// without one, only a call of an account is admitted.
pub open spec fn destination_of(request: TransactionRequest) -> Destination {
    if request.has_authorization_list {
        Destination::DelegationSetup
    } else {
        match request.to {
            Some(TxKind::Call(addr)) => Destination::Call(addr),
            _ => Destination::Disallowed,
        }
    }
}

/// Whether code marks its account as delegated: it is a delegation designator and
/// the address that it names is not zero.
pub open spec fn is_delegated(code: AccountCode) -> bool {
    code matches AccountCode::Delegation(target) && !target.spec_is_zero()
}

/// Sorts a request by the shape of its destination.
pub fn classify_destination(request: &TransactionRequest) -> (d: Destination)
    ensures
        d == destination_of(*request),
        request.has_authorization_list <==> d == Destination::DelegationSetup,
{
    if request.has_authorization_list {
        return Destination::DelegationSetup;
    }
    match request.to {
        Some(TxKind::Call(addr)) => Destination::Call(addr),
        _ => Destination::Disallowed,
    }
}

/// Accepts the code of a called account only where it is a delegation designator
/// that names a non-zero address.
///
/// No code, code of another kind and a designator for the zero address are all
/// turned down alike, with `IllegalDestination`.
pub fn check_delegation(code: &AccountCode) -> (r: Result<(), OdysseyWalletError>)
    ensures
        is_delegated(*code) <==> r is Ok,
        !is_delegated(*code) <==> r == Err::<(), OdysseyWalletError>(
            OdysseyWalletError::IllegalDestination,
        ),
{
    match code {
        AccountCode::Delegation(target) => {
            if target.is_zero() {
                Err(OdysseyWalletError::IllegalDestination)
            } else {
                Ok(())
            }
        },
        _ => Err(OdysseyWalletError::IllegalDestination),
    }
}

} // verus!
