//! The sponsorship pipeline as a state machine.
//!
//! A request is taken in by [`OdysseyWallet::begin`] and moved on by
//! [`OdysseyWallet::step`]. Each of them returns the next state, the action that the
//! caller has to perform, and the counter to bump. The caller performs the action and
//! hands its result back as an [`Event`]. The permit that serializes the use of the
//! relayer's nonce is taken with [`Action::AcquirePermitAndReadNonce`] and given back
//! when a terminal state is reached.

use vstd::prelude::*;
use crate::authorize::{
    check_delegation, classify_destination, destination_of, is_delegated, AccountCode,
    Destination,
};
use crate::error::OdysseyWalletError;
use crate::fees::{
    assign_fees, assign_nonce, base_fee_fits, check_gas_estimate, fee_fits, with_fees,
    with_nonce, GAS_ESTIMATE_CEILING,
};
use crate::primitives::{Address, TxHash};
use crate::request::TransactionRequest;
use crate::validate::{validate_tx_request, validation};

verus! {

/// Why a request ended without a submitted transaction.
#[derive(Clone, Copy, Debug, PartialEq, Eq)]
pub enum Failure {
    /// The gateway turned the request down.
    Wallet(OdysseyWalletError),
    /// A collaborator failed, and its own error is handed to the caller as it is.
    Collaborator,
}

/// Where a request stands.
#[derive(Clone, Copy, Debug, PartialEq, Eq)]
pub enum State {
    /// The request passed validation and calls an account whose code is being read.
    Validated { request: TransactionRequest },
    /// The destination is authorized; the request waits for the permit and, once it
    /// has it, for the relayer's next nonce.
    Authorized { request: TransactionRequest },
    /// Nonce, chain id and sender are filled in; gas and base fee are being
    /// estimated.
    NonceSet { request: TransactionRequest },
    /// Gas limit and fee fields are filled in; the transaction is being signed.
    FeesComputed { request: TransactionRequest },
    /// The transaction made from this request is signed and is being submitted.
    Signed { request: TransactionRequest },
    /// The transaction was submitted under this hash.
    Submitted(TxHash),
    /// The request ended in failure.
    Rejected(Failure),
}

/// What the caller has to do next.
#[derive(Clone, Copy, Debug, PartialEq, Eq)]
pub enum Action {
    /// Read the code of this account at the latest state of the chain.
    ReadAccountCode(Address),
    /// Take the permit, then read the next available nonce of this address.
    AcquirePermitAndReadNonce(Address),
    /// Estimate the gas of this request at the latest state and fetch the current
    /// base fee, both at once.
    EstimateGasAndFees(TransactionRequest),
    /// Build a transaction from this request and sign it as the relayer.
    SignTransaction(TransactionRequest),
    /// Hand the signed transaction to the pool.
    SubmitTransaction,
    /// Give the permit back if it is held, and return this hash.
    ReturnHash(TxHash),
    /// Give the permit back if it is held, and return this failure.
    ReturnError(Failure),
}

/// What came of the action that the caller performed.
#[derive(Clone, Copy, Debug, PartialEq, Eq)]
pub enum Event {
    /// The state of the chain could not be read.
    StateReadFailed,
    /// The code of the called account.
    CodeRead(AccountCode),
    /// The nonce source failed.
    NonceReadFailed,
    /// The relayer's next available nonce.
    NonceRead(u64),
    /// The gas estimate and the base fee, each `None` where its source failed.
    Estimated { gas: Option<u64>, base_fee: Option<u128> },
    /// The transaction could not be built or signed.
    SigningFailed,
    /// The transaction is signed.
    SignatureMade,
    /// The pool refused the transaction or could not be reached.
    SubmissionFailed,
    /// The pool took the transaction under this hash.
    Accepted(TxHash),
}

/// The counter that a transition bumps by one.
#[derive(Clone, Copy, Debug, PartialEq, Eq)]
pub enum Tally {
    /// Neither counter.
    Unchanged,
    /// The counter of valid calls.
    Valid,
    /// The counter of invalid calls.
    Invalid,
}

/// One transition: the state reached, the action to perform, the counter to bump.
#[derive(Clone, Copy, Debug, PartialEq, Eq)]
pub struct Step {
    pub state: State,
    pub action: Action,
    pub tally: Tally,
}

impl State {
    /// Whether the request has come to its end.
    pub open spec fn is_terminal(self) -> bool {
        self is Submitted || self is Rejected
    }

    /// Whether the request is inside the serialized region: it holds the permit,
    /// from the reading of the nonce to the end of the submission.
    pub open spec fn holds_permit(self) -> bool {
        self is NonceSet || self is FeesComputed || self is Signed
    }

    /// Tells whether the request has come to its end.
    pub fn terminal(&self) -> (r: bool)
        ensures
            r == self.is_terminal(),
    {
        match self {
            State::Submitted(_) => true,
            State::Rejected(_) => true,
            _ => false,
        }
    }

    /// Tells whether the request is inside the serialized region.
    pub fn in_guarded_region(&self) -> (r: bool)
        ensures
            r == self.holds_permit(),
    {
        match self {
            State::NonceSet { .. } => true,
            State::FeesComputed { .. } => true,
            State::Signed { .. } => true,
            _ => false,
        }
    }
}

/// The transition that turns a request down with an error of the gateway and counts
/// the call as invalid.
pub open spec fn rejected(error: OdysseyWalletError) -> Step {
    Step {
        state: State::Rejected(Failure::Wallet(error)),
        action: Action::ReturnError(Failure::Wallet(error)),
        tally: Tally::Invalid,
    }
}

/// The transition that ends a request with a collaborator's own error.
pub open spec fn forwarded(tally: Tally) -> Step {
    Step {
        state: State::Rejected(Failure::Collaborator),
        action: Action::ReturnError(Failure::Collaborator),
        tally,
    }
}

/// The gateway's configuration: the relayer's address and the chain id.
#[derive(Clone, Copy, Debug, PartialEq, Eq)]
pub struct OdysseyWallet {
    sender: Address,
    chain_id: u64,
}

impl OdysseyWallet {
    /// The relayer's address.
    pub closed spec fn spec_sender(&self) -> Address {
        self.sender
    }

    /// The configured chain id.
    pub closed spec fn spec_chain_id(&self) -> u64 {
        self.chain_id
    }

    /// A gateway for a relayer and a chain.
    pub fn new(sender: Address, chain_id: u64) -> (w: OdysseyWallet)
        ensures
            w.spec_sender() == sender,
            w.spec_chain_id() == chain_id,
    {
        OdysseyWallet { sender, chain_id }
    }

    /// The relayer's address, which is the sender and the owner of the nonce of every
    /// sponsored transaction.
    pub fn sender(&self) -> (a: Address)
        ensures
            a == self.spec_sender(),
    {
        self.sender
    }

    /// The configured chain id.
    pub fn chain_id(&self) -> (id: u64)
        ensures
            id == self.spec_chain_id(),
    {
        self.chain_id
    }

    /// The transition into the serialized region.
    pub open spec fn admitted(&self, request: TransactionRequest) -> Step {
        Step {
            state: State::Authorized { request },
            action: Action::AcquirePermitAndReadNonce(self.spec_sender()),
            tally: Tally::Unchanged,
        }
    }

    /// What becomes of a request when it comes in: it is validated, and then let
    /// through, sent to the reading of the destination's code, or turned down, by the
    /// shape of its destination.
    pub open spec fn spec_begin(&self, request: TransactionRequest) -> Step {
        match validation(request) {
            Err(error) => rejected(error),
            Ok(_) => match destination_of(request) {
                Destination::DelegationSetup => self.admitted(request),
                Destination::Call(target) => Step {
                    state: State::Validated { request },
                    action: Action::ReadAccountCode(target),
                    tally: Tally::Unchanged,
                },
                Destination::Disallowed => rejected(OdysseyWalletError::IllegalDestination),
            },
        }
    }

    /// What follows the estimates: a failed gas estimate is the collaborator's error;
    /// an estimate at the ceiling or above is turned down; then a failed fee lookup
    /// is a collaborator's failure and ends the request with `InternalError`; else
    /// the gas limit and the fees are filled in and the request goes to signing.
    pub open spec fn after_estimates(
        request: TransactionRequest,
        gas: Option<u64>,
        base_fee: Option<u128>,
    ) -> Step {
        match gas {
            None => forwarded(Tally::Invalid),
            Some(estimate) => if estimate >= GAS_ESTIMATE_CEILING {
                rejected(OdysseyWalletError::GasEstimateTooHigh { estimate })
            } else {
                match base_fee {
                    None => rejected(OdysseyWalletError::InternalError),
                    Some(fee) => Step {
                        state: State::FeesComputed { request: with_fees(request, estimate, fee) },
                        action: Action::SignTransaction(with_fees(request, estimate, fee)),
                        tally: Tally::Unchanged,
                    },
                }
            },
        }
    }

    /// The transition table. A terminal state stays as it is. An event that the
    /// state does not wait for ends the request with `InternalError`.
    pub open spec fn spec_step(&self, state: State, event: Event) -> Step {
        match (state, event) {
            (State::Validated { request }, Event::CodeRead(code)) => if is_delegated(code) {
                self.admitted(request)
            } else {
                rejected(OdysseyWalletError::IllegalDestination)
            },
            (State::Authorized { request }, Event::NonceRead(nonce)) => Step {
                state: State::NonceSet {
                    request: with_nonce(request, self.spec_sender(), self.spec_chain_id(), nonce),
                },
                action: Action::EstimateGasAndFees(
                    with_nonce(request, self.spec_sender(), self.spec_chain_id(), nonce),
                ),
                tally: Tally::Unchanged,
            },
            (State::Authorized { .. }, Event::NonceReadFailed) => forwarded(Tally::Invalid),
            (State::NonceSet { request }, Event::Estimated { gas, base_fee }) => 
                Self::after_estimates(request, gas, base_fee),
            (State::FeesComputed { request }, Event::SignatureMade) => Step {
                state: State::Signed { request },
                action: Action::SubmitTransaction,
                tally: Tally::Valid,
            },
            (State::FeesComputed { .. }, Event::SigningFailed) => rejected(
                OdysseyWalletError::InvalidTransactionRequest,
            ),
            (State::Signed { .. }, Event::Accepted(hash)) => Step {
                state: State::Submitted(hash),
                action: Action::ReturnHash(hash),
                tally: Tally::Unchanged,
            },
            (State::Signed { .. }, Event::SubmissionFailed) => forwarded(Tally::Unchanged),
            (State::Submitted(hash), _) => Step {
                state,
                action: Action::ReturnHash(hash),
                tally: Tally::Unchanged,
            },
            (State::Rejected(failure), _) => Step {
                state,
                action: Action::ReturnError(failure),
                tally: Tally::Unchanged,
            },
            _ => rejected(OdysseyWalletError::InternalError),
        }
    }

    /// Whether the step can be taken within 128-bit fees: where the fees are filled
    /// in, that is, where an estimate below the ceiling comes with a base fee, the
    /// maximum fee made from it must fit.
    pub open spec fn admits(state: State, event: Event) -> bool {
        state is NonceSet ==> Self::fees_fit(event)
    }

    /// Whether the fees that these estimates call for fit in 128 bits.
    pub open spec fn fees_fit(event: Event) -> bool {
        event matches Event::Estimated { gas: Some(estimate), base_fee: Some(fee) } ==> estimate
            >= GAS_ESTIMATE_CEILING || fee_fits(fee)
    }

    /// Takes a request in.
    ///
    /// The request is validated first. A request that sets a delegation then goes
    /// straight to the serialized region. A call of an account waits for the
    /// account's code. Any other shape is turned down with `IllegalDestination`.
    /// Every rejection counts as an invalid call.
    pub fn begin(&self, request: TransactionRequest) -> (step: Step)
        ensures
            step == self.spec_begin(request),
    {
        match validate_tx_request(&request) {
            Err(error) => turn_down(error),
            Ok(_) => match classify_destination(&request) {
                Destination::DelegationSetup => self.let_in(request),
                Destination::Call(target) => Step {
                    state: State::Validated { request },
                    action: Action::ReadAccountCode(target),
                    tally: Tally::Unchanged,
                },
                Destination::Disallowed => turn_down(OdysseyWalletError::IllegalDestination),
            },
        }
    }

    /// Moves a request on by the result of the action that was asked for.
    ///
    /// The code of a called account lets the request into the serialized region only
    /// where it is a delegation designator for a non-zero address. The nonce that was
    /// read is assigned together with the chain id and the relayer as sender. An
    /// estimate at the ceiling or above ends the request before any fee is set; a
    /// fee lookup that failed ends it with `InternalError`; else the fees are filled
    /// in and the request goes to signing. A transaction that cannot be built or
    /// signed ends the request with `InvalidTransactionRequest`. Signing counts the
    /// call as valid; every rejection before it counts the call as invalid. A failed
    /// submission is the pool's own error and counts as neither.
    ///
    /// The one demand on the caller is that the maximum fee can be written in 128
    /// bits where it is computed; `step_admitted` tests it.
    pub fn step(&self, state: State, event: Event) -> (step: Step)
        requires
            Self::admits(state, event),
        ensures
            step == self.spec_step(state, event),
    {
        match state {
            State::Validated { request } => match event {
                Event::CodeRead(code) => match check_delegation(&code) {
                    Ok(_) => self.let_in(request),
                    Err(error) => turn_down(error),
                },
                _ => turn_down(OdysseyWalletError::InternalError),
            },
            State::Authorized { request } => match event {
                Event::NonceRead(nonce) => {
                    let filled = assign_nonce(request, self.sender, self.chain_id, nonce);
                    Step {
                        state: State::NonceSet { request: filled },
                        action: Action::EstimateGasAndFees(filled),
                        tally: Tally::Unchanged,
                    }
                },
                Event::NonceReadFailed => forward(Tally::Invalid),
                _ => turn_down(OdysseyWalletError::InternalError),
            },
            State::NonceSet { request } => match event {
                Event::Estimated { gas, base_fee } => price(request, gas, base_fee),
                _ => turn_down(OdysseyWalletError::InternalError),
            },
            State::FeesComputed { request } => match event {
                Event::SignatureMade => Step {
                    state: State::Signed { request },
                    action: Action::SubmitTransaction,
                    tally: Tally::Valid,
                },
                Event::SigningFailed => turn_down(OdysseyWalletError::InvalidTransactionRequest),
                _ => turn_down(OdysseyWalletError::InternalError),
            },
            State::Signed { .. } => match event {
                Event::Accepted(hash) => Step {
                    state: State::Submitted(hash),
                    action: Action::ReturnHash(hash),
                    tally: Tally::Unchanged,
                },
                Event::SubmissionFailed => forward(Tally::Unchanged),
                _ => turn_down(OdysseyWalletError::InternalError),
            },
            State::Submitted(hash) => Step {
                state,
                action: Action::ReturnHash(hash),
                tally: Tally::Unchanged,
            },
            State::Rejected(failure) => Step {
                state,
                action: Action::ReturnError(failure),
                tally: Tally::Unchanged,
            },
        }
    }

    fn let_in(&self, request: TransactionRequest) -> (step: Step)
        ensures
            step == self.admitted(request),
    {
        Step {
            state: State::Authorized { request },
            action: Action::AcquirePermitAndReadNonce(self.sender),
            tally: Tally::Unchanged,
        }
    }
}

/// Tells whether a step from this state on this event stays within 128-bit fees.
pub fn step_admitted(state: &State, event: &Event) -> (r: bool)
    ensures
        r == OdysseyWallet::admits(*state, *event),
{
    match state {
        State::NonceSet { .. } => match event {
            Event::Estimated { gas: Some(estimate), base_fee: Some(fee) } => *estimate
                >= GAS_ESTIMATE_CEILING || base_fee_fits(*fee),
            _ => true,
        },
        _ => true,
    }
}

fn turn_down(error: OdysseyWalletError) -> (step: Step)
    ensures
        step == rejected(error),
{
    Step {
        state: State::Rejected(Failure::Wallet(error)),
        action: Action::ReturnError(Failure::Wallet(error)),
        tally: Tally::Invalid,
    }
}

fn forward(tally: Tally) -> (step: Step)
    ensures
        step == forwarded(tally),
{
    Step {
        state: State::Rejected(Failure::Collaborator),
        action: Action::ReturnError(Failure::Collaborator),
        tally,
    }
}

fn price(request: TransactionRequest, gas: Option<u64>, base_fee: Option<u128>) -> (step: Step)
    requires
        OdysseyWallet::fees_fit(Event::Estimated { gas, base_fee }),
    ensures
        step == OdysseyWallet::after_estimates(request, gas, base_fee),
{
    match gas {
        None => forward(Tally::Invalid),
        Some(estimate) => match check_gas_estimate(estimate) {
            Err(error) => turn_down(error),
            Ok(limit) => match base_fee {
                None => turn_down(OdysseyWalletError::InternalError),
                Some(fee) => {
                    let priced = assign_fees(request, limit, fee);
                    Step {
                        state: State::FeesComputed { request: priced },
                        action: Action::SignTransaction(priced),
                        tally: Tally::Unchanged,
                    }
                },
            },
        },
    }
}

} // verus!
