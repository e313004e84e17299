//! What holds of the gateway as a whole, proved from the transition table.

use vstd::prelude::*;
use crate::authorize::{destination_of, is_delegated, AccountCode, Destination};
use crate::error::OdysseyWalletError;
use crate::fees::{with_nonce, GAS_ESTIMATE_CEILING, PRIORITY_FEE_PER_GAS};
use crate::pipeline::{rejected, Action, Event, Failure, OdysseyWallet, State, Tally};
use crate::request::TransactionRequest;
use crate::validate::{moves_value, validation};

verus! {

/// What holds of a request once the relayer's nonce is assigned: it moves no value,
/// its sender is the relayer, and its chain id is the configured one.
pub open spec fn sponsored(wallet: OdysseyWallet, request: TransactionRequest) -> bool {
    &&& !moves_value(request)
    &&& request.from == Some(wallet.spec_sender())
    &&& request.chain_id == Some(wallet.spec_chain_id())
    &&& request.nonce is Some
}

/// What holds of a request that goes to signing: it is sponsored, its gas limit is
/// below the ceiling, its tip is the fixed priority fee, its maximum fee is at least
/// the tip, and it has no legacy gas price.
pub open spec fn priced(wallet: OdysseyWallet, request: TransactionRequest) -> bool {
    &&& sponsored(wallet, request)
    &&& request.gas matches Some(limit) && limit < GAS_ESTIMATE_CEILING
    &&& request.max_priority_fee_per_gas == Some(PRIORITY_FEE_PER_GAS)
    &&& request.max_fee_per_gas matches Some(most) && most >= PRIORITY_FEE_PER_GAS
    &&& request.gas_price is None
}

/// What holds of every state that a request can reach.
pub open spec fn consistent(wallet: OdysseyWallet, state: State) -> bool {
    match state {
        State::Validated { request } => validation(request) is Ok && destination_of(
            request,
        ) is Call,
        State::Authorized { request } => validation(request) is Ok,
        State::NonceSet { request } => sponsored(wallet, request),
        State::FeesComputed { request } => priced(wallet, request),
        State::Signed { request } => priced(wallet, request),
        _ => true,
    }
}

/// A request that moves a positive value is turned down with `ValueNotZero`, whatever
/// its other fields; one with a value of zero or none, and no sender and no nonce,
/// passes.
pub proof fn value_rule(request: TransactionRequest)
    ensures
        moves_value(request) ==> validation(request) == Err::<(), OdysseyWalletError>(
            OdysseyWalletError::ValueNotZero,
        ),
        !moves_value(request) && request.from is None && request.nonce is None ==> validation(
            request,
        ) is Ok,
{
}

/// A request that names a sender never passes validation, and is turned down with
/// `FromSet` unless it also moves a positive value, which is reported first.
pub proof fn sender_rule(request: TransactionRequest)
    requires
        request.from is Some,
    ensures
        validation(request) is Err,
        !moves_value(request) ==> validation(request) == Err::<(), OdysseyWalletError>(
            OdysseyWalletError::FromSet,
        ),
{
}

/// A request that names a nonce never passes validation, and is turned down with
/// `NonceSet` unless it also moves a positive value or names a sender, which are
/// reported first.
pub proof fn nonce_rule(request: TransactionRequest)
    requires
        request.nonce is Some,
    ensures
        validation(request) is Err,
        !moves_value(request) && request.from is None ==> validation(request) == Err::<
            (),
            OdysseyWalletError,
        >(OdysseyWalletError::NonceSet),
{
}

/// A request that is turned down at validation causes no action but the return of
/// its error: no state is read and no nonce is taken.
pub proof fn invalid_request_touches_nothing(wallet: OdysseyWallet, request: TransactionRequest)
    requires
        validation(request) is Err,
    ensures
        wallet.spec_begin(request) == rejected(validation(request)->Err_0),
        wallet.spec_begin(request).state.is_terminal(),
{
}

/// A valid request that sets a delegation goes on to the serialized region whatever
/// its destination.
pub proof fn delegation_setup_passes(wallet: OdysseyWallet, request: TransactionRequest)
    requires
        validation(request) is Ok,
        request.has_authorization_list,
    ensures
        wallet.spec_begin(request) == wallet.admitted(request),
        wallet.spec_begin(request).state == (State::Authorized { request }),
{
}

/// A valid request without an authorization list that is no call of an account is
/// turned down with `IllegalDestination`, and a call waits for the account's code.
pub proof fn other_shapes(wallet: OdysseyWallet, request: TransactionRequest)
    requires
        validation(request) is Ok,
        !request.has_authorization_list,
    ensures
        destination_of(request) matches Destination::Call(target) ==> wallet.spec_begin(
            request,
        ).action == Action::ReadAccountCode(target),
        destination_of(request) is Disallowed ==> wallet.spec_begin(request) == rejected(
            OdysseyWalletError::IllegalDestination,
        ),
{
}

/// A call goes on to the serialized region if and only if the code of the called
/// account is a delegation designator for a non-zero address. With no code, with
/// other code and with a designator for the zero address it is turned down with
/// `IllegalDestination`; where the state could not be read, with `InternalError`.
pub proof fn call_needs_delegation(
    wallet: OdysseyWallet,
    request: TransactionRequest,
    code: AccountCode,
)
    ensures
        is_delegated(code) ==> wallet.spec_step(
            State::Validated { request },
            Event::CodeRead(code),
        ) == wallet.admitted(request),
        !is_delegated(code) ==> wallet.spec_step(
            State::Validated { request },
            Event::CodeRead(code),
        ) == rejected(OdysseyWalletError::IllegalDestination),
        !is_delegated(AccountCode::Absent),
        !is_delegated(AccountCode::Plain),
        wallet.spec_step(State::Validated { request }, Event::StateReadFailed) == rejected(
            OdysseyWalletError::InternalError,
        ),
{
}

/// An estimate at the ceiling or above is turned down with `GasEstimateTooHigh`,
/// which carries the estimate, whatever the fee lookup gave, and nothing goes to
/// signing. An estimate below the ceiling is never turned down with that error: with
/// a base fee the request goes to signing with the estimate as its gas limit, and
/// with a failed fee lookup the request ends with `InternalError`.
pub proof fn gas_cap(
    wallet: OdysseyWallet,
    request: TransactionRequest,
    estimate: u64,
    base_fee: Option<u128>,
)
    ensures
        estimate >= 350_000 ==> wallet.spec_step(
            State::NonceSet { request },
            Event::Estimated { gas: Some(estimate), base_fee },
        ) == rejected(OdysseyWalletError::GasEstimateTooHigh { estimate }),
        estimate < 350_000 ==> !(wallet.spec_step(
            State::NonceSet { request },
            Event::Estimated { gas: Some(estimate), base_fee },
        ).state matches State::Rejected(
            Failure::Wallet(OdysseyWalletError::GasEstimateTooHigh { .. }),
        )),
        estimate < 350_000 && base_fee is Some ==> (wallet.spec_step(
            State::NonceSet { request },
            Event::Estimated { gas: Some(estimate), base_fee },
        ).action matches Action::SignTransaction(priced) && priced.gas == Some(estimate)
            && wallet.spec_step(
            State::NonceSet { request },
            Event::Estimated { gas: Some(estimate), base_fee },
        ).state == (State::FeesComputed { request: priced })),
        estimate < 350_000 && base_fee is None ==> wallet.spec_step(
            State::NonceSet { request },
            Event::Estimated { gas: Some(estimate), base_fee },
        ) == rejected(OdysseyWalletError::InternalError),
{
}

/// A collaborator that fails while the gateway reads from it, be it the state of the
/// chain or the fee market, ends the request with `InternalError`, and the call
/// counts as invalid; nothing is signed.
pub proof fn failed_reads_are_internal(
    wallet: OdysseyWallet,
    request: TransactionRequest,
    estimate: u64,
)
    requires
        estimate < 350_000,
    ensures
        wallet.spec_step(State::Validated { request }, Event::StateReadFailed) == rejected(
            OdysseyWalletError::InternalError,
        ),
        wallet.spec_step(
            State::NonceSet { request },
            Event::Estimated { gas: Some(estimate), base_fee: None },
        ) == rejected(OdysseyWalletError::InternalError),
        rejected(OdysseyWalletError::InternalError).state.is_terminal(),
        rejected(OdysseyWalletError::InternalError).tally == Tally::Invalid,
{
}

/// The nonce that a request carries is the one that was read for it while it waited
/// at the entry of the serialized region, and it is assigned nowhere else: a state
/// that holds the permit is entered only by that reading, or from a state that held
/// the permit already.
pub proof fn nonce_assigned_under_permit(wallet: OdysseyWallet, state: State, event: Event)
    ensures
        wallet.spec_step(state, event).state.holds_permit() ==> state.holds_permit() || (
        state matches State::Authorized { request } && event matches Event::NonceRead(nonce)
            && wallet.spec_step(state, event).state == (State::NonceSet {
            request: with_nonce(request, wallet.spec_sender(), wallet.spec_chain_id(), nonce),
        })),
        wallet.spec_step(state, event).action is AcquirePermitAndReadNonce
            ==> state is Validated && wallet.spec_step(state, event).state is Authorized,
{
}

/// No request holds the permit when it has just come in: validation and the check of
/// the destination run outside the serialized region.
pub proof fn begin_outside_permit(wallet: OdysseyWallet, request: TransactionRequest)
    ensures
        !wallet.spec_begin(request).state.holds_permit(),
        forall|event: Event|
            wallet.spec_begin(request).state is Validated ==> !(#[trigger] wallet.spec_step(
                wallet.spec_begin(request).state,
                event,
            )).state.holds_permit(),
{
}

/// The permit is given back at the end and only there: a transition out of the
/// serialized region ends in a terminal state, whose action is a return, and a
/// terminal state holds no permit and stays as it is.
pub proof fn permit_released_at_the_end(wallet: OdysseyWallet, state: State, event: Event)
    ensures
        state.holds_permit() && !wallet.spec_step(state, event).state.holds_permit()
            ==> wallet.spec_step(state, event).state.is_terminal(),
        wallet.spec_step(state, event).state.is_terminal() <==> (wallet.spec_step(
            state,
            event,
        ).action is ReturnHash || wallet.spec_step(state, event).action is ReturnError),
        state.is_terminal() ==> !state.holds_permit() && wallet.spec_step(state, event).state
            == state,
{
}

/// The counters: a call counts as valid exactly when its transaction is signed, and
/// as invalid exactly when a request that was still under way ends in failure
/// before that; a failed submission bumps neither.
pub proof fn counters(wallet: OdysseyWallet, state: State, event: Event)
    ensures
        wallet.spec_step(state, event).tally == Tally::Valid <==> state is FeesComputed
            && event is SignatureMade,
        wallet.spec_step(state, event).tally == Tally::Invalid <==> !state.is_terminal()
            && wallet.spec_step(state, event).state is Rejected && !(state is Signed
            && event is SubmissionFailed),
        wallet.spec_step(state, event).tally == Tally::Invalid ==> !(wallet.spec_step(
            state,
            event,
        ).state is Submitted),
{
}

/// Every request that comes in reaches a consistent state.
pub proof fn begin_is_consistent(wallet: OdysseyWallet, request: TransactionRequest)
    ensures
        consistent(wallet, wallet.spec_begin(request).state),
        wallet.spec_begin(request).tally == Tally::Invalid <==> wallet.spec_begin(
            request,
        ).state is Rejected,
        wallet.spec_begin(request).tally != Tally::Valid,
{
}

/// Every transition keeps the state consistent, and what is handed out for
/// estimation or for signing is the request of the state reached. So whatever the
/// relayer signs moves no value, comes from the relayer, carries the nonce read
/// under the permit, and has a gas limit below the ceiling.
pub proof fn step_is_consistent(wallet: OdysseyWallet, state: State, event: Event)
    requires
        consistent(wallet, state),
        OdysseyWallet::admits(state, event),
    ensures
        consistent(wallet, wallet.spec_step(state, event).state),
        wallet.spec_step(state, event).action matches Action::EstimateGasAndFees(request)
            ==> wallet.spec_step(state, event).state == (State::NonceSet { request })
            && sponsored(wallet, request),
        wallet.spec_step(state, event).action matches Action::SignTransaction(request)
            ==> wallet.spec_step(state, event).state == (State::FeesComputed { request })
            && priced(wallet, request),
        wallet.spec_step(state, event).action is SubmitTransaction ==> state is FeesComputed,
{
}

/// How far a request has come, and how often it has bumped each counter.
pub struct Progress {
    /// Where the request stands.
    pub state: State,
    /// How often the counter of valid calls was bumped.
    pub valid: nat,
    /// How often the counter of invalid calls was bumped.
    pub invalid: nat,
}

/// The counters after one more transition.
pub open spec fn counted(before: Progress, state: State, tally: Tally) -> Progress {
    Progress {
        state,
        valid: if tally == Tally::Valid {
            before.valid + 1
        } else {
            before.valid
        },
        invalid: if tally == Tally::Invalid {
            before.invalid + 1
        } else {
            before.invalid
        },
    }
}

/// Where a request stands, and what it has counted, once it has come in and the
/// events have been handed to it one after the other.
pub open spec fn progress(
    wallet: OdysseyWallet,
    request: TransactionRequest,
    events: Seq<Event>,
) -> Progress
    decreases events.len(),
{
    if events.len() == 0 {
        counted(
            Progress { state: wallet.spec_begin(request).state, valid: 0, invalid: 0 },
            wallet.spec_begin(request).state,
            wallet.spec_begin(request).tally,
        )
    } else {
        let before = progress(wallet, request, events.drop_last());
        let step = wallet.spec_step(before.state, events.last());
        counted(before, step.state, step.tally)
    }
}

/// What the counters show of a request, by where it stands.
pub open spec fn tallied(progress: Progress) -> bool {
    match progress.state {
        State::Signed { .. } => progress.valid == 1 && progress.invalid == 0,
        State::Submitted(_) => progress.valid == 1 && progress.invalid == 0,
        State::Rejected(Failure::Wallet(_)) => progress.valid <= 1 && progress.invalid == 1,
        State::Rejected(Failure::Collaborator) => progress.valid + progress.invalid == 1,
        _ => progress.valid == 0 && progress.invalid == 0,
    }
}

/// Whatever events a request meets, each counter is bumped at most once for it. A
/// request whose transaction is submitted has counted as valid once and never as
/// invalid; one that the gateway turned down has counted as invalid once; one that
/// is still on its way to signing has counted as nothing.
pub proof fn counters_along_a_run(
    wallet: OdysseyWallet,
    request: TransactionRequest,
    events: Seq<Event>,
)
    ensures
        tallied(progress(wallet, request, events)),
        progress(wallet, request, events).valid <= 1,
        progress(wallet, request, events).invalid <= 1,
        progress(wallet, request, events).state is Submitted ==> progress(
            wallet,
            request,
            events,
        ).valid == 1 && progress(wallet, request, events).invalid == 0,
    decreases events.len(),
{
    if events.len() > 0 {
        counters_along_a_run(wallet, request, events.drop_last());
    }
}

/// A request that was turned down at validation stays turned down whatever events
/// follow: its state is the rejection with the error of the first rule broken.
pub proof fn rejection_is_final(
    wallet: OdysseyWallet,
    request: TransactionRequest,
    events: Seq<Event>,
)
    requires
        validation(request) is Err,
    ensures
        progress(wallet, request, events).state == State::Rejected(
            Failure::Wallet(validation(request)->Err_0),
        ),
        progress(wallet, request, events).invalid == 1,
        progress(wallet, request, events).valid == 0,
    decreases events.len(),
{
    if events.len() > 0 {
        rejection_is_final(wallet, request, events.drop_last());
    }
}

/// Whether each event of a run could be handed to the gateway within 128-bit fees.
pub open spec fn admitted_run(
    wallet: OdysseyWallet,
    request: TransactionRequest,
    events: Seq<Event>,
) -> bool
    decreases events.len(),
{
    events.len() == 0 || (admitted_run(wallet, request, events.drop_last())
        && OdysseyWallet::admits(
        progress(wallet, request, events.drop_last()).state,
        events.last(),
    ))
}

/// Whatever events a request meets, it stands in a consistent state. In particular a
/// request that is being signed or submitted moves no value, comes from the relayer
/// on the configured chain, and has a gas limit below the ceiling and the fixed tip.
pub proof fn every_run_is_consistent(
    wallet: OdysseyWallet,
    request: TransactionRequest,
    events: Seq<Event>,
)
    requires
        admitted_run(wallet, request, events),
    ensures
        consistent(wallet, progress(wallet, request, events).state),
    decreases events.len(),
{
    if events.len() > 0 {
        every_run_is_consistent(wallet, request, events.drop_last());
        step_is_consistent(
            wallet,
            progress(wallet, request, events.drop_last()).state,
            events.last(),
        );
    } else {
        begin_is_consistent(wallet, request);
    }
}

} // verus!
