//! Sponsorship gateway for transactions of delegated accounts.
//!
//! A relayer signs and pays for a transaction on behalf of an account that has
//! delegated its code. This crate holds the rules of that gateway: which requests
//! are admitted, which destinations are authorized, how the relayer's nonce and the
//! fee fields are filled in, and the cap on the estimated gas. The rules are written
//! as a state machine whose transitions are functions with proved contracts.
//! The caller performs the requested action (a state read, a gas estimate, signing,
//! submission) and hands its result back as an event.

pub mod primitives;
pub mod error;
pub mod request;
pub mod validate;
pub mod authorize;
pub mod fees;
pub mod pipeline;
pub mod laws;
pub mod serial;

pub use crate::authorize::{check_delegation, classify_destination, AccountCode, Destination};
pub use crate::error::OdysseyWalletError;
pub use crate::fees::{
    assign_fees, assign_nonce, base_fee_fits, check_gas_estimate, GAS_ESTIMATE_CEILING,
    PRIORITY_FEE_PER_GAS,
};
pub use crate::pipeline::{
    step_admitted, Action, Event, Failure, OdysseyWallet, State, Step, Tally,
};
pub use crate::primitives::{Address, TxHash, TxKind, U256};
pub use crate::request::{DelegationCapability, TransactionRequest};
pub use crate::validate::validate_tx_request;
