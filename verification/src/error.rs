//! The reasons for which the gateway turns a request down.

use vstd::prelude::*;
use vstd::string::StringExecFns;

verus! {

/// Errors returned by the wallet gateway.
#[derive(Clone, Copy, Debug, PartialEq, Eq, Structural)]
pub enum OdysseyWalletError {
    /// The transaction value is not 0.
    ///
    /// The value must be 0 so that the relayer's funds cannot be drained.
    ValueNotZero,
    /// The sender field is set on the request.
    ///
    /// The sender is always the relayer.
    FromSet,
    /// The nonce field is set on the request.
    ///
    /// The nonce is managed by the gateway.
    NonceSet,
    /// The destination is not a delegated account.
    IllegalDestination,
    /// The filled request could not be assembled or signed.
    InvalidTransactionRequest,
    /// The request was estimated to consume too much gas.
    GasEstimateTooHigh {
        /// The amount of gas the request was estimated to consume.
        estimate: u64,
    },
    /// A collaborator failed for a reason unrelated to the request.
    InternalError,
}

/// The character of a decimal digit.
pub open spec fn digit(d: nat) -> char {
    if d == 0 {
        '0'
    } else if d == 1 {
        '1'
    } else if d == 2 {
        '2'
    } else if d == 3 {
        '3'
    } else if d == 4 {
        '4'
    } else if d == 5 {
        '5'
    } else if d == 6 {
        '6'
    } else if d == 7 {
        '7'
    } else if d == 8 {
        '8'
    } else {
        '9'
    }
}

/// A number written in base ten, without leading zeros.
pub open spec fn decimal(n: nat) -> Seq<char>
    decreases n,
{
    if n < 10 {
        seq![digit(n)]
    } else {
        decimal(n / 10).push(digit(n % 10))
    }
}

/// The text that tells a caller why the request was turned down.
pub open spec fn message_of(error: OdysseyWalletError) -> Seq<char> {
    match error {
        OdysseyWalletError::ValueNotZero => "tx value not zero"@,
        OdysseyWalletError::FromSet => "tx from field is set"@,
        OdysseyWalletError::NonceSet => "tx nonce is set"@,
        OdysseyWalletError::IllegalDestination =>
            "the destination of the transaction is not a delegated account"@,
        OdysseyWalletError::InvalidTransactionRequest => "invalid tx request"@,
        OdysseyWalletError::GasEstimateTooHigh { estimate } =>
            "request would use too much gas: estimated "@ + decimal(estimate as nat),
        OdysseyWalletError::InternalError => "internal error"@,
    }
}

fn digit_text(d: u64) -> (text: &'static str)
    requires
        d < 10,
    ensures
        text@ == seq![digit(d as nat)],
{
    proof {
        reveal_strlit("0");
        reveal_strlit("1");
        reveal_strlit("2");
        reveal_strlit("3");
        reveal_strlit("4");
        reveal_strlit("5");
        reveal_strlit("6");
        reveal_strlit("7");
        reveal_strlit("8");
        reveal_strlit("9");
    }
    let text = if d == 0 {
        "0"
    } else if d == 1 {
        "1"
    } else if d == 2 {
        "2"
    } else if d == 3 {
        "3"
    } else if d == 4 {
        "4"
    } else if d == 5 {
        "5"
    } else if d == 6 {
        "6"
    } else if d == 7 {
        "7"
    } else if d == 8 {
        "8"
    } else {
        "9"
    };
    assert(text@ =~= seq![digit(d as nat)]);
    text
}

/// Appends a number to a text, in base ten.
pub fn push_decimal(text: &mut String, n: u64)
    ensures
        final(text)@ == old(text)@ + decimal(n as nat),
    decreases n,
{
    if n >= 10 {
        push_decimal(text, n / 10);
    }
    let ghost before = text@;
    text.append(digit_text(n % 10));
    proof {
        if n >= 10 {
            assert(before + seq![digit((n % 10) as nat)] =~= old(text)@ + decimal(
                (n / 10) as nat,
            ).push(digit((n % 10) as nat)));
        }
    }
}

impl OdysseyWalletError {
    /// The text that tells a caller why the request was turned down. For an
    /// estimate that is too high it ends with the estimate in base ten.
    pub fn message(&self) -> (text: String)
        ensures
            text@ == message_of(*self),
    {
        match self {
            OdysseyWalletError::ValueNotZero => String::from_str("tx value not zero"),
            OdysseyWalletError::FromSet => String::from_str("tx from field is set"),
            OdysseyWalletError::NonceSet => String::from_str("tx nonce is set"),
            OdysseyWalletError::IllegalDestination => String::from_str(
                "the destination of the transaction is not a delegated account",
            ),
            OdysseyWalletError::InvalidTransactionRequest => String::from_str(
                "invalid tx request",
            ),
            OdysseyWalletError::GasEstimateTooHigh { estimate } => {
                let mut text = String::from_str("request would use too much gas: estimated ");
                push_decimal(&mut text, *estimate);
                text
            },
            OdysseyWalletError::InternalError => String::from_str("internal error"),
        }
    }
}

} // verus!
