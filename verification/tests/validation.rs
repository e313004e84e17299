use odyssey_wallet::{validate_tx_request, Address, OdysseyWalletError, TransactionRequest, U256};

#[test]
fn no_value_allowed() {
    assert_eq!(
        validate_tx_request(&TransactionRequest::default().value(U256::from(1))),
        Err(OdysseyWalletError::ValueNotZero)
    );

    assert_eq!(validate_tx_request(&TransactionRequest::default().value(U256::from(0))), Ok(()));
}

#[test]
fn no_from_allowed() {
    assert_eq!(
        validate_tx_request(&TransactionRequest::default().from(Address::zero())),
        Err(OdysseyWalletError::FromSet)
    );

    assert_eq!(validate_tx_request(&TransactionRequest::default()), Ok(()));
}

#[test]
fn no_nonce_allowed() {
    assert_eq!(
        validate_tx_request(&TransactionRequest::default().nonce(1)),
        Err(OdysseyWalletError::NonceSet)
    );

    assert_eq!(validate_tx_request(&TransactionRequest::default()), Ok(()));
}

#[test]
fn values_written_with_the_chain_types() {
    let one = U256::from_limbs(alloy_primitives::U256::from(1).into_limbs());
    assert_eq!(one, U256::from(1));
    assert_eq!(
        validate_tx_request(&TransactionRequest::default().value(one)),
        Err(OdysseyWalletError::ValueNotZero)
    );
    let zero = U256::from_limbs(alloy_primitives::U256::ZERO.into_limbs());
    assert_eq!(zero, U256::zero());
    assert_eq!(validate_tx_request(&TransactionRequest::default().value(zero)), Ok(()));
    let sender = Address::new(alloy_primitives::Address::ZERO.into_array());
    assert_eq!(sender, Address::zero());
    assert_eq!(
        validate_tx_request(&TransactionRequest::default().from(sender)),
        Err(OdysseyWalletError::FromSet)
    );
}

#[test]
fn value_in_a_high_limb_is_positive() {
    for i in 0..4 {
        let mut limbs = [0u64; 4];
        limbs[i] = 1;
        let value = U256::from_limbs(limbs);
        assert!(!value.is_zero());
        assert_eq!(
            validate_tx_request(&TransactionRequest::default().value(value)),
            Err(OdysseyWalletError::ValueNotZero)
        );
    }
    let huge = U256::from_limbs(alloy_primitives::U256::MAX.into_limbs());
    assert_eq!(
        validate_tx_request(&TransactionRequest::default().value(huge)),
        Err(OdysseyWalletError::ValueNotZero)
    );
    assert!(U256::zero().is_zero());
}

#[test]
fn value_is_reported_before_sender_and_nonce() {
    let request = TransactionRequest::default().value(U256::from(5)).from(Address::zero()).nonce(3);
    assert_eq!(validate_tx_request(&request), Err(OdysseyWalletError::ValueNotZero));
}

#[test]
fn sender_is_reported_before_nonce() {
    let request = TransactionRequest::default().value(U256::from(0)).from(Address::zero()).nonce(3);
    assert_eq!(validate_tx_request(&request), Err(OdysseyWalletError::FromSet));
}

#[test]
fn sender_set_fails_whatever_else_is_set() {
    let mut sender = [0u8; 20];
    sender[19] = 7;
    let base = TransactionRequest::default().from(Address::new(sender));
    assert!(validate_tx_request(&base).is_err());
    assert!(validate_tx_request(&base.nonce(0)).is_err());
    assert!(validate_tx_request(&base.value(U256::from(9))).is_err());
    assert!(validate_tx_request(&base.to(Address::zero())).is_err());
}

#[test]
fn nonce_zero_counts_as_set() {
    assert_eq!(
        validate_tx_request(&TransactionRequest::default().nonce(0)),
        Err(OdysseyWalletError::NonceSet)
    );
}

#[test]
fn address_is_zero_looks_at_every_byte() {
    assert!(Address::zero().is_zero());
    for i in 0..20 {
        let mut bytes = [0u8; 20];
        bytes[i] = 1;
        assert!(!Address::new(bytes).is_zero());
    }
}

#[test]
fn messages_are_exact() {
    assert_eq!(OdysseyWalletError::ValueNotZero.message(), "tx value not zero");
    assert_eq!(OdysseyWalletError::FromSet.message(), "tx from field is set");
    assert_eq!(OdysseyWalletError::NonceSet.message(), "tx nonce is set");
    assert_eq!(
        OdysseyWalletError::IllegalDestination.message(),
        "the destination of the transaction is not a delegated account"
    );
    assert_eq!(OdysseyWalletError::InvalidTransactionRequest.message(), "invalid tx request");
    assert_eq!(OdysseyWalletError::InternalError.message(), "internal error");
    assert_eq!(
        OdysseyWalletError::GasEstimateTooHigh { estimate: 350_000 }.message(),
        "request would use too much gas: estimated 350000"
    );
    assert_eq!(
        OdysseyWalletError::GasEstimateTooHigh { estimate: 0 }.message(),
        "request would use too much gas: estimated 0"
    );
    assert_eq!(
        OdysseyWalletError::GasEstimateTooHigh { estimate: u64::MAX }.message(),
        "request would use too much gas: estimated 18446744073709551615"
    );
}

#[test]
fn decimal_text_matches_std() {
    for n in [0u64, 9, 10, 11, 99, 100, 1_000_000_007, u64::MAX - 1] {
        let mut text = String::from("n=");
        odyssey_wallet::error::push_decimal(&mut text, n);
        assert_eq!(text, format!("n={}", n));
    }
}
