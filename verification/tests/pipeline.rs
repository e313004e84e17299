use odyssey_wallet::{
    assign_fees, assign_nonce, base_fee_fits, check_delegation, check_gas_estimate,
    classify_destination, step_admitted, AccountCode, Action, Address, Destination, Event,
    Failure, OdysseyWallet, OdysseyWalletError, State, Step, Tally, TransactionRequest, TxHash,
    TxKind, U256, GAS_ESTIMATE_CEILING, PRIORITY_FEE_PER_GAS,
};

fn addr(last: u8) -> Address {
    let mut bytes = [0u8; 20];
    bytes[19] = last;
    Address::new(bytes)
}

fn relayer() -> OdysseyWallet {
    OdysseyWallet::new(addr(0xaa), 911)
}

fn rejected(error: OdysseyWalletError) -> Step {
    Step {
        state: State::Rejected(Failure::Wallet(error)),
        action: Action::ReturnError(Failure::Wallet(error)),
        tally: Tally::Invalid,
    }
}

fn call_of(target: Address) -> TransactionRequest {
    TransactionRequest::default().to(target).value(U256::from(0))
}

#[test]
fn configuration_is_kept() {
    let wallet = relayer();
    assert_eq!(wallet.sender(), addr(0xaa));
    assert_eq!(wallet.chain_id(), 911);
}

#[test]
fn constants() {
    assert_eq!(GAS_ESTIMATE_CEILING, 350_000);
    assert_eq!(PRIORITY_FEE_PER_GAS, 1_000_000_000);
}

#[test]
fn sponsored_call_end_to_end() {
    let wallet = relayer();
    let account = addr(1);
    let contract = addr(2);
    let request = call_of(account);
    let mut valid = 0u64;
    let mut invalid = 0u64;
    let mut count = |tally: Tally| match tally {
        Tally::Valid => valid += 1,
        Tally::Invalid => invalid += 1,
        Tally::Unchanged => {}
    };

    let step = wallet.begin(request);
    count(step.tally);
    assert_eq!(step.state, State::Validated { request });
    assert_eq!(step.action, Action::ReadAccountCode(account));
    assert!(!step.state.in_guarded_region());

    let step = wallet.step(step.state, Event::CodeRead(AccountCode::Delegation(contract)));
    count(step.tally);
    assert_eq!(step.state, State::Authorized { request });
    assert_eq!(step.action, Action::AcquirePermitAndReadNonce(addr(0xaa)));

    let step = wallet.step(step.state, Event::NonceRead(42));
    count(step.tally);
    let filled = TransactionRequest {
        nonce: Some(42),
        chain_id: Some(911),
        from: Some(addr(0xaa)),
        ..request
    };
    assert_eq!(step.state, State::NonceSet { request: filled });
    assert_eq!(step.action, Action::EstimateGasAndFees(filled));
    assert!(step.state.in_guarded_region());

    let event = Event::Estimated { gas: Some(21_000), base_fee: Some(7) };
    assert!(step_admitted(&step.state, &event));
    let step = wallet.step(step.state, event);
    count(step.tally);
    let priced = TransactionRequest {
        gas: Some(21_000),
        max_fee_per_gas: Some(1_000_000_007),
        max_priority_fee_per_gas: Some(1_000_000_000),
        gas_price: None,
        ..filled
    };
    assert_eq!(step.state, State::FeesComputed { request: priced });
    assert_eq!(step.action, Action::SignTransaction(priced));

    let step = wallet.step(step.state, Event::SignatureMade);
    count(step.tally);
    assert_eq!(step.state, State::Signed { request: priced });
    assert_eq!(step.action, Action::SubmitTransaction);
    assert_eq!(step.tally, Tally::Valid);
    assert!(step.state.in_guarded_region());

    let hash = TxHash::new([9u8; 32]);
    let step = wallet.step(step.state, Event::Accepted(hash));
    count(step.tally);
    assert_eq!(step.state, State::Submitted(hash));
    assert_eq!(step.action, Action::ReturnHash(hash));
    assert!(step.state.terminal());
    assert!(!step.state.in_guarded_region());

    assert_eq!(valid, 1);
    assert_eq!(invalid, 0);
}

#[test]
fn value_of_one_is_rejected_at_once() {
    let wallet = relayer();
    let request = TransactionRequest::default().to(addr(1)).value(U256::from(1));
    let step = wallet.begin(request);
    assert_eq!(step, rejected(OdysseyWalletError::ValueNotZero));
    assert!(step.state.terminal());
    assert!(!step.state.in_guarded_region());
}

#[test]
fn begin_reports_sender_and_nonce() {
    let wallet = relayer();
    assert_eq!(
        wallet.begin(call_of(addr(1)).from(addr(3))),
        rejected(OdysseyWalletError::FromSet)
    );
    assert_eq!(wallet.begin(call_of(addr(1)).nonce(5)), rejected(OdysseyWalletError::NonceSet));
}

#[test]
fn destinations_are_classified() {
    let call = TransactionRequest::default().to(addr(1));
    assert_eq!(classify_destination(&call), Destination::Call(addr(1)));
    let create = TransactionRequest { to: Some(TxKind::Create), ..TransactionRequest::default() };
    assert_eq!(classify_destination(&create), Destination::Disallowed);
    assert_eq!(classify_destination(&TransactionRequest::default()), Destination::Disallowed);
    let setup = TransactionRequest { has_authorization_list: true, ..create };
    assert_eq!(classify_destination(&setup), Destination::DelegationSetup);
    let setup = TransactionRequest { has_authorization_list: true, ..call };
    assert_eq!(classify_destination(&setup), Destination::DelegationSetup);
}

#[test]
fn creation_and_missing_destination_are_illegal() {
    let wallet = relayer();
    let create = TransactionRequest { to: Some(TxKind::Create), ..TransactionRequest::default() };
    assert_eq!(wallet.begin(create), rejected(OdysseyWalletError::IllegalDestination));
    assert_eq!(
        wallet.begin(TransactionRequest::default()),
        rejected(OdysseyWalletError::IllegalDestination)
    );
}

#[test]
fn delegation_setup_passes_whatever_the_destination() {
    let wallet = relayer();
    let none = TransactionRequest { has_authorization_list: true, ..TransactionRequest::default() };
    let create = TransactionRequest { to: Some(TxKind::Create), ..none };
    let call = none.to(addr(4));
    for request in [none, create, call] {
        let step = wallet.begin(request);
        assert_eq!(step.state, State::Authorized { request });
        assert_eq!(step.action, Action::AcquirePermitAndReadNonce(addr(0xaa)));
        assert_eq!(step.tally, Tally::Unchanged);
    }
    assert_eq!(
        wallet.begin(none.value(U256::from(1))),
        rejected(OdysseyWalletError::ValueNotZero)
    );
}

#[test]
fn code_that_is_no_delegation_is_illegal() {
    assert_eq!(check_delegation(&AccountCode::Absent), Err(OdysseyWalletError::IllegalDestination));
    assert_eq!(check_delegation(&AccountCode::Plain), Err(OdysseyWalletError::IllegalDestination));
    assert_eq!(
        check_delegation(&AccountCode::Delegation(Address::zero())),
        Err(OdysseyWalletError::IllegalDestination)
    );
    assert_eq!(check_delegation(&AccountCode::Delegation(addr(2))), Ok(()));

    let wallet = relayer();
    let request = call_of(addr(1));
    let state = State::Validated { request };
    for code in [AccountCode::Absent, AccountCode::Plain, AccountCode::Delegation(Address::zero())] {
        assert_eq!(
            wallet.step(state, Event::CodeRead(code)),
            rejected(OdysseyWalletError::IllegalDestination)
        );
    }
    let step = wallet.step(state, Event::CodeRead(AccountCode::Delegation(addr(2))));
    assert_eq!(step.state, State::Authorized { request });
}

#[test]
fn failed_state_read_is_an_internal_error() {
    let wallet = relayer();
    let state = State::Validated { request: call_of(addr(1)) };
    assert_eq!(
        wallet.step(state, Event::StateReadFailed),
        rejected(OdysseyWalletError::InternalError)
    );
}

#[test]
fn failed_nonce_read_passes_the_collaborator_error_on() {
    let wallet = relayer();
    let state = State::Authorized { request: call_of(addr(1)) };
    let step = wallet.step(state, Event::NonceReadFailed);
    assert_eq!(step.state, State::Rejected(Failure::Collaborator));
    assert_eq!(step.action, Action::ReturnError(Failure::Collaborator));
    assert_eq!(step.tally, Tally::Invalid);
}

#[test]
fn nonce_chain_id_and_sender_are_filled() {
    let request = call_of(addr(1));
    let filled = assign_nonce(request, addr(0xaa), 5, 17);
    assert_eq!(filled.nonce, Some(17));
    assert_eq!(filled.chain_id, Some(5));
    assert_eq!(filled.from, Some(addr(0xaa)));
    assert_eq!(filled.to, request.to);
    assert_eq!(filled.value, request.value);
    assert_eq!(filled.gas, None);
}

#[test]
fn gas_cap_is_at_the_threshold() {
    assert_eq!(check_gas_estimate(349_999), Ok(349_999));
    assert_eq!(
        check_gas_estimate(350_000),
        Err(OdysseyWalletError::GasEstimateTooHigh { estimate: 350_000 })
    );
    assert_eq!(
        check_gas_estimate(350_001),
        Err(OdysseyWalletError::GasEstimateTooHigh { estimate: 350_001 })
    );
    assert_eq!(
        check_gas_estimate(u64::MAX),
        Err(OdysseyWalletError::GasEstimateTooHigh { estimate: u64::MAX })
    );
    assert_eq!(check_gas_estimate(0), Ok(0));

    let wallet = relayer();
    let request = assign_nonce(call_of(addr(1)), addr(0xaa), 911, 3);
    let state = State::NonceSet { request };
    assert_eq!(
        wallet.step(state, Event::Estimated { gas: Some(350_000), base_fee: Some(1) }),
        rejected(OdysseyWalletError::GasEstimateTooHigh { estimate: 350_000 })
    );
    assert_eq!(
        wallet.step(state, Event::Estimated { gas: Some(350_000), base_fee: None }),
        rejected(OdysseyWalletError::GasEstimateTooHigh { estimate: 350_000 })
    );
    let step = wallet.step(state, Event::Estimated { gas: Some(349_999), base_fee: Some(1) });
    assert_eq!(step.tally, Tally::Unchanged);
    match step.state {
        State::FeesComputed { request } => {
            assert_eq!(request.gas, Some(349_999));
            assert_eq!(request.max_fee_per_gas, Some(1_000_000_001));
        }
        other => panic!("unexpected state {:?}", other),
    }
}

#[test]
fn failed_estimates() {
    let wallet = relayer();
    let request = assign_nonce(call_of(addr(1)), addr(0xaa), 911, 3);
    let state = State::NonceSet { request };
    let step = wallet.step(state, Event::Estimated { gas: None, base_fee: Some(1) });
    assert_eq!(step.state, State::Rejected(Failure::Collaborator));
    assert_eq!(step.tally, Tally::Invalid);
    let step = wallet.step(state, Event::Estimated { gas: None, base_fee: None });
    assert_eq!(step.state, State::Rejected(Failure::Collaborator));
    assert_eq!(
        wallet.step(state, Event::Estimated { gas: Some(100), base_fee: None }),
        rejected(OdysseyWalletError::InternalError)
    );
    assert_eq!(
        wallet.step(state, Event::Estimated { gas: Some(349_999), base_fee: None }),
        rejected(OdysseyWalletError::InternalError)
    );
}

#[test]
fn fee_fields() {
    let request = TransactionRequest { gas_price: Some(55), ..call_of(addr(1)) };
    let priced = assign_fees(request, 30_000, 12_345);
    assert_eq!(priced.gas, Some(30_000));
    assert_eq!(priced.max_fee_per_gas, Some(1_000_012_345));
    assert_eq!(priced.max_priority_fee_per_gas, Some(1_000_000_000));
    assert_eq!(priced.gas_price, None);
    assert_eq!(priced.to, request.to);
    let priced = assign_fees(request, 1, 0);
    assert_eq!(priced.max_fee_per_gas, Some(1_000_000_000));
    let top = u128::MAX - 1_000_000_000;
    assert!(base_fee_fits(top));
    assert!(!base_fee_fits(top + 1));
    assert_eq!(assign_fees(request, 1, top).max_fee_per_gas, Some(u128::MAX));
    let waiting = State::NonceSet { request };
    assert!(step_admitted(&waiting, &Event::Estimated { gas: Some(1), base_fee: Some(top) }));
    assert!(!step_admitted(&waiting, &Event::Estimated { gas: Some(1), base_fee: Some(top + 1) }));
    assert!(!step_admitted(
        &waiting,
        &Event::Estimated { gas: Some(349_999), base_fee: Some(u128::MAX) }
    ));
    assert!(step_admitted(
        &waiting,
        &Event::Estimated { gas: Some(350_000), base_fee: Some(u128::MAX) }
    ));
    assert!(step_admitted(&waiting, &Event::Estimated { gas: None, base_fee: Some(top + 1) }));
    assert!(step_admitted(&waiting, &Event::Estimated { gas: Some(1), base_fee: None }));
    assert!(step_admitted(&waiting, &Event::SignatureMade));
    assert!(step_admitted(
        &State::Signed { request },
        &Event::Estimated { gas: Some(1), base_fee: Some(u128::MAX) }
    ));
    let wallet = relayer();
    assert_eq!(
        wallet.step(waiting, Event::Estimated { gas: Some(350_000), base_fee: Some(u128::MAX) }),
        rejected(OdysseyWalletError::GasEstimateTooHigh { estimate: 350_000 })
    );
}

#[test]
fn failed_signing_is_an_invalid_request() {
    let wallet = relayer();
    let state = State::FeesComputed { request: call_of(addr(1)) };
    assert_eq!(
        wallet.step(state, Event::SigningFailed),
        rejected(OdysseyWalletError::InvalidTransactionRequest)
    );
}

#[test]
fn failed_submission_is_passed_on_and_not_counted() {
    let wallet = relayer();
    let step = wallet.step(State::Signed { request: call_of(addr(1)) }, Event::SubmissionFailed);
    assert_eq!(step.state, State::Rejected(Failure::Collaborator));
    assert_eq!(step.action, Action::ReturnError(Failure::Collaborator));
    assert_eq!(step.tally, Tally::Unchanged);
}

#[test]
fn terminal_states_stay() {
    let wallet = relayer();
    let hash = TxHash::new([1u8; 32]);
    let events = [
        Event::StateReadFailed,
        Event::CodeRead(AccountCode::Delegation(addr(2))),
        Event::NonceRead(1),
        Event::SignatureMade,
        Event::Accepted(TxHash::new([2u8; 32])),
    ];
    for event in events {
        let step = wallet.step(State::Submitted(hash), event);
        assert_eq!(step.state, State::Submitted(hash));
        assert_eq!(step.action, Action::ReturnHash(hash));
        assert_eq!(step.tally, Tally::Unchanged);
        let failure = Failure::Wallet(OdysseyWalletError::NonceSet);
        let step = wallet.step(State::Rejected(failure), event);
        assert_eq!(step.state, State::Rejected(failure));
        assert_eq!(step.action, Action::ReturnError(failure));
        assert_eq!(step.tally, Tally::Unchanged);
    }
}

#[test]
fn an_event_out_of_turn_ends_the_request() {
    let wallet = relayer();
    let request = call_of(addr(1));
    let internal = rejected(OdysseyWalletError::InternalError);
    assert_eq!(wallet.step(State::Validated { request }, Event::NonceRead(1)), internal);
    assert_eq!(wallet.step(State::Authorized { request }, Event::SignatureMade), internal);
    assert_eq!(wallet.step(State::NonceSet { request }, Event::NonceRead(2)), internal);
    assert_eq!(
        wallet.step(State::FeesComputed { request }, Event::Accepted(TxHash::new([0u8; 32]))),
        internal
    );
    assert_eq!(wallet.step(State::Signed { request }, Event::SignatureMade), internal);
}

#[test]
fn guarded_region() {
    let request = call_of(addr(1));
    assert!(!State::Validated { request }.in_guarded_region());
    assert!(!State::Authorized { request }.in_guarded_region());
    assert!(State::NonceSet { request }.in_guarded_region());
    assert!(State::FeesComputed { request }.in_guarded_region());
    assert!(State::Signed { request }.in_guarded_region());
    assert!(!State::Submitted(TxHash::new([0u8; 32])).in_guarded_region());
    assert!(!State::Validated { request }.terminal());
    assert!(State::Rejected(Failure::Collaborator).terminal());
}

fn drive(wallet: &OdysseyWallet, request: TransactionRequest, events: &[Event]) -> (State, u64, u64) {
    let mut valid = 0u64;
    let mut invalid = 0u64;
    let mut step = wallet.begin(request);
    let mut pending = events.iter();
    loop {
        match step.tally {
            Tally::Valid => valid += 1,
            Tally::Invalid => invalid += 1,
            Tally::Unchanged => {}
        }
        match pending.next() {
            Some(event) => {
                assert!(step_admitted(&step.state, event));
                step = wallet.step(step.state, *event);
            }
            None => return (step.state, valid, invalid),
        }
    }
}

#[test]
fn counters_over_whole_runs() {
    let wallet = relayer();
    let request = call_of(addr(1));
    let code = Event::CodeRead(AccountCode::Delegation(addr(2)));
    let estimates = Event::Estimated { gas: Some(50_000), base_fee: Some(10) };
    let hash = TxHash::new([3u8; 32]);

    let (state, valid, invalid) = drive(
        &wallet,
        request,
        &[code, Event::NonceRead(1), estimates, Event::SignatureMade, Event::Accepted(hash)],
    );
    assert_eq!((state, valid, invalid), (State::Submitted(hash), 1, 0));

    let (state, valid, invalid) = drive(
        &wallet,
        request,
        &[code, Event::NonceRead(1), estimates, Event::SignatureMade, Event::SubmissionFailed],
    );
    assert_eq!((state, valid, invalid), (State::Rejected(Failure::Collaborator), 1, 0));

    let (state, valid, invalid) =
        drive(&wallet, request, &[code, Event::NonceRead(1), estimates, Event::SigningFailed]);
    assert_eq!(
        (state, valid, invalid),
        (State::Rejected(Failure::Wallet(OdysseyWalletError::InvalidTransactionRequest)), 0, 1)
    );

    let too_much = Event::Estimated { gas: Some(400_000), base_fee: Some(10) };
    let (state, valid, invalid) = drive(
        &wallet,
        request,
        &[code, Event::NonceRead(1), too_much, Event::SignatureMade, Event::Accepted(hash)],
    );
    assert_eq!(
        (state, valid, invalid),
        (
            State::Rejected(Failure::Wallet(OdysseyWalletError::GasEstimateTooHigh {
                estimate: 400_000
            })),
            0,
            1
        )
    );

    let (state, valid, invalid) = drive(
        &wallet,
        request.value(U256::from(1)),
        &[code, Event::NonceRead(1), estimates, Event::SignatureMade, Event::Accepted(hash)],
    );
    assert_eq!(
        (state, valid, invalid),
        (State::Rejected(Failure::Wallet(OdysseyWalletError::ValueNotZero)), 0, 1)
    );

    let no_fees = Event::Estimated { gas: Some(50_000), base_fee: None };
    let (state, valid, invalid) = drive(
        &wallet,
        request,
        &[code, Event::NonceRead(1), no_fees, Event::SignatureMade, Event::Accepted(hash)],
    );
    assert_eq!(
        (state, valid, invalid),
        (State::Rejected(Failure::Wallet(OdysseyWalletError::InternalError)), 0, 1)
    );

    let (state, valid, invalid) = drive(&wallet, request, &[Event::StateReadFailed, code]);
    assert_eq!(
        (state, valid, invalid),
        (State::Rejected(Failure::Wallet(OdysseyWalletError::InternalError)), 0, 1)
    );

    let (state, valid, invalid) = drive(&wallet, request, &[code, Event::NonceRead(1)]);
    assert!(state.in_guarded_region());
    assert_eq!((valid, invalid), (0, 0));
}

#[test]
fn requests_served_one_after_the_other_carry_increasing_nonces() {
    let wallet = relayer();
    let code = Event::CodeRead(AccountCode::Delegation(addr(2)));
    let estimates = Event::Estimated { gas: Some(50_000), base_fee: Some(10) };
    let mut next_nonce = 7u64;
    let mut signed = Vec::new();
    for account in [addr(1), addr(3), addr(1)] {
        let (state, _, _) = drive(
            &wallet,
            call_of(account),
            &[code, Event::NonceRead(next_nonce), estimates, Event::SignatureMade],
        );
        match state {
            State::Signed { request } => {
                assert_eq!(request.from, Some(addr(0xaa)));
                assert_eq!(request.chain_id, Some(911));
                signed.push(request.nonce);
            }
            other => panic!("unexpected state {:?}", other),
        }
        let (state, _, _) = drive(
            &wallet,
            call_of(account),
            &[
                code,
                Event::NonceRead(next_nonce),
                estimates,
                Event::SignatureMade,
                Event::Accepted(TxHash::new([account.bytes[19]; 32])),
            ],
        );
        assert!(state.terminal());
        next_nonce += 1;
    }
    assert_eq!(signed, vec![Some(7), Some(8), Some(9)]);
}
