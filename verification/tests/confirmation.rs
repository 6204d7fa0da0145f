use traffic_maker::engine::{
    with_event_matching, Confirmation, ConfirmationEvent, ConfirmationFailure, ConfirmationPhase,
    Directive,
};
use traffic_maker::event::{
    AccountId, BatchCompleted, Event, ListeningError, Transfer, VestingUpdated,
};
use traffic_maker::interval::Interval;
use traffic_maker::listener::{
    batch_bytes, handle_expected_events_batch, handle_new_events_batch, listen_for_event,
    strip_marks, ListenerVerdict, RawEvent,
};
use traffic_maker::multisig::events::{
    MultisigApproval, MultisigCancelled, MultisigExecuted, NewMultisig, Timepoint,
};
use traffic_maker::event::CallHash;

type Step = (Confirmation<u32>, Directive<u32, &'static str, &'static str>);

fn begin() -> Confirmation<u32> {
    let (confirmation, first): Step = with_event_matching(Interval::from_secs(1));
    assert!(matches!(first, Directive::Subscribe));
    assert!(matches!(confirmation.phase, ConfirmationPhase::Subscribing));
    confirmation
}

#[test]
fn subscription_comes_before_the_action() {
    let confirmation = begin();
    assert!(confirmation.expects::<&str, &str>(&ConfirmationEvent::Subscribed));
    assert!(!confirmation.expects::<&str, &str>(&ConfirmationEvent::ActionReturned(Ok(1))));
    let (confirmation, next): Step = confirmation.step(ConfirmationEvent::Subscribed);
    assert!(matches!(next, Directive::DriveAction));
    assert!(matches!(confirmation.phase, ConfirmationPhase::Acting));
    assert!(!confirmation.expects::<&str, &str>(&ConfirmationEvent::Subscribed));
}

#[test]
fn failed_subscription_never_drives_the_action() {
    let (confirmation, next): Step = begin().step(ConfirmationEvent::SubscriptionFailed);
    match next {
        Directive::Return { outcome, cancel_listener } => {
            assert!(matches!(
                outcome,
                Err(ConfirmationFailure::Listening(ListeningError::CannotSubscribe))
            ));
            assert!(!cancel_listener);
        }
        _ => panic!("the confirmation should have returned"),
    }
    assert!(matches!(confirmation.phase, ConfirmationPhase::Finished));
    assert!(!confirmation.expects::<&str, &str>(&ConfirmationEvent::Subscribed));
}

#[test]
fn failed_action_returns_its_error_without_waiting() {
    let (confirmation, _): Step = begin().step(ConfirmationEvent::Subscribed);
    let (confirmation, next): Step =
        confirmation.step(ConfirmationEvent::ActionReturned(Err("refused")));
    match next {
        Directive::Return { outcome, cancel_listener } => {
            assert!(matches!(outcome, Err(ConfirmationFailure::Action("refused"))));
            assert!(cancel_listener);
        }
        _ => panic!("the confirmation should have returned"),
    }
    assert!(matches!(confirmation.phase, ConfirmationPhase::Finished));
}

#[test]
fn missed_deadline_is_no_event_spotted() {
    let (confirmation, _): Step = begin().step(ConfirmationEvent::Subscribed);
    let (confirmation, next): Step = confirmation.step(ConfirmationEvent::ActionReturned(Ok(7)));
    match next {
        Directive::AwaitEvent(timeout) => assert_eq!(timeout, Interval::from_secs(1)),
        _ => panic!("the event should be awaited"),
    }
    assert!(matches!(confirmation.phase, ConfirmationPhase::Waiting(7)));
    let (_, next): Step = confirmation.step(ConfirmationEvent::DeadlineMissed);
    match next {
        Directive::Return { outcome, cancel_listener } => {
            assert!(matches!(
                outcome,
                Err(ConfirmationFailure::Listening(ListeningError::NoEventSpotted))
            ));
            assert!(cancel_listener);
        }
        _ => panic!("the confirmation should have returned"),
    }
}

#[test]
fn spotted_event_returns_result_and_event() {
    let (confirmation, _): Step = begin().step(ConfirmationEvent::Subscribed);
    let (confirmation, _): Step = confirmation.step(ConfirmationEvent::ActionReturned(Ok(7)));
    let (confirmation, next): Step = confirmation.step(ConfirmationEvent::EventSpotted("seen"));
    match next {
        Directive::Return { outcome, cancel_listener } => {
            assert!(matches!(outcome, Ok((7, "seen"))));
            assert!(!cancel_listener);
        }
        _ => panic!("the confirmation should have returned"),
    }
    assert!(matches!(confirmation.phase, ConfirmationPhase::Finished));
}

#[test]
fn listening_errors_have_their_lines() {
    assert_eq!(ListeningError::CannotSubscribe.message(), "⏳❌ Could not subscribe to events.");
    assert_eq!(
        ListeningError::NoEventSpotted.message(),
        "⏳❌ Expected event has not been emitted."
    );
}

#[test]
fn marks_are_stripped_from_the_left() {
    assert_eq!(strip_marks(b"0x0a0xff"), b"0aff".to_vec());
    assert_eq!(strip_marks(b"00x1"), b"01".to_vec());
    assert_eq!(strip_marks(b"0x0x"), b"".to_vec());
    assert_eq!(strip_marks(b"0"), b"0".to_vec());
    assert_eq!(strip_marks(b"x0"), b"x0".to_vec());
    assert_eq!(strip_marks(b""), b"".to_vec());
}

#[test]
fn batches_are_read_as_hexadecimal_digits() {
    assert_eq!(batch_bytes(b"0x00ff10Ab"), Some(vec![0x00, 0xff, 0x10, 0xab]));
    assert_eq!(batch_bytes(b"0x"), Some(vec![]));
    assert_eq!(batch_bytes(b"0x123"), None);
    assert_eq!(batch_bytes(b"0xzz"), None);
    assert_eq!(batch_bytes("0xé0".as_bytes()), None);
}

fn word(byte: u8) -> [u8; 32] {
    [byte; 32]
}

fn transfer_data(from: u8, to: u8, amount: u128) -> Vec<u8> {
    let mut data = Vec::new();
    data.extend_from_slice(&word(from));
    data.extend_from_slice(&word(to));
    data.extend_from_slice(&amount.to_le_bytes());
    data
}

fn raw(pallet: &str, variant: &str, data: Vec<u8>) -> RawEvent {
    RawEvent { pallet: String::from(pallet), variant: String::from(variant), data }
}

#[test]
fn transfer_is_decoded_from_its_bytes() {
    let mut data = transfer_data(1, 2, 0x0102_0304_0506_0708_090a_0b0c_0d0e_0f10);
    let event = Transfer::decode(&data).unwrap();
    assert_eq!(event.from, AccountId(word(1)));
    assert_eq!(event.to, AccountId(word(2)));
    assert_eq!(event.amount, 0x0102_0304_0506_0708_090a_0b0c_0d0e_0f10);
    data.push(99);
    assert!(Transfer::decode(&data).is_some());
    assert!(Transfer::decode(&data[..79]).is_none());
    assert!(Transfer::decode(&[]).is_none());
    assert_eq!(event.kind(), ("Balances", "Transfer"));
}

#[test]
fn transfer_matches_on_all_three_fields() {
    let expected = Transfer::from_relevant_fields(AccountId(word(1)), AccountId(word(2)), 100);
    let same = Transfer::from_relevant_fields(AccountId(word(1)), AccountId(word(2)), 100);
    let other_amount = Transfer::from_relevant_fields(AccountId(word(1)), AccountId(word(2)), 101);
    let other_sender = Transfer::from_relevant_fields(AccountId(word(3)), AccountId(word(2)), 100);
    let mut nearly = word(2);
    nearly[31] = 3;
    let other_receiver = Transfer::from_relevant_fields(AccountId(word(1)), AccountId(nearly), 100);
    assert!(expected.matches(&same));
    assert!(!expected.matches(&other_amount));
    assert!(!expected.matches(&other_sender));
    assert!(!expected.matches(&other_receiver));
}

#[test]
fn vesting_and_batch_events() {
    let mut data = Vec::new();
    data.extend_from_slice(&word(9));
    data.extend_from_slice(&3000u128.to_le_bytes());
    let event = VestingUpdated::decode(&data).unwrap();
    assert_eq!(event.account, AccountId(word(9)));
    assert_eq!(event.unvested, 3000);
    assert_eq!(event.kind(), ("Vesting", "VestingUpdated"));
    assert!(VestingUpdated::from_relevant_fields(AccountId(word(9)), 3000).matches(&event));
    assert!(!VestingUpdated::from_relevant_fields(AccountId(word(9)), 2999).matches(&event));
    assert!(VestingUpdated::decode(&data[..47]).is_none());

    let batch = BatchCompleted::from_relevant_fields();
    assert_eq!(batch.kind(), ("Utility", "BatchCompleted"));
    assert!(batch.matches(&BatchCompleted::decode(&[]).unwrap()));
}

fn multisig_data(who: u8, height: u32, index: u32, party: u8, hash: u8) -> Vec<u8> {
    let mut data = Vec::new();
    data.extend_from_slice(&word(who));
    data.extend_from_slice(&height.to_le_bytes());
    data.extend_from_slice(&index.to_le_bytes());
    data.extend_from_slice(&word(party));
    data.extend_from_slice(&word(hash));
    data
}

#[test]
fn multisig_events_ignore_time_point_and_result() {
    let mut opened = Vec::new();
    opened.extend_from_slice(&word(1));
    opened.extend_from_slice(&word(2));
    opened.extend_from_slice(&word(3));
    let new = NewMultisig::decode(&opened).unwrap();
    assert_eq!(new.kind(), ("Multisig", "NewMultisig"));
    assert!(NewMultisig::from_relevant_fields(AccountId(word(1)), AccountId(word(2)), CallHash(word(3)))
        .matches(&new));
    assert!(NewMultisig::decode(&opened[..95]).is_none());

    let data = multisig_data(1, 77, 5, 2, 3);
    let approval = MultisigApproval::decode(&data).unwrap();
    assert_eq!(approval.timepoint, Timepoint { height: 77, index: 5 });
    assert_eq!(approval.kind(), ("Multisig", "MultisigApproval"));
    let expected =
        MultisigApproval::from_relevant_fields(AccountId(word(1)), AccountId(word(2)), CallHash(word(3)));
    assert_eq!(expected.timepoint, Timepoint { height: 0, index: 0 });
    assert!(expected.matches(&approval));
    assert!(!MultisigApproval::from_relevant_fields(
        AccountId(word(1)),
        AccountId(word(2)),
        CallHash(word(4))
    )
    .matches(&approval));

    let cancelled = MultisigCancelled::decode(&data).unwrap();
    assert_eq!(cancelled.kind(), ("Multisig", "MultisigCancelled"));
    assert_eq!(cancelled.cancelling, AccountId(word(1)));
    assert!(MultisigCancelled::decode(&data[..103]).is_none());

    assert!(MultisigExecuted::decode(&data).is_none());
    let mut went_through = data.clone();
    went_through.push(0);
    let executed = MultisigExecuted::decode(&went_through).unwrap();
    assert_eq!(executed.result, Ok(()));
    assert_eq!(executed.kind(), ("Multisig", "MultisigExecuted"));
    let mut failed = data.clone();
    failed.extend_from_slice(&[1, 3, 0, 0]);
    let executed_badly = MultisigExecuted::decode(&failed).unwrap();
    assert_eq!(executed_badly.result, Err(()));
    let expected =
        MultisigExecuted::from_relevant_fields(AccountId(word(1)), AccountId(word(2)), CallHash(word(3)));
    assert_eq!(expected.result, Ok(()));
    assert!(expected.matches(&executed));
    assert!(expected.matches(&executed_badly));
    let mut odd = data.clone();
    odd.push(2);
    assert!(MultisigExecuted::decode(&odd).is_none());
}

#[test]
fn batch_is_searched_for_the_first_match() {
    let expected = Transfer::from_relevant_fields(AccountId(word(1)), AccountId(word(2)), 100);
    let batch = vec![
        raw("Balances", "Deposit", transfer_data(1, 2, 100)),
        raw("System", "Transfer", transfer_data(1, 2, 100)),
        raw("Balances", "Transfer", vec![1, 2, 3]),
        raw("Balances", "Transfer", transfer_data(1, 2, 99)),
        raw("Balances", "Transfer", transfer_data(1, 2, 100)),
        raw("Balances", "Transfer", transfer_data(5, 2, 100)),
    ];
    let found = handle_expected_events_batch(&expected, &batch).unwrap();
    assert!(expected.matches(&found));
    assert_eq!(found.amount, 100);

    let by_sender = handle_new_events_batch(
        ("Balances", "Transfer"),
        &|event: &Transfer| event.from == AccountId(word(5)),
        &batch,
    )
    .unwrap();
    assert_eq!(by_sender.from, AccountId(word(5)));

    let first_of_kind =
        handle_new_events_batch(("Balances", "Transfer"), &|_: &Transfer| true, &batch).unwrap();
    assert_eq!(first_of_kind.amount, 99);

    let missing = Transfer::from_relevant_fields(AccountId(word(1)), AccountId(word(2)), 1);
    assert_eq!(
        handle_expected_events_batch(&missing, &batch).err(),
        Some(ListeningError::NoEventSpotted)
    );
    assert_eq!(
        handle_expected_events_batch(&expected, &vec![]).err(),
        Some(ListeningError::NoEventSpotted)
    );
}

#[test]
fn listener_looks_at_events_before_the_cancellation() {
    let matcher = |event: &Transfer| event.amount == 100;
    let kind = ("Balances", "Transfer");
    let batches = vec![
        None,
        Some(vec![raw("Balances", "Transfer", transfer_data(1, 2, 5))]),
        Some(vec![raw("Balances", "Transfer", transfer_data(3, 4, 100))]),
        Some(vec![raw("Balances", "Transfer", transfer_data(5, 6, 100))]),
    ];
    match listen_for_event(kind, &matcher, &batches, true) {
        ListenerVerdict::Matched(event) => assert_eq!(event.from, AccountId(word(3))),
        _ => panic!("the event should have been matched"),
    }
    let nothing = vec![None, Some(vec![raw("Balances", "Transfer", transfer_data(1, 2, 5))])];
    assert!(matches!(
        listen_for_event(kind, &matcher, &nothing, true),
        ListenerVerdict::Cancelled
    ));
    match listen_for_event(kind, &matcher, &nothing, false) {
        ListenerVerdict::Idle(rest) => assert_eq!(rest, Interval::from_millis(500)),
        _ => panic!("the listener should rest"),
    }
    match listen_for_event(kind, &matcher, &vec![], false) {
        ListenerVerdict::Idle(rest) => assert_eq!(rest.as_millis(), 500),
        _ => panic!("the listener should rest"),
    }
}
