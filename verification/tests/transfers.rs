use traffic_maker::event::AccountId;
use traffic_maker::ident::Ident;
use traffic_maker::interval::Interval;
use traffic_maker::scenario::{Level, ScenarioError, ScenarioLogging};
use traffic_maker::transfer::{
    full_seed, jittered, try_transfer, LoopMove, LoopTransfer, RobinPass, RoundRobin,
    SimpleTransfer,
};
use traffic_maker::units::{real_amount, DECIMALS};

#[test]
fn real_amount_is_tokens_times_decimals() {
    assert_eq!(DECIMALS, 1_000_000_000_000);
    assert_eq!(real_amount(&0), 0);
    assert_eq!(real_amount(&100), 100_000_000_000_000);
    assert_eq!(real_amount(&u64::MAX), u64::MAX as u128 * 1_000_000_000_000);
    assert_eq!(jittered(100, 7), 100_000_000_000_007);
}

#[test]
fn seeds_follow_the_secret_phrase() {
    assert_eq!(full_seed("", "//Multisig3"), "//Multisig3");
    assert_eq!(full_seed("bottom drive", "//RoundRobin0"), "bottom drive//RoundRobin0");
    assert_eq!(SimpleTransfer::sender(), "//SimpleTransferSender");
    assert_eq!(SimpleTransfer::receiver(), "//SimpleTransferReceiver");
    assert_eq!(RoundRobin::account(12), "//RoundRobin12");
}

#[test]
fn transfer_is_confirmed_by_its_own_event_within_a_second() {
    let order = try_transfer(AccountId([1; 32]), AccountId([2; 32]), 500);
    assert_eq!(order.expected_event.from, AccountId([1; 32]));
    assert_eq!(order.expected_event.to, AccountId([2; 32]));
    assert_eq!(order.expected_event.amount, 500);
    assert_eq!(order.event_timeout, Interval::from_secs(1));
}

#[test]
fn transfer_is_given_up_after_five_refusals() {
    let mut attempts = LoopTransfer::new();
    for _ in 0..4 {
        assert_eq!(attempts.record(false), LoopMove::RetryAfter(Interval::from_millis(500)));
        assert!(!attempts.ended);
    }
    assert_eq!(
        attempts.record(false),
        LoopMove::GiveUpAfter(Interval::from_millis(500), ScenarioError::CannotSendExtrinsic)
    );
    assert!(attempts.ended);
    assert_eq!(attempts.failures, 5);
}

#[test]
fn transfer_that_is_accepted_ends_the_loop() {
    let mut first = LoopTransfer::new();
    assert_eq!(first.record(true), LoopMove::Succeeded);
    assert!(first.ended);
    assert_eq!(first.failures, 0);

    let mut last = LoopTransfer::new();
    for _ in 0..4 {
        last.record(false);
    }
    assert_eq!(last.record(true), LoopMove::Succeeded);
    assert_eq!(last.failures, 4);
}

#[test]
fn simple_transfer_logs_its_run() {
    let scenario = SimpleTransfer { transfer_value: 100 };
    let mut logger = ScenarioLogging::new(Ident::from("st"));
    let amount = scenario.play(&mut logger);
    assert!(amount >= 100_000_000_000_000);
    assert!(amount <= 100_000_000_000_000 + u32::MAX as u128);
    let result: Result<(), ScenarioError> = scenario.conclude(&mut logger, Ok(()));
    assert_eq!(result, Ok(()));
    let records = logger.take_records();
    let lines: Vec<(Level, &str)> =
        records.iter().map(|r| (r.level, r.message.as_str())).collect();
    assert_eq!(
        lines,
        vec![
            (Level::Info, "Ready to go"),
            (Level::Trace, "Successfully obtained ()"),
            (Level::Info, "Done"),
        ]
    );
    assert!(records.iter().all(|r| r.target == Ident::from("st")));
}

#[test]
fn simple_transfer_logs_its_failure() {
    let scenario = SimpleTransfer { transfer_value: 100 };
    let mut logger = ScenarioLogging::new(Ident::from("st"));
    scenario.play(&mut logger);
    let result = scenario.conclude(&mut logger, Err(ScenarioError::CannotSendExtrinsic));
    assert_eq!(result, Err(ScenarioError::CannotSendExtrinsic));
    let records = logger.take_records();
    assert_eq!(records.len(), 2);
    assert_eq!(records[1].level, Level::Error);
    assert_eq!(records[1].message, "Encountered error: Could not send extrinsic");
    assert!(logger.take_records().is_empty());
}

#[test]
fn robin_goes_round_the_ring() {
    let scenario = RoundRobin { passes: 4, robin_value: 3 };
    let passes = scenario.play();
    let ring: Vec<(usize, usize)> = passes.iter().map(|p| (p.sender, p.receiver)).collect();
    assert_eq!(ring, vec![(0, 1), (1, 2), (2, 3), (3, 0)]);
    for RobinPass { amount, .. } in passes {
        assert!(amount >= 3_000_000_000_000 && amount <= 3_000_000_000_000 + u32::MAX as u128);
    }
    assert!(RoundRobin { passes: 0, robin_value: 3 }.play().is_empty());
    let alone = RoundRobin { passes: 1, robin_value: 3 }.play();
    assert_eq!((alone[0].sender, alone[0].receiver), (0, 0));
}

#[test]
fn scenario_errors_have_their_lines() {
    assert_eq!(ScenarioError::ExecutionFailure.message(), "Failure while executing scenario");
    assert_eq!(ScenarioError::CannotSendExtrinsic.message(), "Could not send extrinsic");
    assert_eq!(ScenarioError::BadConfig.message(), "Bad config values");
}

#[test]
fn logger_tags_every_record() {
    let mut logger = ScenarioLogging::new(Ident::from("tagged"));
    logger.trace("t");
    logger.debug("d");
    logger.info("i");
    logger.warn("w");
    logger.error("e");
    let records = logger.take_records();
    let seen: Vec<(Level, &str)> = records.iter().map(|r| (r.level, r.message.as_str())).collect();
    assert_eq!(
        seen,
        vec![
            (Level::Trace, "t"),
            (Level::Debug, "d"),
            (Level::Info, "i"),
            (Level::Warn, "w"),
            (Level::Error, "e"),
        ]
    );
    assert!(records.iter().all(|r| r.target == Ident::from("tagged")));
}

#[test]
fn loop_says_when_it_takes_another_submission() {
    let mut attempts = LoopTransfer::new();
    for _ in 0..5 {
        assert!(attempts.can_record());
        attempts.record(false);
    }
    assert!(!attempts.can_record());
    let mut accepted = LoopTransfer::new();
    accepted.record(true);
    assert!(!accepted.can_record());
    assert!(!LoopTransfer { failures: 5, ended: false }.can_record());
    assert!(LoopTransfer { failures: 4, ended: false }.can_record());
}
