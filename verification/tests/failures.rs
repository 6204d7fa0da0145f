use traffic_maker::event::ListeningError;
use traffic_maker::failure::Failure;
use traffic_maker::ident::Ident;
use traffic_maker::multisig::MultisigError;
use traffic_maker::scenario::{Level, ScenarioError, ScenarioLogging};
use traffic_maker::vest::VestError;
use traffic_maker::vesting::{pool_seed, SchedulesMergingError};

#[test]
fn failures_speak_with_the_voice_of_their_cause() {
    assert_eq!(Failure::Scenario(ScenarioError::BadConfig).message(), "Bad config values");
    assert_eq!(
        Failure::Listening(ListeningError::NoEventSpotted).message(),
        "⏳❌ Expected event has not been emitted."
    );
    assert_eq!(
        Failure::Multisig(MultisigError::ThresholdTooLow).message(),
        "👪❌ Threshold should be at least 2."
    );
    assert_eq!(
        Failure::Vest(VestError::IncorrectEvent).message(),
        "Incorrect event has been intercepted"
    );
    assert_eq!(Failure::Chain(String::from("connection lost")).message(), "connection lost");
    assert_eq!(
        Failure::Merging(SchedulesMergingError::LimitTooLow).message(),
        "🦺❌ This scenario does not make sense when `MAX_VESTING_SCHEDULES` is less than 2."
    );
}

#[test]
fn merging_errors_name_the_account_and_the_numbers() {
    assert_eq!(
        SchedulesMergingError::ReachingLimitFailure(7).message(),
        "🦺❌ Couldn't reach `MAX_VESTING_SCHEDULES` for account #7."
    );
    assert_eq!(
        SchedulesMergingError::LimitAlreadyReached(49).message(),
        "🦺❌ Account #49 has already `MAX_VESTING_SCHEDULES` active schedules."
    );
    assert_eq!(
        SchedulesMergingError::UnexpectedLockedBalances {
            locked: 2004,
            num_of_schedules: 2,
            expected: 2005,
            account: 3,
        }
        .message(),
        "🦺❌ Account #3 has 2 active schedules, which should sum to 2005 locked balance, but actually there is 2004."
    );
    assert_eq!(
        SchedulesMergingError::MergingFailureNumber(0).message(),
        "🦺❌ Couldn't merge all active schedules for the account #0."
    );
    assert_eq!(
        SchedulesMergingError::MergingFailureLocked {
            locked_before_merging: 1000,
            locked_after_merging: 999,
            account: 12,
        }
        .message(),
        "🦺❌ Merging schedules for the account #12 has led to changing overall locked balance amount from 1000 to 999"
    );
    assert_eq!(pool_seed(5), "//VestingSchedulesMerging5");
}

#[test]
fn results_are_logged_and_handed_back() {
    let mut logger = ScenarioLogging::new(Ident::from("ms"));
    let failed: Result<(), Failure> = Err(Failure::Multisig(MultisigError::MissingContext));
    assert!(matches!(
        logger.log_result(failed),
        Err(Failure::Multisig(MultisigError::MissingContext))
    ));
    let passed: Result<(), Failure> = Ok(());
    assert!(logger.log_result(passed).is_ok());
    let records = logger.take_records();
    assert_eq!(records[0].level, Level::Error);
    assert_eq!(
        records[0].message,
        "Encountered error: 👪❌ Action requires valid context parameter."
    );
    assert_eq!(records[1].level, Level::Trace);
    assert_eq!(records[1].message, "Successfully obtained ()");
}
