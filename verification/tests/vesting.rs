use traffic_maker::event::{AccountId, VestingUpdated};
use traffic_maker::interval::Interval;
use traffic_maker::vest::{
    random_recipient, recipient_seed, Claimant, Vest, VestError, VestKind, VestingInfo,
};
use traffic_maker::vesting::{
    MergingEvent, MergingPhase, MergingRun, MergingStep, SchedulesMerging, SchedulesMergingError,
    AVAILABLE_ACCOUNTS,
};

fn reading(num_of_schedules: usize, locked: u128) -> MergingEvent {
    MergingEvent::Reading { num_of_schedules, locked }
}

fn begin(limit: u32, value: u128) -> MergingRun {
    let run = SchedulesMerging::new(limit, value).unwrap().play();
    assert!(run.receiver() < AVAILABLE_ACCOUNTS);
    assert_eq!(run.current_phase(), MergingPhase::Idle);
    run
}

fn transfer(sender: usize, value: u128, expected_locked: u128) -> MergingStep {
    MergingStep::VestedTransfer {
        sender,
        locked: value,
        per_block: 1,
        starting_block: u32::MAX,
        expected_locked,
        timeout: Interval::from_secs(2),
    }
}

fn merge(expected_locked: u128) -> MergingStep {
    MergingStep::MergeSchedules {
        first: 0,
        second: 1,
        expected_locked,
        timeout: Interval::from_secs(2),
    }
}

#[test]
fn limit_below_two_is_too_low() {
    assert_eq!(SchedulesMerging::new(0, 1000).err(), Some(SchedulesMergingError::LimitTooLow));
    assert_eq!(SchedulesMerging::new(1, 1000).err(), Some(SchedulesMergingError::LimitTooLow));
    let merging = SchedulesMerging::new(2, 1000).unwrap();
    assert_eq!(merging.schedules_limit(), 2);
    assert_eq!(merging.transfer_value(), 1000);
}

#[test]
fn saturation_from_an_empty_recipient() {
    let mut run = begin(3, 1000);
    assert!(run.accepts(MergingEvent::Started));
    assert!(!run.accepts(MergingEvent::Confirmed));
    assert_eq!(run.advance(MergingEvent::Started), Ok(MergingStep::ReadVesting));
    assert_eq!(run.advance(reading(0, 0)), Ok(transfer(0, 1000, 1000)));
    assert_eq!(run.advance(MergingEvent::Confirmed), Ok(transfer(1, 1000, 2000)));
    assert_eq!(run.advance(MergingEvent::Confirmed), Ok(transfer(2, 1000, 3000)));
    assert_eq!(run.advance(MergingEvent::Confirmed), Ok(MergingStep::ReadVesting));
    assert_eq!(run.advance(reading(3, 3000)), Ok(merge(3000)));
    assert_eq!(run.advance(MergingEvent::Confirmed), Ok(merge(3000)));
    assert_eq!(run.advance(MergingEvent::Confirmed), Ok(MergingStep::ReadVesting));
    assert_eq!(run.current_phase(), MergingPhase::Verifying { locked: 3000 });
    assert_eq!(run.advance(reading(1, 3000)), Ok(MergingStep::Done));
    assert_eq!(run.current_phase(), MergingPhase::Finished);
    assert!(!run.accepts(MergingEvent::Started));
}

#[test]
fn saturation_from_a_recipient_with_schedules() {
    let mut run = begin(4, 10);
    run.advance(MergingEvent::Started).unwrap();
    assert_eq!(run.advance(reading(2, 500)), Ok(transfer(2, 10, 510)));
    assert_eq!(run.advance(MergingEvent::Confirmed), Ok(transfer(3, 10, 520)));
    assert_eq!(run.advance(MergingEvent::Confirmed), Ok(MergingStep::ReadVesting));
    assert_eq!(run.advance(reading(4, 520)), Ok(merge(520)));
    assert_eq!(run.advance(MergingEvent::Confirmed), Ok(merge(520)));
    assert_eq!(run.advance(MergingEvent::Confirmed), Ok(merge(520)));
    assert_eq!(run.advance(MergingEvent::Confirmed), Ok(MergingStep::ReadVesting));
    assert_eq!(run.advance(reading(1, 520)), Ok(MergingStep::Done));
}

#[test]
fn recipient_at_the_limit_is_turned_down() {
    let mut run = begin(3, 1000);
    let recipient = run.receiver();
    run.advance(MergingEvent::Started).unwrap();
    assert_eq!(
        run.advance(reading(3, 7)),
        Err(SchedulesMergingError::LimitAlreadyReached(recipient))
    );
    assert_eq!(run.current_phase(), MergingPhase::Finished);
}

#[test]
fn limit_that_is_not_reached_is_a_failure() {
    let mut run = begin(2, 1000);
    let recipient = run.receiver();
    run.advance(MergingEvent::Started).unwrap();
    run.advance(reading(1, 5)).unwrap();
    assert_eq!(run.advance(MergingEvent::Confirmed), Ok(MergingStep::ReadVesting));
    assert_eq!(
        run.advance(reading(1, 1005)),
        Err(SchedulesMergingError::ReachingLimitFailure(recipient))
    );
}

#[test]
fn wrong_total_after_saturation_is_a_failure() {
    let mut run = begin(2, 1000);
    let recipient = run.receiver();
    run.advance(MergingEvent::Started).unwrap();
    run.advance(reading(0, 5)).unwrap();
    run.advance(MergingEvent::Confirmed).unwrap();
    run.advance(MergingEvent::Confirmed).unwrap();
    assert_eq!(
        run.advance(reading(2, 2004)),
        Err(SchedulesMergingError::UnexpectedLockedBalances {
            locked: 2004,
            num_of_schedules: 2,
            expected: 2005,
            account: recipient,
        })
    );
}

#[test]
fn merging_must_leave_one_schedule_with_the_same_total() {
    let mut many = begin(2, 1000);
    let recipient = many.receiver();
    many.advance(MergingEvent::Started).unwrap();
    many.advance(reading(1, 0)).unwrap();
    many.advance(MergingEvent::Confirmed).unwrap();
    assert_eq!(many.advance(reading(2, 1000)), Ok(merge(1000)));
    assert_eq!(many.advance(MergingEvent::Confirmed), Ok(MergingStep::ReadVesting));
    assert_eq!(
        many.advance(reading(2, 1000)),
        Err(SchedulesMergingError::MergingFailureNumber(recipient))
    );

    let mut changed = begin(2, 1000);
    let recipient = changed.receiver();
    changed.advance(MergingEvent::Started).unwrap();
    changed.advance(reading(1, 0)).unwrap();
    changed.advance(MergingEvent::Confirmed).unwrap();
    changed.advance(reading(2, 1000)).unwrap();
    changed.advance(MergingEvent::Confirmed).unwrap();
    assert_eq!(
        changed.advance(reading(1, 999)),
        Err(SchedulesMergingError::MergingFailureLocked {
            locked_before_merging: 1000,
            locked_after_merging: 999,
            account: recipient,
        })
    );
}

#[test]
fn readings_beyond_any_balance_are_not_accepted() {
    let mut run = begin(3, u128::MAX / 2);
    run.advance(MergingEvent::Started).unwrap();
    assert!(!run.accepts(reading(0, 10)));
    assert!(run.accepts(reading(2, 10)));
    assert!(run.accepts(reading(3, u128::MAX)));
}

#[test]
fn vest_sources_and_claimants() {
    let own = Vest { vest_kind: VestKind::Vest };
    let other = Vest { vest_kind: VestKind::VestOther };
    assert_eq!(own.source(), "//Vest//Source//Vest");
    assert_eq!(other.source(), "//Vest//Source//VestOther");
    assert_eq!(own.vest_action(), Claimant::Recipient);
    assert_eq!(other.vest_action(), Claimant::Source);
    assert_eq!(Vest::wait_period(), Interval::from_secs(20));
    assert_eq!(recipient_seed(42), "//Vest//Recipient/42");
    assert!(random_recipient().starts_with("//Vest//Recipient/"));
}

#[test]
fn vest_schedule_starts_ten_blocks_ahead() {
    let vest = Vest { vest_kind: VestKind::Vest };
    assert_eq!(
        vest.vested_transfer(Some(100)),
        Ok(VestingInfo { locked: 1_000_000_000, per_block: 1_000_000, starting_block: 110 })
    );
    assert_eq!(vest.vested_transfer(None), Err(VestError::BestBlockUnknown));
    assert_eq!(VestError::BestBlockUnknown.message(), "Failed to obtain best block info");
    assert_eq!(VestError::IncorrectEvent.message(), "Incorrect event has been intercepted");
}

#[test]
fn vest_event_must_be_plausible() {
    let vest = Vest { vest_kind: VestKind::VestOther };
    let recipient = AccountId([7; 32]);
    let event = |unvested: u128| VestingUpdated::from_relevant_fields(AccountId([7; 32]), unvested);
    assert_eq!(vest.do_play(&recipient, &event(980_000_000)), Ok(()));
    assert_eq!(vest.do_play(&recipient, &event(989_999_999)), Ok(()));
    assert_eq!(vest.do_play(&recipient, &event(900_000_001)), Ok(()));
    assert_eq!(vest.do_play(&recipient, &event(990_000_000)), Err(VestError::IncorrectEvent));
    assert_eq!(vest.do_play(&recipient, &event(900_000_000)), Err(VestError::IncorrectEvent));
    assert_eq!(vest.do_play(&recipient, &event(1_000_000_001)), Err(VestError::IncorrectEvent));
    let stranger = VestingUpdated::from_relevant_fields(AccountId([8; 32]), 980_000_000);
    assert_eq!(vest.do_play(&recipient, &stranger), Err(VestError::IncorrectEvent));
}

#[test]
fn schedule_needs_room_behind_the_best_block() {
    assert!(Vest::can_schedule(None));
    assert!(Vest::can_schedule(Some(0)));
    assert!(Vest::can_schedule(Some(u32::MAX - 10)));
    assert!(!Vest::can_schedule(Some(u32::MAX - 9)));
    assert!(!Vest::can_schedule(Some(u32::MAX)));
    let vest = Vest { vest_kind: VestKind::Vest };
    assert_eq!(vest.vested_transfer(Some(u32::MAX - 10)).unwrap().starting_block, u32::MAX);
}
