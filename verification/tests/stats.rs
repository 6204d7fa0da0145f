use traffic_maker::ident::Ident;
use traffic_maker::interval::Interval;
use traffic_maker::scenario::{ScenarioDetails, ScenarioLogs, ScenarioStatus, ScheduledScenario};
use traffic_maker::schedule::{
    forward_logging, report_return, report_tick, schedule_scenario, Cadence,
};
use traffic_maker::stats::{EventListener, Stats, StatsWarning, DEFAULT_LOG_CAPACITY};

fn scheduled(name: &str, secs: u64) -> ScheduledScenario<u8> {
    ScheduledScenario::new(Ident::from(name), Interval::from_secs(secs), 0u8)
}

fn details_of(stats: &Stats, name: &str) -> ScenarioDetails {
    stats.details_of(&Ident::from(name)).unwrap()
}

#[test]
fn fresh_registry_is_empty() {
    let stats = Stats::new();
    assert!(stats.export_details().is_empty());
    assert!(stats.export_logs(&Ident::from("st")).is_none());
    assert_eq!(DEFAULT_LOG_CAPACITY, 1024);
}

#[test]
fn registration_starts_with_a_fresh_record() {
    let mut stats = Stats::new();
    assert_eq!(stats.register_scenario(&scheduled("st", 5)), None);
    let details = details_of(&stats, "st");
    assert_eq!(details.ident, Ident::from("st"));
    assert_eq!(details.runs, 0);
    assert_eq!(details.failures, 0);
    assert_eq!(details.interval.as_nanos(), 5_000_000_000);
    assert_eq!(details.last_status, ScenarioStatus::NotLaunchedYet);
    let logs = stats.export_logs(&Ident::from("st")).unwrap();
    assert_eq!(logs.scenario_ident, Ident::from("st"));
    assert!(logs.content.is_empty());
}

#[test]
fn second_registration_changes_nothing() {
    let mut stats = Stats::new();
    stats.register_scenario(&scheduled("st", 5));
    stats.report_launch(Ident::from("st"));
    stats.report_failure(Ident::from("st"));
    stats.report_logs(Ident::from("st"), String::from("line"));
    assert_eq!(
        stats.register_scenario(&scheduled("st", 9)),
        Some(StatsWarning::AlreadyRegistered)
    );
    let details = details_of(&stats, "st");
    assert_eq!((details.runs, details.failures), (1, 1));
    assert_eq!(details.interval, Interval::from_secs(5));
    assert_eq!(details.last_status, ScenarioStatus::Failure);
    assert_eq!(stats.export_details().len(), 1);
    assert_eq!(stats.export_logs(&Ident::from("st")).unwrap().content, vec!["line"]);
}

#[test]
fn reports_count_runs_and_failures() {
    let mut stats = Stats::new();
    stats.register_scenario(&scheduled("a", 1));
    stats.register_scenario(&scheduled("b", 2));

    assert_eq!(stats.report_launch(Ident::from("a")), None);
    let running = details_of(&stats, "a");
    assert_eq!((running.runs, running.failures), (0, 0));
    assert_eq!(running.last_status, ScenarioStatus::Running);

    assert_eq!(stats.report_success(Ident::from("a")), None);
    let succeeded = details_of(&stats, "a");
    assert_eq!((succeeded.runs, succeeded.failures), (1, 0));
    assert_eq!(succeeded.last_status, ScenarioStatus::Success);

    stats.report_launch(Ident::from("a"));
    assert_eq!(stats.report_failure(Ident::from("a")), None);
    let failed = details_of(&stats, "a");
    assert_eq!((failed.runs, failed.failures), (2, 1));
    assert_eq!(failed.last_status, ScenarioStatus::Failure);

    let untouched = details_of(&stats, "b");
    assert_eq!((untouched.runs, untouched.failures), (0, 0));
    assert_eq!(untouched.last_status, ScenarioStatus::NotLaunchedYet);
}

#[test]
fn failures_never_exceed_runs() {
    let mut stats = Stats::new();
    stats.register_scenario(&scheduled("a", 1));
    let mut last = (0u32, 0u32);
    for round in 0..50u32 {
        stats.report_launch(Ident::from("a"));
        if round % 3 == 0 {
            stats.report_failure(Ident::from("a"));
        } else {
            stats.report_success(Ident::from("a"));
        }
        let details = details_of(&stats, "a");
        assert!(details.failures <= details.runs);
        assert!(details.runs >= last.0 && details.failures >= last.1);
        assert_eq!(details.runs, last.0 + 1);
        last = (details.runs, details.failures);
    }
    assert_eq!(last, (50, 17));
}

#[test]
fn unregistered_reports_leave_no_trace() {
    let mut stats = Stats::new();
    stats.register_scenario(&scheduled("st", 5));
    assert_eq!(stats.report_success(Ident::from("ghost")), Some(StatsWarning::NotRegistered));
    assert_eq!(stats.report_launch(Ident::from("ghost")), Some(StatsWarning::NotRegistered));
    assert_eq!(stats.report_failure(Ident::from("ghost")), Some(StatsWarning::NotRegistered));
    assert_eq!(
        stats.report_logs(Ident::from("ghost"), String::from("boo")),
        Some(StatsWarning::NotRegistered)
    );
    assert!(stats.details_of(&Ident::from("ghost")).is_none());
    assert!(stats.export_logs(&Ident::from("ghost")).is_none());
    let exported = stats.export_details();
    assert_eq!(exported.len(), 1);
    assert_eq!(exported[0].ident, Ident::from("st"));
    assert_eq!(exported[0].runs, 0);
}

#[test]
fn details_are_exported_in_order_of_registration() {
    let mut stats = Stats::new();
    for name in ["c", "a", "b"] {
        stats.register_scenario(&scheduled(name, 1));
    }
    let names: Vec<Ident> = stats.export_details().into_iter().map(|d| d.ident).collect();
    assert_eq!(names, vec![Ident::from("c"), Ident::from("a"), Ident::from("b")]);
}

#[test]
fn log_ring_evicts_the_oldest_line() {
    let mut stats = Stats::with_log_capacity(3);
    stats.register_scenario(&scheduled("st", 5));
    for line in ["one", "two", "three"] {
        assert_eq!(stats.report_logs(Ident::from("st"), String::from(line)), None);
    }
    assert_eq!(
        stats.export_logs(&Ident::from("st")).unwrap().content,
        vec!["one", "two", "three"]
    );
    stats.report_logs(Ident::from("st"), String::from("four"));
    assert_eq!(
        stats.export_logs(&Ident::from("st")).unwrap().content,
        vec!["two", "three", "four"]
    );
    for n in 0..100 {
        stats.report_logs(Ident::from("st"), format!("line {}", n));
        assert!(stats.export_logs(&Ident::from("st")).unwrap().content.len() <= 3);
    }
    assert_eq!(
        stats.export_logs(&Ident::from("st")).unwrap().content,
        vec!["line 97", "line 98", "line 99"]
    );
}

#[test]
fn default_ring_holds_a_thousand_and_twenty_four_lines() {
    let mut stats = Stats::new();
    stats.register_scenario(&scheduled("st", 5));
    for n in 0..1030 {
        stats.report_logs(Ident::from("st"), format!("{}", n));
    }
    let content = stats.export_logs(&Ident::from("st")).unwrap().content;
    assert_eq!(content.len(), 1024);
    assert_eq!(content[0], "6");
    assert_eq!(content[1023], "1029");
}

#[test]
fn ring_without_room_keeps_nothing() {
    let mut logs = ScenarioLogs::new(Ident::from("st"));
    logs.append(String::from("lost"), 0);
    assert!(logs.content.is_empty());
    logs.append(String::from("kept"), 1);
    logs.append(String::from("newer"), 1);
    assert_eq!(logs.content, vec!["newer"]);
}

#[test]
fn record_follows_the_status() {
    let mut details = ScenarioDetails::new(&scheduled("st", 5));
    details.record(ScenarioStatus::Running);
    assert_eq!((details.runs, details.failures), (0, 0));
    details.record(ScenarioStatus::Failure);
    assert_eq!((details.runs, details.failures), (1, 1));
    details.record(ScenarioStatus::Success);
    assert_eq!((details.runs, details.failures), (2, 1));
    assert_eq!(details.last_status, ScenarioStatus::Success);
}

#[test]
fn schedule_registers_and_skips_the_first_tick() {
    let mut stats = Stats::new();
    let scenario = scheduled("st", 5);
    let (cadence, warning) = schedule_scenario(&scenario, &mut stats);
    assert_eq!(warning, None);
    assert_eq!(
        cadence,
        Cadence { first_run_after: Interval::from_secs(5), period: Interval::from_secs(5) }
    );
    assert_eq!(details_of(&stats, "st").last_status, ScenarioStatus::NotLaunchedYet);
    let (_, again) = schedule_scenario(&scenario, &mut stats);
    assert_eq!(again, Some(StatsWarning::AlreadyRegistered));
}

#[test]
fn two_ticks_of_a_passing_scenario() {
    let mut stats = Stats::new();
    let scenario = scheduled("st", 5);
    schedule_scenario(&scenario, &mut stats);
    for _ in 0..2 {
        let id = scenario.ident();
        assert_eq!(report_tick(&mut stats, &id), None);
        assert_eq!(details_of(&stats, "st").last_status, ScenarioStatus::Running);
        forward_logging(&mut stats, (id.clone(), String::from("Ready to go")));
        forward_logging(&mut stats, (id.clone(), String::from("Done")));
        assert_eq!(report_return(&mut stats, &id, true), None);
    }
    let details = details_of(&stats, "st");
    assert_eq!((details.runs, details.failures), (2, 0));
    assert_eq!(details.interval.as_nanos(), 5_000_000_000);
    assert_eq!(details.last_status, ScenarioStatus::Success);
    assert_eq!(
        stats.export_logs(&Ident::from("st")).unwrap().content,
        vec!["Ready to go", "Done", "Ready to go", "Done"]
    );
}

#[test]
fn two_ticks_of_a_failing_scenario() {
    let mut stats = Stats::new();
    let scenario = scheduled("st", 5);
    schedule_scenario(&scenario, &mut stats);
    for _ in 0..2 {
        let id = scenario.ident();
        report_tick(&mut stats, &id);
        report_return(&mut stats, &id, false);
    }
    let details = details_of(&stats, "st");
    assert_eq!((details.runs, details.failures), (2, 2));
    assert_eq!(details.last_status, ScenarioStatus::Failure);
}

#[test]
fn failure_of_one_scenario_does_not_touch_another() {
    let mut stats = Stats::new();
    schedule_scenario(&scheduled("good", 1), &mut stats);
    schedule_scenario(&scheduled("bad", 1), &mut stats);
    report_tick(&mut stats, &Ident::from("bad"));
    report_return(&mut stats, &Ident::from("bad"), false);
    let good = details_of(&stats, "good");
    assert_eq!((good.runs, good.failures), (0, 0));
    assert_eq!(good.last_status, ScenarioStatus::NotLaunchedYet);
    assert_eq!(report_tick(&mut stats, &Ident::from("nobody")), Some(StatsWarning::NotRegistered));
}

#[test]
fn reports_are_possible_while_the_counter_has_room() {
    let mut stats = Stats::new();
    stats.register_scenario(&scheduled("st", 5));
    assert!(stats.can_report(&Ident::from("st")));
    assert!(stats.can_report(&Ident::from("ghost")));
    stats.report_success(Ident::from("st"));
    assert!(stats.can_report(&Ident::from("st")));
}
