use traffic_maker::config::{
    ChainConstants, Config, ConfigError, Environment, Scenario, ScenarioConfig,
    ScenarioInstanceConfig,
};
use traffic_maker::endowment::{flatten_accounts, perform_endowments, Account, Endowment};
use traffic_maker::ident::Ident;
use traffic_maker::interval::{has_exponent, parse_interval, Interval, IntervalError};
use traffic_maker::scenario::{Level, ScheduledScenario};
use traffic_maker::text::{decimal, joined};
use traffic_maker::transfer::SimpleTransfer;
use traffic_maker::vest::{Vest, VestKind};
use traffic_maker::vesting::SchedulesMergingError;

fn constants() -> ChainConstants {
    ChainConstants { max_vesting_schedules: 3, min_vested_transfer: 1000 }
}

fn row(name: &str, secs: u64, scenario_config: ScenarioConfig) -> ScenarioInstanceConfig {
    ScenarioInstanceConfig {
        ident: Ident::from(name),
        interval: Interval::from_secs(secs),
        scenario_config,
    }
}

fn simple() -> ScenarioConfig {
    ScenarioConfig::SimpleTransfer(SimpleTransfer { transfer_value: 100 })
}

fn config(scenarios: Vec<ScenarioInstanceConfig>) -> Config {
    Config {
        environment: Environment {
            node: String::from("ws://127.0.0.1:9944"),
            expose_host: String::from("127.0.0.1:8080"),
        },
        scenarios,
    }
}

#[test]
fn timetable_is_scheduled_row_by_row() {
    let config = config(vec![
        row("st", 5, simple()),
        row("merge", 60, ScenarioConfig::VestingSchedulesMerging),
        row("vest", 90, ScenarioConfig::VestingVest(Vest { vest_kind: VestKind::VestOther })),
    ]);
    assert_eq!(config.get_expose_host(), "127.0.0.1:8080");
    assert_eq!(config.environment.get_expose_host(), "127.0.0.1:8080");
    assert_eq!(config.environment.get_new_connection(), "ws://127.0.0.1:9944");
    let scheduled = config.construct_scenarios(&constants()).unwrap();
    assert_eq!(scheduled.len(), 3);
    assert_eq!(scheduled[0].ident(), Ident::from("st"));
    assert_eq!(scheduled[0].interval().as_nanos(), 5_000_000_000);
    assert!(matches!(
        scheduled[0].scenario(),
        Scenario::SimpleTransfer(SimpleTransfer { transfer_value: 100 })
    ));
    match scheduled[1].scenario() {
        Scenario::VestingSchedulesMerging(merging) => {
            assert_eq!(merging.schedules_limit(), 3);
            assert_eq!(merging.transfer_value(), 1000);
        }
        _ => panic!("the merging scenario was expected"),
    }
    assert_eq!(scheduled[2].interval(), Interval::from_secs(90));
}

#[test]
fn rows_that_cannot_be_scheduled_are_turned_down() {
    assert_eq!(
        config(vec![row("a", 1, simple()), row("", 1, simple())])
            .construct_scenarios(&constants())
            .err(),
        Some(ConfigError::EmptyIdent(1))
    );
    assert_eq!(
        config(vec![row("a", 0, simple())]).construct_scenarios(&constants()).err(),
        Some(ConfigError::ZeroInterval(0))
    );
    assert_eq!(
        config(vec![row("a", 1, simple()), row("b", 1, simple()), row("a", 2, simple())])
            .construct_scenarios(&constants())
            .err(),
        Some(ConfigError::DuplicateIdent(2))
    );
    let low = ChainConstants { max_vesting_schedules: 1, min_vested_transfer: 1000 };
    assert_eq!(
        config(vec![row("m", 1, ScenarioConfig::VestingSchedulesMerging)])
            .construct_scenarios(&low)
            .err(),
        Some(ConfigError::LimitTooLow(0))
    );
    assert_eq!(
        ScenarioConfig::VestingSchedulesMerging.to_scenario(&low).err(),
        Some(SchedulesMergingError::LimitTooLow)
    );
    assert_eq!(
        config(vec![row("", 0, simple()), row("", 0, simple())])
            .construct_scenarios(&constants())
            .err(),
        Some(ConfigError::EmptyIdent(0))
    );
    assert!(config(vec![]).construct_scenarios(&constants()).unwrap().is_empty());
}

#[test]
fn invocation_is_logged_under_the_name_of_the_scenario() {
    let scheduled = ScheduledScenario::new(Ident::from("st"), Interval::from_secs(5), 41u8);
    let (scenario, mut logger) = scheduled.play();
    assert_eq!(*scenario, 41);
    logger.info("Ready to go");
    let records = logger.take_records();
    assert_eq!(records[0].target, Ident::from("st"));
    assert_eq!(records[0].level, Level::Info);
}

#[test]
fn intervals_are_read_from_human_text() {
    assert_eq!(parse_interval("5s"), Ok(Interval::from_secs(5)));
    assert_eq!(parse_interval("1m 30s"), Ok(Interval::from_secs(90)));
    assert_eq!(parse_interval("250 milliseconds"), Ok(Interval::from_millis(250)));
    assert_eq!(parse_interval("5"), Ok(Interval::from_secs(5)));
    assert_eq!(parse_interval("1.5s"), Ok(Interval::from_millis(1500)));
    assert_eq!(parse_interval("soon"), Err(IntervalError::Unparseable));
    assert_eq!(parse_interval(""), Err(IntervalError::Unparseable));
    assert_eq!(parse_interval("1e3 ms"), Err(IntervalError::ExponentNotAccepted));
    assert_eq!(parse_interval("2E+1s"), Err(IntervalError::ExponentNotAccepted));
}

#[test]
fn exponents_are_told_from_unit_words() {
    assert!(has_exponent("1e5"));
    assert!(has_exponent("3 e-2 s"));
    assert!(!has_exponent("10 seconds"));
    assert!(!has_exponent("2 weeks 1 year"));
    assert!(!has_exponent("e"));
    assert!(!has_exponent(""));
}

#[test]
fn intervals_convert_between_units() {
    assert_eq!(Interval::from_secs(5).as_nanos(), 5_000_000_000);
    assert_eq!(Interval::from_millis(1500).as_millis(), 1500);
    assert_eq!(Interval { nanos: 1_999_999 }.as_millis(), 1);
    assert!(Interval::from_millis(1).is_positive());
    assert!(!Interval::from_secs(0).is_positive());
    assert_eq!(Interval::from_secs(u64::MAX).as_nanos(), u64::MAX as u128 * 1_000_000_000);
}

#[test]
fn numbers_are_written_in_decimal() {
    assert_eq!(decimal(0), "0");
    assert_eq!(decimal(7), "7");
    assert_eq!(decimal(10), "10");
    assert_eq!(decimal(1024), "1024");
    assert_eq!(decimal(u128::MAX), "340282366920938463463374607431768211455");
    assert_eq!(joined("//Multisig", "49"), "//Multisig49");
}

#[test]
fn accounts_are_flattened_in_their_order() {
    let accounts = vec![
        Account { name: String::from("//Alice"), copies: None },
        Account { name: String::from("//RoundRobin"), copies: Some(3) },
        Account { name: String::from("//Nobody"), copies: Some(0) },
        Account { name: String::from("//Bob"), copies: None },
    ];
    assert_eq!(
        flatten_accounts(&accounts),
        vec!["//Alice", "//RoundRobin0", "//RoundRobin1", "//RoundRobin2", "//Bob"]
    );
    assert!(flatten_accounts(&vec![]).is_empty());
}

#[test]
fn endowments_are_ordered_in_real_amounts() {
    let endowments = vec![
        Endowment {
            amount: 5,
            accounts: vec![Account { name: String::from("//Multisig"), copies: Some(2) }],
        },
        Endowment { amount: 0, accounts: vec![] },
    ];
    let orders = perform_endowments(&endowments);
    assert_eq!(orders.len(), 2);
    assert_eq!(orders[0].amount, 5_000_000_000_000);
    assert_eq!(orders[0].seeds, vec!["//Multisig0", "//Multisig1"]);
    assert_eq!(orders[1].amount, 0);
    assert!(orders[1].seeds.is_empty());
}
