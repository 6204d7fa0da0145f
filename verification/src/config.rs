//! The timetable: where the node is, where the statistics are exposed, and which
//! scenarios run how often.

use vstd::prelude::*;
use vstd::string::*;

use crate::ident::Ident;
use crate::interval::Interval;
use crate::multisig::Multisig;
use crate::random_transfers::RandomTransfers;
use crate::scenario::ScheduledScenario;
use crate::transfer::{RoundRobin, SimpleTransfer};
use crate::vest::Vest;
use crate::vesting::{SchedulesMerging, SchedulesMergingError};

verus! {

/// Any of the scenarios that can be scheduled.
#[derive(Debug, Clone, Copy)]
pub enum Scenario {
    /// One transfer from one fixed account to another.
    SimpleTransfer(SimpleTransfer),
    /// Transfers around a ring of accounts.
    RoundRobin(RoundRobin),
    /// Transfers between random accounts of a pool.
    RandomTransfers(RandomTransfers),
    /// A signature aggregation.
    Multisig(Multisig),
    /// Vesting schedules brought to the limit and merged.
    VestingSchedulesMerging(SchedulesMerging),
    /// A vested transfer and a claim.
    VestingVest(Vest),
}

/// What the merging scenario needs to know of the chain before it can be set up.
#[derive(Debug, Clone, Copy, PartialEq, Eq, Structural)]
pub struct ChainConstants {
    /// How many vesting schedules an account may hold.
    pub max_vesting_schedules: u32,
    /// How little a vested transfer may carry.
    pub min_vested_transfer: u128,
}

/// What the timetable says about the scenario of one row.
#[derive(Debug, Clone, Copy, PartialEq, Eq, Structural)]
pub enum ScenarioConfig {
    /// One transfer from one fixed account to another.
    SimpleTransfer(SimpleTransfer),
    /// Transfers around a ring of accounts.
    RoundRobin(RoundRobin),
    /// Transfers between random accounts of a pool.
    RandomTransfers(RandomTransfers),
    /// A signature aggregation.
    Multisig(Multisig),
    /// Vesting schedules brought to the limit and merged; all it needs is read from the
    /// chain.
    VestingSchedulesMerging,
    /// A vested transfer and a claim.
    VestingVest(Vest),
}

/// Why a timetable cannot be scheduled. The number is the place of the offending row,
/// counted from zero.
#[derive(Debug, Clone, Copy, PartialEq, Eq, Structural)]
pub enum ConfigError {
    /// The row gives its scenario no name.
    EmptyIdent(usize),
    /// The row asks for runs without any pause between them.
    ZeroInterval(usize),
    /// The row gives its scenario the name of an earlier row.
    DuplicateIdent(usize),
    /// The row asks for the merging scenario on a chain that allows fewer than two
    /// schedules per account.
    LimitTooLow(usize),
}

impl ScenarioConfig {
    /// Whether the scenario can be set up on a chain with the given constants.
    pub open spec fn fits_chain(self, constants: ChainConstants) -> bool {
        self is VestingSchedulesMerging ==> constants.max_vesting_schedules >= 2
    }

    /// Whether `scenario` is what this row describes.
    pub open spec fn describes(self, constants: ChainConstants, scenario: Scenario) -> bool {
        match self {
            ScenarioConfig::SimpleTransfer(s) => scenario == Scenario::SimpleTransfer(s),
            ScenarioConfig::RoundRobin(s) => scenario == Scenario::RoundRobin(s),
            ScenarioConfig::RandomTransfers(s) => scenario == Scenario::RandomTransfers(s),
            ScenarioConfig::Multisig(s) => scenario == Scenario::Multisig(s),
            ScenarioConfig::VestingSchedulesMerging => scenario is VestingSchedulesMerging
                && scenario->VestingSchedulesMerging_0.limit() == constants.max_vesting_schedules
                && scenario->VestingSchedulesMerging_0.value() == constants.min_vested_transfer,
            ScenarioConfig::VestingVest(s) => scenario == Scenario::VestingVest(s),
        }
    }

    /// Sets the scenario up.
    pub fn to_scenario(&self, constants: &ChainConstants) -> (outcome: Result<
        Scenario,
        SchedulesMergingError,
    >)
        ensures
            outcome is Ok <==> self.fits_chain(*constants),
            outcome is Ok ==> self.describes(*constants, outcome->Ok_0),
            outcome is Err ==> outcome->Err_0 == SchedulesMergingError::LimitTooLow,
    {
        match self {
            ScenarioConfig::SimpleTransfer(s) => Ok(Scenario::SimpleTransfer(*s)),
            ScenarioConfig::RoundRobin(s) => Ok(Scenario::RoundRobin(*s)),
            ScenarioConfig::RandomTransfers(s) => Ok(Scenario::RandomTransfers(*s)),
            ScenarioConfig::Multisig(s) => Ok(Scenario::Multisig(*s)),
            ScenarioConfig::VestingSchedulesMerging => {
                match SchedulesMerging::new(
                    constants.max_vesting_schedules,
                    constants.min_vested_transfer,
                ) {
                    Ok(merging) => Ok(Scenario::VestingSchedulesMerging(merging)),
                    Err(error) => Err(error),
                }
            },
            ScenarioConfig::VestingVest(s) => Ok(Scenario::VestingVest(*s)),
        }
    }
}

/// One row of the timetable.
#[derive(Debug)]
pub struct ScenarioInstanceConfig {
    /// The name of this instance of the scenario.
    pub ident: Ident,
    /// The pause between two runs.
    pub interval: Interval,
    /// The scenario.
    pub scenario_config: ScenarioConfig,
}

/// What is wrong with the row, taken by itself: a missing name, then a missing pause,
/// then a chain that does not fit.
pub open spec fn row_fault(row: ScenarioInstanceConfig, constants: ChainConstants, place: usize) -> Option<
    ConfigError,
> {
    if row.ident@.len() == 0 {
        Some(ConfigError::EmptyIdent(place))
    } else if row.interval.nanos == 0 {
        Some(ConfigError::ZeroInterval(place))
    } else if !row.scenario_config.fits_chain(constants) {
        Some(ConfigError::LimitTooLow(place))
    } else {
        None
    }
}

/// Whether the row at `place` bears the name of an earlier row.
pub open spec fn repeats(rows: Seq<ScenarioInstanceConfig>, place: int) -> bool {
    exists|earlier: int| 0 <= earlier < place && rows[earlier].ident@ == rows[place].ident@
}

/// What is wrong with the row at `place` of the timetable: what is wrong with it by
/// itself, or else that it bears the name of an earlier row.
pub open spec fn fault_at(rows: Seq<ScenarioInstanceConfig>, constants: ChainConstants, place: int) -> Option<
    ConfigError,
> {
    if row_fault(rows[place], constants, place as usize) is Some {
        row_fault(rows[place], constants, place as usize)
    } else if repeats(rows, place) {
        Some(ConfigError::DuplicateIdent(place as usize))
    } else {
        None
    }
}

/// Whether `scheduled` is the row as it is scheduled.
pub open spec fn scheduled_as(
    row: ScenarioInstanceConfig,
    constants: ChainConstants,
    scheduled: ScheduledScenario<Scenario>,
) -> bool {
    &&& scheduled.ident_spec()@ == row.ident@
    &&& scheduled.interval_spec() == row.interval
    &&& row.scenario_config.describes(constants, scheduled.scenario_spec())
}

impl ScenarioInstanceConfig {
    /// Schedules the scenario of this row, which stands at `place` of the timetable.
    pub fn construct_scenario(&self, constants: &ChainConstants, place: usize) -> (outcome: Result<
        ScheduledScenario<Scenario>,
        ConfigError,
    >)
        ensures
            outcome is Err <==> row_fault(*self, *constants, place) is Some,
            outcome is Err ==> Some(outcome->Err_0) == row_fault(*self, *constants, place),
            outcome is Ok ==> scheduled_as(*self, *constants, outcome->Ok_0),
    {
        if self.ident.is_empty() {
            return Err(ConfigError::EmptyIdent(place));
        }
        if !self.interval.is_positive() {
            return Err(ConfigError::ZeroInterval(place));
        }
        match self.scenario_config.to_scenario(constants) {
            Err(_) => Err(ConfigError::LimitTooLow(place)),
            Ok(scenario) => {
                let scheduled = ScheduledScenario::new(self.ident.clone(), self.interval, scenario);
                let outcome: Result<ScheduledScenario<Scenario>, ConfigError> = Ok(scheduled);
                assert(scheduled_as(*self, *constants, outcome->Ok_0));
                outcome
            },
        }
    }
}

/// Where the node is and where the statistics are exposed.
#[derive(Debug)]
pub struct Environment {
    /// The address of the node.
    pub node: String,
    /// Where the statistics are exposed.
    pub expose_host: String,
}

impl Environment {
    /// Where the statistics are exposed.
    pub fn get_expose_host(&self) -> (host: &str)
        ensures
            host@ == self.expose_host@,
    {
        self.expose_host.as_str()
    }

    /// The address of the node, to which a new connection is made.
    pub fn get_new_connection(&self) -> (node: &str)
        ensures
            node@ == self.node@,
    {
        self.node.as_str()
    }
}

/// The timetable.
#[derive(Debug)]
pub struct Config {
    /// Where the node is and where the statistics are exposed.
    pub environment: Environment,
    /// The rows.
    pub scenarios: Vec<ScenarioInstanceConfig>,
}

impl Config {
    /// Where the statistics are exposed.
    pub fn get_expose_host(&self) -> (host: &str)
        ensures
            host@ == self.environment.expose_host@,
    {
        self.environment.get_expose_host()
    }

    /// Schedules all rows, in their order. The first row that cannot be scheduled, or
    /// that bears the name of an earlier row, decides the error.
    pub fn construct_scenarios(&self, constants: &ChainConstants) -> (outcome: Result<
        Vec<ScheduledScenario<Scenario>>,
        ConfigError,
    >)
        ensures
            outcome is Ok <==> forall|i: int|
                0 <= i < self.scenarios@.len() ==> (#[trigger] fault_at(
                    self.scenarios@,
                    *constants,
                    i,
                )) is None,
            outcome is Ok ==> outcome->Ok_0@.len() == self.scenarios@.len() && forall|i: int|
                0 <= i < self.scenarios@.len() ==> scheduled_as(
                    self.scenarios@[i],
                    *constants,
                    #[trigger] outcome->Ok_0@[i],
                ),
            outcome is Err ==> exists|i: int|
                0 <= i < self.scenarios@.len() && Some(outcome->Err_0) == #[trigger] fault_at(
                    self.scenarios@,
                    *constants,
                    i,
                ) && forall|j: int| 0 <= j < i ==> (#[trigger] fault_at(
                    self.scenarios@,
                    *constants,
                    j,
                )) is None,
    {
        let mut scheduled: Vec<ScheduledScenario<Scenario>> = Vec::new();
        let mut i: usize = 0;
        while i < self.scenarios.len()
            invariant
                i <= self.scenarios@.len(),
                scheduled@.len() == i,
                forall|j: int|
                    0 <= j < i ==> (#[trigger] fault_at(self.scenarios@, *constants, j)) is None,
                forall|j: int|
                    0 <= j < i ==> scheduled_as(
                        self.scenarios@[j],
                        *constants,
                        #[trigger] scheduled@[j],
                    ),
            decreases self.scenarios@.len() - i,
        {
            let row = &self.scenarios[i];
            match row.construct_scenario(constants, i) {
                Err(error) => {
                    assert(Some(error) == fault_at(self.scenarios@, *constants, i as int));
                    return Err(error);
                },
                Ok(scenario) => {
                    let mut j: usize = 0;
                    while j < i
                        invariant
                            j <= i,
                            i < self.scenarios@.len(),
                            *row == self.scenarios@[i as int],
                            row_fault(self.scenarios@[i as int], *constants, i) is None,
                            forall|k: int|
                                0 <= k < i ==> (#[trigger] fault_at(
                                    self.scenarios@,
                                    *constants,
                                    k,
                                )) is None,
                            forall|k: int|
                                0 <= k < j ==> self.scenarios@[k].ident@
                                    != self.scenarios@[i as int].ident@,
                        decreases i - j,
                    {
                        if self.scenarios[j].ident == row.ident {
                            assert(repeats(self.scenarios@, i as int));
                            assert(Some(ConfigError::DuplicateIdent(i)) == fault_at(
                                self.scenarios@,
                                *constants,
                                i as int,
                            ));
                            return Err(ConfigError::DuplicateIdent(i));
                        }
                        j = j + 1;
                    }
                    assert(!repeats(self.scenarios@, i as int));
                    assert(fault_at(self.scenarios@, *constants, i as int) is None);
                    scheduled.push(scenario);
                },
            }
            i = i + 1;
        }
        let ghost all = scheduled@;
        let outcome: Result<Vec<ScheduledScenario<Scenario>>, ConfigError> = Ok(scheduled);
        assert(outcome->Ok_0@ == all);
        outcome
    }
}

} // verus!
