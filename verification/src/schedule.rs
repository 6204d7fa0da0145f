//! The scheduler: every scenario runs on its own cadence, and whatever happens to it is
//! reported to the listener.
//!
//! Waiting for the next tick and running the scenario is left to whoever drives the
//! schedule; what is reported, and when, is decided here.

use vstd::prelude::*;

use crate::ident::Ident;
use crate::interval::Interval;
use crate::logger::LogLine;
use crate::scenario::{DetailsModel, ScenarioStatus, ScheduledScenario};
use crate::stats::{
    can_count, logged, registered, registered_logs, reported, EventListener, StatsWarning,
};

verus! {

/// When a scenario runs.
#[derive(Debug, Clone, Copy, PartialEq, Eq, Structural)]
pub struct Cadence {
    /// How long after the start of the schedule the scenario runs for the first time.
    pub first_run_after: Interval,
    /// How long after the start of one run the next one starts.
    pub period: Interval,
}

/// Puts `scenario` on the schedule: it is made known to the listener and runs for the
/// first time after one full pause, then again after every further pause.
pub fn schedule_scenario<S, EL: EventListener>(
    scenario: &ScheduledScenario<S>,
    event_listener: &mut EL,
) -> (scheduled: (Cadence, Option<StatsWarning>))
    ensures
        scheduled.0.first_run_after == scenario.interval_spec(),
        scheduled.0.period == scenario.interval_spec(),
        scheduled.0.period.nanos > 0,
        final(event_listener).details() == registered(
            old(event_listener).details(),
            scenario.ident_spec()@,
            scenario.interval_spec(),
        ),
        final(event_listener).logs() == registered_logs(
            old(event_listener).logs(),
            scenario.ident_spec()@,
        ),
        final(event_listener).log_capacity() == old(event_listener).log_capacity(),
        scheduled.1 == if old(event_listener).details().contains_key(scenario.ident_spec()@) {
            Some(StatsWarning::AlreadyRegistered)
        } else {
            None
        },
{
    let warning = event_listener.register_scenario(scenario);
    let period = scenario.interval();
    (Cadence { first_run_after: period, period }, warning)
}

/// What the records say once a run of the scenario named `ident` has begun and ended.
pub open spec fn after_run(
    details: Map<Seq<char>, DetailsModel>,
    ident: Seq<char>,
    succeeded: bool,
) -> Map<Seq<char>, DetailsModel> {
    reported(
        reported(details, ident, ScenarioStatus::Running),
        ident,
        if succeeded {
            ScenarioStatus::Success
        } else {
            ScenarioStatus::Failure
        },
    )
}

/// Reports that the run of the scenario named `scenario_ident`, which the tick has just
/// started, is under way.
pub fn report_tick<EL: EventListener>(event_listener: &mut EL, scenario_ident: &Ident) -> (warning:
    Option<StatsWarning>)
    ensures
        final(event_listener).details() == reported(
            old(event_listener).details(),
            scenario_ident@,
            ScenarioStatus::Running,
        ),
        final(event_listener).logs() == old(event_listener).logs(),
        final(event_listener).log_capacity() == old(event_listener).log_capacity(),
        warning is None <==> old(event_listener).details().contains_key(scenario_ident@),
{
    event_listener.report_launch(scenario_ident.clone())
}

/// Reports how the run of the scenario named `scenario_ident` has ended: as a success if
/// the scenario returned without an error, as a failure otherwise.
pub fn report_return<EL: EventListener>(
    event_listener: &mut EL,
    scenario_ident: &Ident,
    succeeded: bool,
) -> (warning: Option<StatsWarning>)
    requires
        can_count(old(event_listener).details(), scenario_ident@),
    ensures
        final(event_listener).details() == reported(
            old(event_listener).details(),
            scenario_ident@,
            if succeeded {
                ScenarioStatus::Success
            } else {
                ScenarioStatus::Failure
            },
        ),
        final(event_listener).logs() == old(event_listener).logs(),
        final(event_listener).log_capacity() == old(event_listener).log_capacity(),
        warning is None <==> old(event_listener).details().contains_key(scenario_ident@),
{
    if succeeded {
        event_listener.report_success(scenario_ident.clone())
    } else {
        event_listener.report_failure(scenario_ident.clone())
    }
}

/// Hands a line that the log tap has let through to the listener.
pub fn forward_logging<EL: EventListener>(logs_listener: &mut EL, line: LogLine) -> (warning: Option<
    StatsWarning,
>)
    ensures
        final(logs_listener).logs() == logged(
            old(logs_listener).logs(),
            line.0@,
            line.1@,
            old(logs_listener).log_capacity(),
        ),
        final(logs_listener).details() == old(logs_listener).details(),
        final(logs_listener).log_capacity() == old(logs_listener).log_capacity(),
        warning is None <==> old(logs_listener).logs().contains_key(line.0@),
{
    let (ident, log) = line;
    logs_listener.report_logs(ident, log)
}

/// One run of a registered scenario, from its tick to its return, counts as exactly one
/// run, and as one failure if and only if it failed. When it has returned, the status
/// tells how; the pause of the scenario and the records of all others are as before.
pub proof fn lemma_one_run_counts_once(
    details: Map<Seq<char>, DetailsModel>,
    ident: Seq<char>,
    succeeded: bool,
)
    requires
        details.contains_key(ident),
    ensures
        after_run(details, ident, succeeded).dom() == details.dom(),
        after_run(details, ident, succeeded)[ident].runs == details[ident].runs + 1,
        after_run(details, ident, succeeded)[ident].failures == details[ident].failures + if succeeded {
            0int
        } else {
            1int
        },
        after_run(details, ident, succeeded)[ident].last_status == if succeeded {
            ScenarioStatus::Success
        } else {
            ScenarioStatus::Failure
        },
        after_run(details, ident, succeeded)[ident].interval == details[ident].interval,
        after_run(details, ident, succeeded)[ident].ident == details[ident].ident,
        reported(details, ident, ScenarioStatus::Running)[ident].runs == details[ident].runs,
        reported(details, ident, ScenarioStatus::Running)[ident].failures
            == details[ident].failures,
        forall|other: Seq<char>|
            other != ident && details.contains_key(other) ==> after_run(details, ident, succeeded)[other]
                == details[other],
{
    assert(after_run(details, ident, succeeded).dom() =~= details.dom());
}

} // verus!
