//! What is common to all scenarios: how one is scheduled, how it fails, and the records
//! that are kept about it.

use vstd::prelude::*;
use vstd::string::*;

use crate::ident::Ident;
use crate::interval::Interval;
use crate::text::joined;

verus! {

/// The ways in which any scenario may fail, whatever it does on the chain.
#[derive(Debug, Clone, Copy, PartialEq, Eq, Structural)]
pub enum ScenarioError {
    /// A check that the scenario makes on its own results did not hold.
    ExecutionFailure,
    /// Every attempt to submit an extrinsic was turned down.
    CannotSendExtrinsic,
    /// The configured values contradict each other.
    BadConfig,
}

impl ScenarioError {
    /// The line by which the error is reported.
    pub open spec fn spec_message(&self) -> Seq<char> {
        match self {
            ScenarioError::ExecutionFailure => "Failure while executing scenario"@,
            ScenarioError::CannotSendExtrinsic => "Could not send extrinsic"@,
            ScenarioError::BadConfig => "Bad config values"@,
        }
    }

    /// The line by which the error is reported.
    pub fn message(&self) -> (text: String)
        ensures
            text@ == self.spec_message(),
    {
        match self {
            ScenarioError::ExecutionFailure => String::from_str("Failure while executing scenario"),
            ScenarioError::CannotSendExtrinsic => String::from_str("Could not send extrinsic"),
            ScenarioError::BadConfig => String::from_str("Bad config values"),
        }
    }
}

/// What can be put into a log line.
pub trait Loggable {
    /// The text by which the value is logged.
    spec fn text(&self) -> Seq<char>;

    /// The text by which the value is logged.
    fn to_text(&self) -> (text: String)
        ensures
            text@ == self.text(),
    ;
}

impl Loggable for () {
    open spec fn text(&self) -> Seq<char> {
        "()"@
    }

    fn to_text(&self) -> (text: String) {
        String::from_str("()")
    }
}

impl Loggable for ScenarioError {
    open spec fn text(&self) -> Seq<char> {
        self.spec_message()
    }

    fn to_text(&self) -> (text: String) {
        self.message()
    }
}

/// How much a log record matters, most urgent first.
#[derive(Debug, Clone, Copy, PartialEq, Eq, Structural)]
pub enum Level {
    /// Something went wrong.
    Error,
    /// Something looks wrong.
    Warn,
    /// A step worth telling.
    Info,
    /// A detail for whoever looks closer.
    Debug,
    /// Everything else.
    Trace,
}

/// One log record as plain mathematics.
pub struct RecordModel {
    /// How much the record matters.
    pub level: Level,
    /// The name of the scenario that the record belongs to.
    pub target: Seq<char>,
    /// What the record says.
    pub message: Seq<char>,
}

/// One log record, tagged with the name of the scenario that emitted it.
#[derive(Debug)]
pub struct LogRecord {
    /// How much the record matters.
    pub level: Level,
    /// The name of the scenario that the record belongs to.
    pub target: Ident,
    /// What the record says.
    pub message: String,
}

impl View for LogRecord {
    type V = RecordModel;

    open spec fn view(&self) -> RecordModel {
        RecordModel { level: self.level, target: self.target@, message: self.message@ }
    }
}

/// The words put before an error that is logged.
pub open spec fn error_prefix() -> Seq<char> {
    "Encountered error: "@
}

/// The words put before a result that is logged.
pub open spec fn success_prefix() -> Seq<char> {
    "Successfully obtained "@
}

/// The log of one invocation of one scenario. Every record that goes through it carries
/// the scenario's name, by which the log tap later routes it.
pub struct ScenarioLogging {
    ident: Ident,
    records: Vec<LogRecord>,
}

impl ScenarioLogging {
    /// The name that every record is tagged with.
    pub closed spec fn ident(&self) -> Seq<char> {
        self.ident@
    }

    /// The records emitted so far and not yet taken, oldest first.
    pub closed spec fn records(&self) -> Seq<RecordModel> {
        Seq::new(self.records@.len(), |i: int| self.records@[i]@)
    }

    /// A log bound to the scenario named `ident`, with no record in it.
    pub fn new(ident: Ident) -> (logger: Self)
        ensures
            logger.ident() == ident@,
            logger.records() == Seq::<RecordModel>::empty(),
    {
        let logger = ScenarioLogging { ident, records: Vec::new() };
        assert(logger.records() =~= Seq::<RecordModel>::empty());
        logger
    }

    /// Emits `message` at `level`.
    pub fn log(&mut self, level: Level, message: &str)
        ensures
            final(self).ident() == old(self).ident(),
            final(self).records() == old(self).records().push(
                RecordModel { level, target: old(self).ident(), message: message@ },
            ),
    {
        let record = LogRecord {
            level,
            target: self.ident.clone(),
            message: String::from_str(message),
        };
        self.records.push(record);
        assert(self.records() =~= old(self).records().push(
            RecordModel { level, target: old(self).ident(), message: message@ },
        ));
    }

    /// Emits `message` at the lowest level.
    pub fn trace(&mut self, message: &str)
        ensures
            final(self).ident() == old(self).ident(),
            final(self).records() == old(self).records().push(
                RecordModel { level: Level::Trace, target: old(self).ident(), message: message@ },
            ),
    {
        self.log(Level::Trace, message)
    }

    /// Emits `message` for whoever looks closer.
    pub fn debug(&mut self, message: &str)
        ensures
            final(self).ident() == old(self).ident(),
            final(self).records() == old(self).records().push(
                RecordModel { level: Level::Debug, target: old(self).ident(), message: message@ },
            ),
    {
        self.log(Level::Debug, message)
    }

    /// Emits `message` as a step worth telling.
    pub fn info(&mut self, message: &str)
        ensures
            final(self).ident() == old(self).ident(),
            final(self).records() == old(self).records().push(
                RecordModel { level: Level::Info, target: old(self).ident(), message: message@ },
            ),
    {
        self.log(Level::Info, message)
    }

    /// Emits `message` as a warning.
    pub fn warn(&mut self, message: &str)
        ensures
            final(self).ident() == old(self).ident(),
            final(self).records() == old(self).records().push(
                RecordModel { level: Level::Warn, target: old(self).ident(), message: message@ },
            ),
    {
        self.log(Level::Warn, message)
    }

    /// Emits `message` as an error.
    pub fn error(&mut self, message: &str)
        ensures
            final(self).ident() == old(self).ident(),
            final(self).records() == old(self).records().push(
                RecordModel { level: Level::Error, target: old(self).ident(), message: message@ },
            ),
    {
        self.log(Level::Error, message)
    }

    /// Logs how something ended and hands the result back as it came: an error is logged
    /// as an error, anything else at the lowest level.
    pub fn log_result<R: Loggable, E: Loggable>(&mut self, result: Result<R, E>) -> (same: Result<
        R,
        E,
    >)
        ensures
            same == result,
            final(self).ident() == old(self).ident(),
            final(self).records() == old(self).records().push(
                match result {
                    Ok(value) => RecordModel {
                        level: Level::Trace,
                        target: old(self).ident(),
                        message: success_prefix() + value.text(),
                    },
                    Err(error) => RecordModel {
                        level: Level::Error,
                        target: old(self).ident(),
                        message: error_prefix() + error.text(),
                    },
                },
            ),
    {
        match &result {
            Err(error) => {
                let said = error.to_text();
                let message = joined("Encountered error: ", said.as_str());
                self.error(message.as_str());
            },
            Ok(value) => {
                let said = value.to_text();
                let message = joined("Successfully obtained ", said.as_str());
                self.trace(message.as_str());
            },
        }
        result
    }

    /// Hands out the records emitted so far, oldest first, and forgets them.
    pub fn take_records(&mut self) -> (taken: Vec<LogRecord>)
        ensures
            final(self).ident() == old(self).ident(),
            final(self).records() == Seq::<RecordModel>::empty(),
            taken@.len() == old(self).records().len(),
            forall|i: int| 0 <= i < taken@.len() ==> #[trigger] taken@[i]@ == old(self).records()[i],
    {
        let mut taken: Vec<LogRecord> = Vec::new();
        std::mem::swap(&mut self.records, &mut taken);
        assert(self.records() =~= Seq::<RecordModel>::empty());
        taken
    }
}

/// Where a scheduled scenario stands.
#[derive(Debug, Clone, Copy, PartialEq, Eq, Structural)]
pub enum ScenarioStatus {
    /// The scenario waits for its first run.
    NotLaunchedYet,
    /// The last run went through.
    Success,
    /// The last run failed.
    Failure,
    /// A run is under way.
    Running,
}

/// A scenario together with its name and the pause between two of its runs.
pub struct ScheduledScenario<S> {
    ident: Ident,
    interval: Interval,
    scenario: S,
}

impl<S> ScheduledScenario<S> {
    /// The name given at construction.
    pub closed spec fn ident_spec(&self) -> Ident {
        self.ident
    }

    /// The pause given at construction.
    pub closed spec fn interval_spec(&self) -> Interval {
        self.interval
    }

    /// The scenario given at construction.
    pub closed spec fn scenario_spec(&self) -> S {
        self.scenario
    }

    #[verifier::type_invariant]
    spec fn well_scheduled(&self) -> bool {
        self.ident@.len() > 0 && self.interval.nanos > 0
    }

    /// Binds `scenario` to a non-empty name and a positive pause.
    pub fn new(ident: Ident, interval: Interval, scenario: S) -> (scheduled: Self)
        requires
            ident@.len() > 0,
            interval.nanos > 0,
        ensures
            scheduled.ident_spec() == ident,
            scheduled.interval_spec() == interval,
            scheduled.scenario_spec() == scenario,
    {
        ScheduledScenario { ident, interval, scenario }
    }

    /// The name of this instance; it is never empty.
    pub fn ident(&self) -> (ident: Ident)
        ensures
            ident == self.ident_spec(),
            ident@.len() > 0,
    {
        proof {
            use_type_invariant(self);
        }
        self.ident.clone()
    }

    /// The pause between two runs; it is never zero.
    pub fn interval(&self) -> (interval: Interval)
        ensures
            interval == self.interval_spec(),
            interval.nanos > 0,
    {
        proof {
            use_type_invariant(self);
        }
        self.interval
    }

    /// The scenario that is run.
    pub fn scenario(&self) -> (scenario: &S)
        ensures
            *scenario == self.scenario_spec(),
    {
        &self.scenario
    }

    /// Begins one invocation: hands out the scenario to run and a log that is bound to
    /// the name of this instance and holds no record yet.
    pub fn play(&self) -> (invocation: (&S, ScenarioLogging))
        ensures
            *invocation.0 == self.scenario_spec(),
            invocation.1.ident() == self.ident_spec()@,
            invocation.1.records() == Seq::<RecordModel>::empty(),
    {
        let logger = ScenarioLogging::new(self.ident.clone());
        (&self.scenario, logger)
    }
}

/// What the records say about one scenario, as plain mathematics.
pub struct DetailsModel {
    /// The characters of the scenario's name.
    pub ident: Seq<char>,
    /// How many runs have ended.
    pub runs: nat,
    /// How many of them failed.
    pub failures: nat,
    /// The pause between two runs.
    pub interval: Interval,
    /// Where the scenario stands.
    pub last_status: ScenarioStatus,
}

impl DetailsModel {
    /// The record of a scenario that has not run yet.
    pub open spec fn fresh(ident: Seq<char>, interval: Interval) -> DetailsModel {
        DetailsModel {
            ident,
            runs: 0,
            failures: 0,
            interval,
            last_status: ScenarioStatus::NotLaunchedYet,
        }
    }

    /// The record after the scenario has been seen in `status`. A run that ended counts
    /// once; a failed one counts once more among the failures. Starting a run counts
    /// nothing.
    pub open spec fn after(self, status: ScenarioStatus) -> DetailsModel {
        match status {
            ScenarioStatus::Success => DetailsModel {
                runs: self.runs + 1,
                last_status: status,
                ..self
            },
            ScenarioStatus::Failure => DetailsModel {
                runs: self.runs + 1,
                failures: self.failures + 1,
                last_status: status,
                ..self
            },
            _ => DetailsModel { last_status: status, ..self },
        }
    }

    /// No more failures than runs.
    pub open spec fn consistent(self) -> bool {
        self.failures <= self.runs
    }
}

/// The running record of one scheduled scenario.
#[derive(Debug)]
pub struct ScenarioDetails {
    /// The name of the scenario.
    pub ident: Ident,
    /// How many times the scenario has run to its end.
    pub runs: u32,
    /// How many times the scenario has failed.
    pub failures: u32,
    /// How often the scenario is run.
    pub interval: Interval,
    /// Where the scenario stands.
    pub last_status: ScenarioStatus,
}

impl View for ScenarioDetails {
    type V = DetailsModel;

    open spec fn view(&self) -> DetailsModel {
        DetailsModel {
            ident: self.ident@,
            runs: self.runs as nat,
            failures: self.failures as nat,
            interval: self.interval,
            last_status: self.last_status,
        }
    }
}

impl Clone for ScenarioDetails {
    fn clone(&self) -> (copy: Self)
        ensures
            copy == *self,
    {
        ScenarioDetails {
            ident: self.ident.clone(),
            runs: self.runs,
            failures: self.failures,
            interval: self.interval,
            last_status: self.last_status,
        }
    }
}

impl ScenarioDetails {
    /// The record of `scenario` before its first run.
    pub fn new<S>(scenario: &ScheduledScenario<S>) -> (details: Self)
        ensures
            details@ == DetailsModel::fresh(
                scenario.ident_spec()@,
                scenario.interval_spec(),
            ),
    {
        ScenarioDetails {
            ident: scenario.ident(),
            runs: 0,
            failures: 0,
            interval: scenario.interval(),
            last_status: ScenarioStatus::NotLaunchedYet,
        }
    }

    /// Whether another run can still be counted.
    pub open spec fn has_room(&self) -> bool {
        self.runs < u32::MAX
    }

    /// Records that the scenario has been seen in `status`.
    pub fn record(&mut self, status: ScenarioStatus)
        requires
            old(self)@.consistent(),
            (status == ScenarioStatus::Success || status == ScenarioStatus::Failure) ==> old(
                self,
            ).has_room(),
        ensures
            final(self)@ == old(self)@.after(status),
            final(self)@.consistent(),
            final(self).ident == old(self).ident,
    {
        match status {
            ScenarioStatus::Success => {
                self.runs = self.runs + 1;
            },
            ScenarioStatus::Failure => {
                self.runs = self.runs + 1;
                self.failures = self.failures + 1;
            },
            _ => {},
        }
        self.last_status = status;
    }
}

/// The lines that `ring` holds once `line` has been added under a limit of `capacity`
/// lines: the newest `capacity` of them, oldest first.
pub open spec fn ring_after(ring: Seq<Seq<char>>, line: Seq<char>, capacity: nat) -> Seq<
    Seq<char>,
> {
    let all = ring.push(line);
    if all.len() > capacity {
        all.subrange(all.len() - capacity, all.len() as int)
    } else {
        all
    }
}

/// The characters of each line in `lines`.
pub open spec fn lines_of(lines: Seq<String>) -> Seq<Seq<char>> {
    lines.map_values(|line: String| line@)
}

/// What is kept of the log of one scenario, as plain mathematics.
pub struct LogsModel {
    /// The characters of the scenario's name.
    pub scenario_ident: Seq<char>,
    /// The lines, oldest first.
    pub content: Seq<Seq<char>>,
}

/// The most recent log lines of one scheduled scenario.
#[derive(Debug)]
pub struct ScenarioLogs {
    /// The name of the scenario.
    pub scenario_ident: Ident,
    /// The lines, oldest first.
    pub content: Vec<String>,
}

impl View for ScenarioLogs {
    type V = LogsModel;

    open spec fn view(&self) -> LogsModel {
        LogsModel { scenario_ident: self.scenario_ident@, content: lines_of(self.content@) }
    }
}

impl Clone for ScenarioLogs {
    fn clone(&self) -> (copy: Self)
        ensures
            copy@ == self@,
            copy.scenario_ident == self.scenario_ident,
            copy.content@ == self.content@,
    {
        let mut content: Vec<String> = Vec::new();
        let mut i: usize = 0;
        while i < self.content.len()
            invariant
                i <= self.content.len(),
                content@ == self.content@.subrange(0, i as int),
            decreases self.content.len() - i,
        {
            content.push(self.content[i].clone());
            assert(self.content@.subrange(0, i + 1) == self.content@.subrange(0, i as int).push(
                self.content@[i as int],
            ));
            i = i + 1;
        }
        assert(self.content@.subrange(0, self.content.len() as int) == self.content@);
        ScenarioLogs { scenario_ident: self.scenario_ident.clone(), content }
    }
}

impl ScenarioLogs {
    /// An empty log for the scenario named `scenario_ident`.
    pub fn new(scenario_ident: Ident) -> (logs: Self)
        ensures
            logs@ == (LogsModel { scenario_ident: scenario_ident@, content: Seq::empty() }),
            logs.scenario_ident == scenario_ident,
            logs.content@.len() == 0,
    {
        let logs = ScenarioLogs { scenario_ident, content: Vec::new() };
        assert(lines_of(logs.content@) == Seq::<Seq<char>>::empty());
        logs
    }

    /// Adds `line` as the newest one. Where that would leave more than `capacity` lines,
    /// the oldest line goes.
    pub fn append(&mut self, line: String, capacity: usize)
        requires
            old(self).content@.len() <= capacity,
        ensures
            final(self)@.content == ring_after(old(self)@.content, line@, capacity as nat),
            final(self).content@.len() <= capacity,
            final(self).scenario_ident == old(self).scenario_ident,
    {
        if capacity == 0 {
            assert(self.content@ == Seq::<String>::empty());
            assert(ring_after(lines_of(self.content@), line@, 0) == lines_of(self.content@));
            return ;
        }
        let ghost before = self.content@;
        if self.content.len() == capacity {
            let _ = self.content.remove(0);
            self.content.push(line);
            assert(lines_of(self.content@) == ring_after(lines_of(before), line@, capacity as nat));
        } else {
            self.content.push(line);
            assert(lines_of(self.content@) == ring_after(lines_of(before), line@, capacity as nat));
        }
    }
}

} // verus!
