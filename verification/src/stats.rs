//! The registry of what every scheduled scenario has done so far.
//!
//! The scheduler reports to it through [`EventListener`]; the exporter reads snapshots
//! from it. It keeps, per scenario name, the counters of runs and failures with the last
//! status, and a bounded ring of the most recent log lines.

use vstd::prelude::*;

use crate::ident::Ident;
use crate::interval::Interval;
use crate::scenario::{
    lines_of, ring_after, DetailsModel, ScenarioDetails, ScenarioLogs, ScenarioStatus,
    ScheduledScenario,
};

verus! {

/// How many log lines are kept per scenario unless another limit is asked for.
pub const DEFAULT_LOG_CAPACITY: usize = 1024;

/// What a caller should warn about after it has reported to the registry.
#[derive(Debug, Clone, Copy, PartialEq, Eq, Structural)]
pub enum StatsWarning {
    /// A scenario of that name is registered already; the registration was ignored.
    AlreadyRegistered,
    /// No scenario of that name is registered; the report was dropped.
    NotRegistered,
}

/// The records once a scenario named `ident` has asked to be registered: a name that is
/// known keeps its record, a new one starts with a fresh record.
pub open spec fn registered(
    details: Map<Seq<char>, DetailsModel>,
    ident: Seq<char>,
    interval: Interval,
) -> Map<Seq<char>, DetailsModel> {
    if details.contains_key(ident) {
        details
    } else {
        details.insert(ident, DetailsModel::fresh(ident, interval))
    }
}

/// The rings once a scenario named `ident` has asked to be registered: a name that is
/// known keeps its lines, a new one starts with none.
pub open spec fn registered_logs(logs: Map<Seq<char>, Seq<Seq<char>>>, ident: Seq<char>) -> Map<
    Seq<char>,
    Seq<Seq<char>>,
> {
    if logs.contains_key(ident) {
        logs
    } else {
        logs.insert(ident, Seq::empty())
    }
}

/// The records once the scenario named `ident` has been seen in `status`. A report about
/// an unknown name changes nothing and adds nothing.
pub open spec fn reported(
    details: Map<Seq<char>, DetailsModel>,
    ident: Seq<char>,
    status: ScenarioStatus,
) -> Map<Seq<char>, DetailsModel> {
    if details.contains_key(ident) {
        details.insert(ident, details[ident].after(status))
    } else {
        details
    }
}

/// The rings once `line` has been reported for the scenario named `ident`, under a limit
/// of `capacity` lines per ring. A line for an unknown name is dropped.
pub open spec fn logged(
    logs: Map<Seq<char>, Seq<Seq<char>>>,
    ident: Seq<char>,
    line: Seq<char>,
    capacity: nat,
) -> Map<Seq<char>, Seq<Seq<char>>> {
    if logs.contains_key(ident) {
        logs.insert(ident, ring_after(logs[ident], line, capacity))
    } else {
        logs
    }
}

/// Every record counts no more failures than runs, and is filed under its own name.
pub open spec fn all_consistent(details: Map<Seq<char>, DetailsModel>) -> bool {
    forall|ident: Seq<char>| #[trigger]
        details.contains_key(ident) ==> details[ident].consistent() && details[ident].ident
            == ident
}

/// No ring holds more than `capacity` lines.
pub open spec fn all_bounded(logs: Map<Seq<char>, Seq<Seq<char>>>, capacity: nat) -> bool {
    forall|ident: Seq<char>| #[trigger] logs.contains_key(ident) ==> logs[ident].len() <= capacity
}

/// Every name known in `before` is known in `after`, with no fewer runs and no fewer
/// failures.
pub open spec fn never_shrinks(
    before: Map<Seq<char>, DetailsModel>,
    after: Map<Seq<char>, DetailsModel>,
) -> bool {
    forall|ident: Seq<char>| #[trigger]
        before.contains_key(ident) ==> after.contains_key(ident) && before[ident].runs
            <= after[ident].runs && before[ident].failures <= after[ident].failures
}

/// Whether one more ended run of the scenario named `ident` can be counted.
pub open spec fn can_count(details: Map<Seq<char>, DetailsModel>, ident: Seq<char>) -> bool {
    details.contains_key(ident) ==> details[ident].runs < u32::MAX
}

/// Whoever wants to hear what the scheduler does implements this.
pub trait EventListener {
    /// The record kept for each known scenario name.
    spec fn details(&self) -> Map<Seq<char>, DetailsModel>;

    /// The lines kept for each known scenario name, oldest first.
    spec fn logs(&self) -> Map<Seq<char>, Seq<Seq<char>>>;

    /// The most lines that are kept for one scenario.
    spec fn log_capacity(&self) -> nat;

    /// Makes `scenario` known. The first registration of a name wins.
    fn register_scenario<S>(&mut self, scenario: &ScheduledScenario<S>) -> (warning: Option<
        StatsWarning,
    >)
        ensures
            final(self).details() == registered(
                old(self).details(),
                scenario.ident_spec()@,
                scenario.interval_spec(),
            ),
            final(self).logs() == registered_logs(old(self).logs(), scenario.ident_spec()@),
            final(self).log_capacity() == old(self).log_capacity(),
            warning == if old(self).details().contains_key(scenario.ident_spec()@) {
                Some(StatsWarning::AlreadyRegistered)
            } else {
                None
            },
    ;

    /// Records that a run of the named scenario went through.
    fn report_success(&mut self, scenario_ident: Ident) -> (warning: Option<StatsWarning>)
        requires
            can_count(old(self).details(), scenario_ident@),
        ensures
            final(self).details() == reported(
                old(self).details(),
                scenario_ident@,
                ScenarioStatus::Success,
            ),
            final(self).logs() == old(self).logs(),
            final(self).log_capacity() == old(self).log_capacity(),
            warning == if old(self).details().contains_key(scenario_ident@) {
                None
            } else {
                Some(StatsWarning::NotRegistered)
            },
    ;

    /// Records that a run of the named scenario has begun.
    fn report_launch(&mut self, scenario_ident: Ident) -> (warning: Option<StatsWarning>)
        ensures
            final(self).details() == reported(
                old(self).details(),
                scenario_ident@,
                ScenarioStatus::Running,
            ),
            final(self).logs() == old(self).logs(),
            final(self).log_capacity() == old(self).log_capacity(),
            warning == if old(self).details().contains_key(scenario_ident@) {
                None
            } else {
                Some(StatsWarning::NotRegistered)
            },
    ;

    /// Records that a run of the named scenario failed.
    fn report_failure(&mut self, scenario_ident: Ident) -> (warning: Option<StatsWarning>)
        requires
            can_count(old(self).details(), scenario_ident@),
        ensures
            final(self).details() == reported(
                old(self).details(),
                scenario_ident@,
                ScenarioStatus::Failure,
            ),
            final(self).logs() == old(self).logs(),
            final(self).log_capacity() == old(self).log_capacity(),
            warning == if old(self).details().contains_key(scenario_ident@) {
                None
            } else {
                Some(StatsWarning::NotRegistered)
            },
    ;

    /// Files `log` as the newest line of the named scenario.
    fn report_logs(&mut self, scenario_ident: Ident, log: String) -> (warning: Option<
        StatsWarning,
    >)
        ensures
            final(self).logs() == logged(
                old(self).logs(),
                scenario_ident@,
                log@,
                old(self).log_capacity(),
            ),
            final(self).details() == old(self).details(),
            final(self).log_capacity() == old(self).log_capacity(),
            warning == if old(self).logs().contains_key(scenario_ident@) {
                None
            } else {
                Some(StatsWarning::NotRegistered)
            },
    ;
}

/// Whether `ident` stands somewhere in `idents`.
pub open spec fn known(idents: Seq<Seq<char>>, ident: Seq<char>) -> bool {
    exists|i: int| 0 <= i < idents.len() && idents[i] == ident
}

/// A place at which `ident` stands in `idents`, where it stands there at all.
pub open spec fn slot(idents: Seq<Seq<char>>, ident: Seq<char>) -> int {
    choose|i: int| 0 <= i < idents.len() && idents[i] == ident
}

/// No name stands at two places.
pub open spec fn distinct(idents: Seq<Seq<char>>) -> bool {
    forall|i: int, j: int| 0 <= i < j < idents.len() ==> idents[i] != idents[j]
}

/// Where the names are distinct, the place of a name is the one place at which it stands.
pub proof fn lemma_slot_is_unique(idents: Seq<Seq<char>>, i: int)
    requires
        distinct(idents),
        0 <= i < idents.len(),
    ensures
        known(idents, idents[i]),
        slot(idents, idents[i]) == i,
{
    let j = slot(idents, idents[i]);
    if j < i {
        assert(idents[j] != idents[i]);
    }
    if i < j {
        assert(idents[i] != idents[j]);
    }
}

/// A record never counts more failures than runs: a fresh one counts neither, and seeing
/// the scenario in any status keeps it so.
pub proof fn lemma_failures_never_exceed_runs(
    details: Map<Seq<char>, DetailsModel>,
    ident: Seq<char>,
    interval: Interval,
    status: ScenarioStatus,
)
    requires
        all_consistent(details),
    ensures
        all_consistent(Map::<Seq<char>, DetailsModel>::empty()),
        all_consistent(registered(details, ident, interval)),
        all_consistent(reported(details, ident, status)),
{
}

/// Neither registering nor reporting takes a name away or lowers a counter.
pub proof fn lemma_counters_never_decrease(
    details: Map<Seq<char>, DetailsModel>,
    ident: Seq<char>,
    interval: Interval,
    status: ScenarioStatus,
)
    ensures
        never_shrinks(details, details),
        never_shrinks(details, registered(details, ident, interval)),
        never_shrinks(details, reported(details, ident, status)),
{
}

/// What holds from one state to the next holds over any number of steps.
pub proof fn lemma_never_shrinks_is_transitive(
    first: Map<Seq<char>, DetailsModel>,
    second: Map<Seq<char>, DetailsModel>,
    third: Map<Seq<char>, DetailsModel>,
)
    requires
        never_shrinks(first, second),
        never_shrinks(second, third),
    ensures
        never_shrinks(first, third),
{
    assert forall|ident: Seq<char>| #[trigger] first.contains_key(ident) implies third.contains_key(
        ident,
    ) && first[ident].runs <= third[ident].runs && first[ident].failures
        <= third[ident].failures by {
        assert(second.contains_key(ident));
    }
}

/// A run that went through counts as one run and no failure; a run that failed counts as
/// one run and one failure; the start of a run counts as neither. In each case the status
/// is the one that was reported, and the records of all other scenarios stay as they are.
pub proof fn lemma_each_report_counts_once(
    details: Map<Seq<char>, DetailsModel>,
    ident: Seq<char>,
    status: ScenarioStatus,
)
    requires
        details.contains_key(ident),
    ensures
        reported(details, ident, status).dom() == details.dom(),
        forall|other: Seq<char>|
            other != ident && details.contains_key(other) ==> reported(details, ident, status)[other]
                == details[other],
        reported(details, ident, status)[ident].last_status == status,
        status == ScenarioStatus::Success ==> reported(details, ident, status)[ident].runs
            == details[ident].runs + 1 && reported(details, ident, status)[ident].failures
            == details[ident].failures,
        status == ScenarioStatus::Failure ==> reported(details, ident, status)[ident].runs
            == details[ident].runs + 1 && reported(details, ident, status)[ident].failures
            == details[ident].failures + 1,
        (status == ScenarioStatus::Running || status == ScenarioStatus::NotLaunchedYet)
            ==> reported(details, ident, status)[ident].runs == details[ident].runs && reported(
            details,
            ident,
            status,
        )[ident].failures == details[ident].failures,
{
    assert(reported(details, ident, status).dom() =~= details.dom());
}

/// A report about a name that is not registered leaves no trace.
pub proof fn lemma_unregistered_report_is_dropped(
    details: Map<Seq<char>, DetailsModel>,
    logs: Map<Seq<char>, Seq<Seq<char>>>,
    ident: Seq<char>,
    status: ScenarioStatus,
    line: Seq<char>,
    capacity: nat,
)
    requires
        !details.contains_key(ident),
        !logs.contains_key(ident),
    ensures
        reported(details, ident, status) == details,
        logged(logs, ident, line, capacity) == logs,
{
}

/// Registering a name a second time changes nothing, whatever pause the second
/// registration asks for.
pub proof fn lemma_second_registration_changes_nothing(
    details: Map<Seq<char>, DetailsModel>,
    logs: Map<Seq<char>, Seq<Seq<char>>>,
    ident: Seq<char>,
    first: Interval,
    second: Interval,
)
    ensures
        registered(registered(details, ident, first), ident, second) == registered(
            details,
            ident,
            first,
        ),
        registered_logs(registered_logs(logs, ident), ident) == registered_logs(logs, ident),
{
}

/// A ring never grows beyond its limit. A line added to a full ring pushes out the oldest
/// one and nothing else; a line added to a ring with room pushes out nothing.
pub proof fn lemma_ring_stays_bounded(ring: Seq<Seq<char>>, line: Seq<char>, capacity: nat)
    requires
        ring.len() <= capacity,
    ensures
        ring_after(ring, line, capacity).len() <= capacity,
        ring.len() < capacity ==> ring_after(ring, line, capacity) == ring.push(line),
        ring.len() == capacity && capacity > 0 ==> ring_after(ring, line, capacity) == ring.skip(
            1,
        ).push(line),
        capacity == 0 ==> ring_after(ring, line, capacity) == Seq::<Seq<char>>::empty(),
{
}

/// Filing a line keeps every ring within the limit.
pub proof fn lemma_logged_stays_bounded(
    logs: Map<Seq<char>, Seq<Seq<char>>>,
    ident: Seq<char>,
    line: Seq<char>,
    capacity: nat,
)
    requires
        all_bounded(logs, capacity),
    ensures
        all_bounded(logged(logs, ident, line, capacity), capacity),
        all_bounded(registered_logs(logs, ident), capacity),
{
    if logs.contains_key(ident) {
        lemma_ring_stays_bounded(logs[ident], line, capacity);
    }
}

/// The registry: counters and recent log lines per scenario name.
pub struct Stats {
    details: Vec<ScenarioDetails>,
    logs: Vec<ScenarioLogs>,
    log_capacity: usize,
}

impl Stats {
    /// The names of the registered scenarios, in the order of their registration.
    pub closed spec fn idents(&self) -> Seq<Seq<char>> {
        Seq::new(self.details@.len(), |i: int| self.details@[i].ident@)
    }

    #[verifier::type_invariant]
    spec fn well_formed(&self) -> bool {
        &&& self.details@.len() == self.logs@.len()
        &&& distinct(self.idents())
        &&& forall|i: int|
            0 <= i < self.details@.len() ==> (#[trigger] self.details@[i])@.consistent()
        &&& forall|i: int|
            0 <= i < self.logs@.len() ==> {
                &&& (#[trigger] self.logs@[i]).scenario_ident@ == self.details@[i].ident@
                &&& self.logs@[i].content@.len() <= self.log_capacity
            }
    }

    /// An empty registry that keeps the default number of lines per scenario.
    pub fn new() -> (stats: Self)
        ensures
            stats.details() == Map::<Seq<char>, DetailsModel>::empty(),
            stats.logs() == Map::<Seq<char>, Seq<Seq<char>>>::empty(),
            stats.log_capacity() == DEFAULT_LOG_CAPACITY,
    {
        Stats::with_log_capacity(DEFAULT_LOG_CAPACITY)
    }

    /// An empty registry that keeps at most `log_capacity` lines per scenario.
    pub fn with_log_capacity(log_capacity: usize) -> (stats: Self)
        ensures
            stats.details() == Map::<Seq<char>, DetailsModel>::empty(),
            stats.logs() == Map::<Seq<char>, Seq<Seq<char>>>::empty(),
            stats.log_capacity() == log_capacity,
    {
        let stats = Stats { details: Vec::new(), logs: Vec::new(), log_capacity };
        assert(stats.details() =~= Map::<Seq<char>, DetailsModel>::empty());
        assert(stats.logs() =~= Map::<Seq<char>, Seq<Seq<char>>>::empty());
        stats
    }

    /// The place of the scenario named `ident`, if it is registered.
    fn find(&self, ident: &Ident) -> (place: Option<usize>)
        ensures
            match place {
                Some(i) => i < self.details@.len() && self.idents()[i as int] == ident@ && known(
                    self.idents(),
                    ident@,
                ) && slot(self.idents(), ident@) == i,
                None => !known(self.idents(), ident@),
            },
    {
        proof {
            use_type_invariant(self);
        }
        let mut i: usize = 0;
        while i < self.details.len()
            invariant
                i <= self.details@.len(),
                self.idents().len() == self.details@.len(),
                forall|j: int| 0 <= j < i ==> self.idents()[j] != ident@,
                distinct(self.idents()),
            decreases self.details@.len() - i,
        {
            if self.details[i].ident == *ident {
                proof {
                    lemma_slot_is_unique(self.idents(), i as int);
                }
                return Some(i);
            }
            i = i + 1;
        }
        None
    }

    /// The records as the exporter shows them: one per registered scenario, in the order
    /// of registration, each under its own name.
    pub fn export_details(&self) -> (snapshot: Vec<ScenarioDetails>)
        ensures
            snapshot@.len() == self.idents().len(),
            distinct(self.idents()),
            all_consistent(self.details()),
            forall|i: int|
                0 <= i < snapshot@.len() ==> {
                    &&& #[trigger] snapshot@[i].ident@ == self.idents()[i]
                    &&& self.details().contains_key(snapshot@[i].ident@)
                    &&& self.details()[snapshot@[i].ident@] == snapshot@[i]@
                },
            forall|ident: Seq<char>|
                self.details().contains_key(ident) <==> known(self.idents(), ident),
    {
        proof {
            use_type_invariant(self);
            self.lemma_model();
        }
        let mut snapshot: Vec<ScenarioDetails> = Vec::new();
        let mut i: usize = 0;
        while i < self.details.len()
            invariant
                i <= self.details@.len(),
                snapshot@ == self.details@.subrange(0, i as int),
            decreases self.details@.len() - i,
        {
            snapshot.push(self.details[i].clone());
            assert(self.details@.subrange(0, i + 1) == self.details@.subrange(0, i as int).push(
                self.details@[i as int],
            ));
            i = i + 1;
        }
        assert(snapshot@ == self.details@);
        assert forall|i: int| 0 <= i < snapshot@.len() implies {
            &&& #[trigger] snapshot@[i].ident@ == self.idents()[i]
            &&& self.details().contains_key(snapshot@[i].ident@)
            &&& self.details()[snapshot@[i].ident@] == snapshot@[i]@
        } by {
            lemma_slot_is_unique(self.idents(), i);
        }
        snapshot
    }

    /// The record of the scenario named `ident`, or nothing if none is registered under
    /// that name.
    pub fn details_of(&self, ident: &Ident) -> (found: Option<ScenarioDetails>)
        ensures
            found is Some <==> self.details().contains_key(ident@),
            found is Some ==> found->Some_0@ == self.details()[ident@],
            all_consistent(self.details()),
    {
        proof {
            use_type_invariant(self);
            self.lemma_model();
        }
        match self.find(ident) {
            Some(i) => Some(self.details[i].clone()),
            None => None,
        }
    }

    /// Whether one more ended run of the scenario named `ident` can be counted. Where it
    /// cannot, neither a success nor a failure must be reported for that scenario.
    pub fn can_report(&self, ident: &Ident) -> (room: bool)
        ensures
            room == can_count(self.details(), ident@),
    {
        match self.details_of(ident) {
            Some(details) => details.runs < u32::MAX,
            None => true,
        }
    }

    /// The lines kept for the scenario named `ident`, or nothing if none is registered
    /// under that name.
    pub fn export_logs(&self, ident: &Ident) -> (found: Option<ScenarioLogs>)
        ensures
            found is Some <==> self.logs().contains_key(ident@),
            found is Some ==> found->Some_0@.content == self.logs()[ident@] && found->Some_0@.scenario_ident
                == ident@,
            all_bounded(self.logs(), self.log_capacity()),
    {
        proof {
            use_type_invariant(self);
            self.lemma_model();
        }
        match self.find(ident) {
            Some(i) => Some(self.logs[i].clone()),
            None => None,
        }
    }

    /// Moves the registry out, leaving an empty one with the same limit behind.
    fn take(&mut self) -> (taken: Self)
        ensures
            taken == *old(self),
            final(self).log_capacity == old(self).log_capacity,
    {
        let mut taken = Stats::with_log_capacity(self.log_capacity);
        std::mem::swap(self, &mut taken);
        taken
    }

    /// What the invariant of the registry says about its records and rings.
    proof fn lemma_model(&self)
        requires
            self.well_formed(),
        ensures
            all_consistent(self.details()),
            all_bounded(self.logs(), self.log_capacity()),
            self.details().dom() == self.logs().dom(),
            forall|ident: Seq<char>|
                self.details().contains_key(ident) <==> known(self.idents(), ident),
    {
        assert(self.details().dom() =~= self.logs().dom());
    }

    /// Sees the scenario named `scenario_ident` in `status`.
    fn update_status(&mut self, scenario_ident: Ident, status: ScenarioStatus) -> (warning: Option<
        StatsWarning,
    >)
        requires
            (status == ScenarioStatus::Success || status == ScenarioStatus::Failure) ==> can_count(
                old(self).details(),
                scenario_ident@,
            ),
        ensures
            final(self).details() == reported(old(self).details(), scenario_ident@, status),
            final(self).logs() == old(self).logs(),
            final(self).log_capacity() == old(self).log_capacity(),
            warning == if old(self).details().contains_key(scenario_ident@) {
                None
            } else {
                Some(StatsWarning::NotRegistered)
            },
    {
        proof {
            use_type_invariant(&*self);
        }
        match self.find(&scenario_ident) {
            None => Some(StatsWarning::NotRegistered),
            Some(i) => {
                let ghost before = *self;
                let mut entry = self.details[i].clone();
                entry.record(status);
                let Stats { mut details, logs, log_capacity } = self.take();
                details.set(i, entry);
                proof {
                    let next = Stats { details, logs, log_capacity };
                    assert(next.idents() =~= before.idents());
                }
                *self = Stats { details, logs, log_capacity };
                proof {
                    assert(self.idents() =~= before.idents());
                    assert(self.details() =~= reported(
                        before.details(),
                        scenario_ident@,
                        status,
                    ));
                    assert(self.logs() =~= before.logs());
                }
                None
            },
        }
    }
}

impl EventListener for Stats {
    closed spec fn details(&self) -> Map<Seq<char>, DetailsModel> {
        Map::new(
            |ident: Seq<char>| known(self.idents(), ident),
            |ident: Seq<char>| self.details@[slot(self.idents(), ident)]@,
        )
    }

    closed spec fn logs(&self) -> Map<Seq<char>, Seq<Seq<char>>> {
        Map::new(
            |ident: Seq<char>| known(self.idents(), ident),
            |ident: Seq<char>| lines_of(self.logs@[slot(self.idents(), ident)].content@),
        )
    }

    closed spec fn log_capacity(&self) -> nat {
        self.log_capacity as nat
    }

    fn register_scenario<S>(&mut self, scenario: &ScheduledScenario<S>) -> (warning: Option<
        StatsWarning,
    >) {
        proof {
            use_type_invariant(&*self);
        }
        let id = scenario.ident();
        match self.find(&id) {
            Some(_) => Some(StatsWarning::AlreadyRegistered),
            None => {
                let ghost before = *self;
                let entry = ScenarioDetails::new(scenario);
                let ring = ScenarioLogs::new(id);
                let Stats { mut details, mut logs, log_capacity } = self.take();
                details.push(entry);
                logs.push(ring);
                proof {
                    let next = Stats { details, logs, log_capacity };
                    assert(next.idents() =~= before.idents().push(id@));
                    assert forall|i: int, j: int| 0 <= i < j < next.idents().len() implies next.idents()[i]
                        != next.idents()[j] by {
                        if j == before.idents().len() {
                            assert(before.idents()[i] != id@);
                        }
                    }
                    assert forall|i: int| 0 <= i < next.details@.len() implies (
                    #[trigger] next.details@[i])@.consistent() by {
                        if i < before.details@.len() {
                            assert(before.details@[i]@.consistent());
                        }
                    }
                    assert forall|i: int| 0 <= i < next.logs@.len() implies {
                        &&& (#[trigger] next.logs@[i]).scenario_ident@ == next.details@[i].ident@
                        &&& next.logs@[i].content@.len() <= next.log_capacity
                    } by {
                        if i < before.logs@.len() {
                            assert(before.logs@[i].content@.len() <= before.log_capacity);
                        }
                    }
                }
                *self = Stats { details, logs, log_capacity };
                proof {
                    assert(self.idents() =~= before.idents().push(id@));
                    assert forall|k: Seq<char>| known(before.idents(), k) implies known(
                        self.idents(),
                        k,
                    ) && slot(self.idents(), k) == slot(before.idents(), k) by {
                        let p = slot(before.idents(), k);
                        assert(self.idents()[p] == k);
                        lemma_slot_is_unique(self.idents(), p);
                    }
                    lemma_slot_is_unique(self.idents(), before.idents().len() as int);
                    assert forall|k: Seq<char>| known(self.idents(), k) implies (k == id@ || known(
                        before.idents(),
                        k,
                    )) by {
                        let p = slot(self.idents(), k);
                        if p < before.idents().len() {
                            assert(before.idents()[p] == k);
                        }
                    }
                    assert(self.details() =~= registered(
                        before.details(),
                        id@,
                        scenario.interval_spec(),
                    ));
                    assert(self.logs() =~= registered_logs(before.logs(), id@));
                }
                None
            },
        }
    }

    fn report_success(&mut self, scenario_ident: Ident) -> (warning: Option<StatsWarning>) {
        self.update_status(scenario_ident, ScenarioStatus::Success)
    }

    fn report_launch(&mut self, scenario_ident: Ident) -> (warning: Option<StatsWarning>) {
        self.update_status(scenario_ident, ScenarioStatus::Running)
    }

    fn report_failure(&mut self, scenario_ident: Ident) -> (warning: Option<StatsWarning>) {
        self.update_status(scenario_ident, ScenarioStatus::Failure)
    }

    fn report_logs(&mut self, scenario_ident: Ident, log: String) -> (warning: Option<
        StatsWarning,
    >) {
        proof {
            use_type_invariant(&*self);
        }
        match self.find(&scenario_ident) {
            None => Some(StatsWarning::NotRegistered),
            Some(i) => {
                let ghost before = *self;
                let mut ring = self.logs[i].clone();
                ring.append(log, self.log_capacity);
                let Stats { details, mut logs, log_capacity } = self.take();
                logs.set(i, ring);
                proof {
                    let next = Stats { details, logs, log_capacity };
                    assert(next.idents() =~= before.idents());
                }
                *self = Stats { details, logs, log_capacity };
                proof {
                    assert(self.idents() =~= before.idents());
                    assert(self.logs() =~= logged(
                        before.logs(),
                        scenario_ident@,
                        log@,
                        before.log_capacity(),
                    ));
                    assert(self.details() =~= before.details());
                }
                None
            },
        }
    }
}

} // verus!
