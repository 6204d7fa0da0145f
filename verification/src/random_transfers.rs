//! Random transfers within a pool of accounts: who sends to whom, and when.

use vstd::prelude::*;
use vstd::string::*;

use crate::chance::{choose_pairs, pick_between, sample_below, taken_at};
use crate::event::BatchCompleted;
use crate::interval::Interval;
use crate::scenario::ScenarioError;
use crate::text::{decimal, joined, spec_decimal};
use crate::units::{real_amount, spec_real_amount};

verus! {

/// How many accounts the pool holds. Their seeds end in the numbers from zero up to this
/// number, which is left out.
pub const AVAILABLE_ACCOUNTS: usize = 100;

/// How long one transfer is taken to need when transfers are spread over a span, in
/// milliseconds.
pub const MILLIS_PER_TRANSACTION: u128 = 1_000;

/// How long the event of a batch may take, in milliseconds.
pub const BATCH_TIMEOUT_MILLIS: u64 = 1000;

/// The seed of the account with the number `idx` in the pool.
pub open spec fn spec_pool_seed(idx: usize) -> Seq<char> {
    "//RandomTransfer"@ + spec_decimal(idx as nat)
}

/// The seed of the account with the number `idx` in the pool.
pub fn pool_seed(idx: usize) -> (seed: String)
    ensures
        seed@ == spec_pool_seed(idx),
{
    let number = decimal(idx as u128);
    joined("//RandomTransfer", number.as_str())
}

/// The sum of `parts`.
pub open spec fn total(parts: Seq<u128>) -> nat
    decreases parts.len(),
{
    if parts.len() == 0 {
        0
    } else {
        total(parts.drop_last()) + parts.last() as nat
    }
}

/// Whether `cuts` goes up from left to right, or stays.
pub open spec fn ascending(cuts: Seq<u128>) -> bool {
    forall|i: int, j: int| 0 <= i <= j < cuts.len() ==> cuts[i] <= cuts[j]
}

/// The `i`-th of the marks between which the delays lie: zero, then the cuts, then the
/// target.
pub open spec fn mark(cuts: Seq<u128>, target: u128, i: int) -> u128 {
    if i <= 0 {
        0
    } else if i > cuts.len() {
        target
    } else {
        cuts[i - 1]
    }
}

/// The delays that the cuts leave: the stretch from zero to the first cut, from each cut
/// to the next, and from the last cut to the target.
pub open spec fn delays_of(cuts: Seq<u128>, target: u128) -> Seq<u128> {
    Seq::new(
        cuts.len() + 1,
        |i: int| (mark(cuts, target, i + 1) - mark(cuts, target, i)) as u128,
    )
}

/// Calls `sort_unstable` of the standard library on a vector of numbers. What comes back
/// holds the same numbers, each as often as before, going up from left to right.
#[verifier::external_body]
pub(crate) fn sort_cuts(cuts: &mut Vec<u128>)
    ensures
        ascending(final(cuts)@),
        final(cuts)@.to_multiset() == old(cuts)@.to_multiset(),
{
    cuts.sort_unstable()
}

/// The first `k` delays add up to the `k`-th mark.
pub proof fn lemma_delays_reach_marks(cuts: Seq<u128>, target: u128, k: int)
    requires
        ascending(cuts),
        forall|i: int| 0 <= i < cuts.len() ==> cuts[i] <= target,
        0 <= k <= cuts.len() + 1,
    ensures
        total(delays_of(cuts, target).take(k)) == mark(cuts, target, k),
    decreases k,
{
    let delays = delays_of(cuts, target);
    if k > 0 {
        lemma_delays_reach_marks(cuts, target, k - 1);
        assert(delays.take(k).drop_last() =~= delays.take(k - 1));
        assert(delays.take(k).last() == delays[k - 1]);
        assert(mark(cuts, target, k - 1) <= mark(cuts, target, k));
    }
}

/// Delays that come from cuts between zero and the target add up to the target, one
/// delay more than there are cuts.
pub proof fn lemma_delays_sum_to_target(cuts: Seq<u128>, target: u128)
    requires
        ascending(cuts),
        forall|i: int| 0 <= i < cuts.len() ==> cuts[i] <= target,
    ensures
        delays_of(cuts, target).len() == cuts.len() + 1,
        total(delays_of(cuts, target)) == target,
        forall|i: int|
            0 <= i < delays_of(cuts, target).len() ==> #[trigger] delays_of(cuts, target)[i]
                <= target,
{
    let delays = delays_of(cuts, target);
    lemma_delays_reach_marks(cuts, target, cuts.len() as int + 1);
    assert(delays.take(cuts.len() as int + 1) =~= delays);
    assert forall|i: int| 0 <= i < delays.len() implies #[trigger] delays[i] <= target by {
        assert(mark(cuts, target, i) <= mark(cuts, target, i + 1) <= target);
    }
}

/// Works out the delays that ascending cuts between zero and the target leave.
pub fn delays_from_cuts(target: u128, cuts: &Vec<u128>) -> (delays: Vec<u128>)
    requires
        ascending(cuts@),
        forall|i: int| 0 <= i < cuts@.len() ==> cuts@[i] <= target,
    ensures
        delays@ == delays_of(cuts@, target),
        total(delays@) == target,
{
    let mut delays: Vec<u128> = Vec::new();
    let mut previous: u128 = 0;
    let mut i: usize = 0;
    while i < cuts.len()
        invariant
            i <= cuts@.len(),
            ascending(cuts@),
            forall|j: int| 0 <= j < cuts@.len() ==> cuts@[j] <= target,
            previous == mark(cuts@, target, i as int),
            delays@ == delays_of(cuts@, target).take(i as int),
        decreases cuts@.len() - i,
    {
        let cut = cuts[i];
        assert(previous <= cut) by {
            if i > 0 {
                assert(cuts@[i - 1] <= cuts@[i as int]);
            }
        }
        delays.push(cut - previous);
        assert(delays@ =~= delays_of(cuts@, target).take(i + 1));
        previous = cut;
        i = i + 1;
    }
    assert(previous <= target) by {
        if i > 0 {
            assert(cuts@[i - 1] <= target);
        }
    }
    delays.push(target - previous);
    assert(delays@ =~= delays_of(cuts@, target));
    proof {
        lemma_delays_sum_to_target(cuts@, target);
    }
    delays
}

/// Splits `target` at random into `delay_count` delays that add up to it.
pub fn get_random_delays(target: u128, delay_count: usize) -> (delays: Vec<u128>)
    requires
        delay_count >= 1,
    ensures
        delays@.len() == delay_count,
        total(delays@) == target,
        forall|i: int| 0 <= i < delays@.len() ==> #[trigger] delays@[i] <= target,
        exists|cuts: Seq<u128>|
            ascending(cuts) && (forall|i: int| 0 <= i < cuts.len() ==> cuts[i] <= target)
                && delays@ == #[trigger] delays_of(cuts, target),
{
    let mut cuts: Vec<u128> = Vec::new();
    let mut i: usize = 0;
    while i < delay_count - 1
        invariant
            delay_count >= 1,
            i <= delay_count - 1,
            cuts@.len() == i,
            forall|j: int| 0 <= j < cuts@.len() ==> cuts@[j] <= target,
        decreases delay_count - i,
    {
        let cut: u128 = if target == 0 {
            0
        } else {
            sample_below(target)
        };
        cuts.push(cut);
        i = i + 1;
    }
    let ghost drawn = cuts@;
    sort_cuts(&mut cuts);
    proof {
        drawn.to_multiset_ensures();
        cuts@.to_multiset_ensures();
        assert(cuts@.len() == drawn.len());
        assert forall|j: int| 0 <= j < cuts@.len() implies cuts@[j] <= target by {
            assert(cuts@.to_multiset().count(cuts@[j]) > 0);
            assert(drawn.contains(cuts@[j]));
        }
        lemma_delays_sum_to_target(cuts@, target);
    }
    delays_from_cuts(target, &cuts)
}

/// Which way the money flows.
#[derive(Debug, Clone, Copy, PartialEq, Eq, Structural)]
pub enum Direction {
    /// One account sends to many.
    OneToMany,
    /// Many accounts send to one.
    ManyToOne,
    /// Any account sends to any other.
    ManyToMany,
}

/// How the transfers are submitted.
#[derive(Debug, Clone, Copy, PartialEq, Eq, Structural)]
pub enum TransferMode {
    /// One after the other, each confirmed before the next.
    Sequential,
    /// All in one batch.
    Batched,
    /// One after the other, with this pause after each.
    WithDelay(Interval),
    /// One after the other, with random pauses, so that all of it takes this long.
    Span(Interval),
}

/// What the configuration says about a scenario of random transfers.
#[derive(Debug, Clone, Copy, PartialEq, Eq, Structural)]
pub struct RandomTransfers {
    /// Which way the money flows.
    pub direction: Direction,
    /// How the transfers are submitted.
    pub transfer_mode: TransferMode,
    /// How many transfers one run makes.
    pub transfers: usize,
    /// How many whole tokens each transfer carries.
    pub transfer_value: u64,
}

/// How many pairs of accounts come into question before a sender is told apart from a
/// receiver.
pub open spec fn pairs_in_question(direction: Direction) -> nat {
    match direction {
        Direction::OneToMany => 100,
        Direction::ManyToOne => 100,
        Direction::ManyToMany => 10_000,
    }
}

/// The `k`-th pair of sender and receiver that comes into question. Where one side is the
/// same for all, it is `anchor`; where any may send to any, the pairs are ordered by
/// receiver and then by sender.
pub open spec fn pair_in_question(direction: Direction, anchor: usize, k: int) -> (usize, usize) {
    match direction {
        Direction::OneToMany => (anchor, k as usize),
        Direction::ManyToOne => (k as usize, anchor),
        Direction::ManyToMany => ((k % 100) as usize, (k / 100) as usize),
    }
}

/// Whether sender and receiver differ.
pub open spec fn apart(pair: (usize, usize)) -> bool {
    pair.0 != pair.1
}

/// The first `count` pairs that come into question.
pub open spec fn in_question(direction: Direction, anchor: usize, count: nat) -> Seq<
    (usize, usize),
> {
    Seq::new(count, |k: int| pair_in_question(direction, anchor, k))
}

/// All pairs of sender and receiver that `direction` allows, in their order: those that
/// come into question and whose sender is not the receiver.
pub open spec fn possible_pairs(direction: Direction, anchor: usize) -> Seq<(usize, usize)> {
    in_question(direction, anchor, pairs_in_question(direction)).filter(
        |pair: (usize, usize)| apart(pair),
    )
}

/// Lists all pairs of sender and receiver that `direction` allows when `anchor` is the
/// account that is the same for all.
pub fn pairs_for(direction: Direction, anchor: usize) -> (pairs: Vec<(usize, usize)>)
    requires
        anchor < AVAILABLE_ACCOUNTS,
    ensures
        pairs@ == possible_pairs(direction, anchor),
{
    let count: usize = match direction {
        Direction::ManyToMany => AVAILABLE_ACCOUNTS * AVAILABLE_ACCOUNTS,
        _ => AVAILABLE_ACCOUNTS,
    };
    let mut pairs: Vec<(usize, usize)> = Vec::new();
    let mut k: usize = 0;
    assert(in_question(direction, anchor, 0).filter(|pair: (usize, usize)| apart(pair))
        =~= Seq::<(usize, usize)>::empty()) by {
        reveal(Seq::filter);
    }
    while k < count
        invariant
            k <= count,
            count == pairs_in_question(direction),
            anchor < AVAILABLE_ACCOUNTS,
            pairs@.len() <= k,
            pairs@ == in_question(direction, anchor, k as nat).filter(
                |pair: (usize, usize)| apart(pair),
            ),
        decreases count - k,
    {
        let pair: (usize, usize) = match direction {
            Direction::OneToMany => (anchor, k),
            Direction::ManyToOne => (k, anchor),
            Direction::ManyToMany => (k % AVAILABLE_ACCOUNTS, k / AVAILABLE_ACCOUNTS),
        };
        proof {
            assert(pair == pair_in_question(direction, anchor, k as int));
            assert(in_question(direction, anchor, (k + 1) as nat) =~= in_question(
                direction,
                anchor,
                k as nat,
            ).push(pair));
            in_question(direction, anchor, k as nat).lemma_filter_push(
                pair,
                |pair: (usize, usize)| apart(pair),
            );
        }
        if pair.0 != pair.1 {
            pairs.push(pair);
        }
        k = k + 1;
    }
    pairs
}

/// One transfer of a run.
#[derive(Debug, Clone, Copy, PartialEq, Eq, Structural)]
pub struct TimedTransfer {
    /// The number of the sending account in the pool.
    pub sender: usize,
    /// The number of the receiving account in the pool.
    pub receiver: usize,
    /// How much is sent.
    pub amount: u128,
    /// How long to pause once the transfer is confirmed.
    pub delay: Interval,
}

/// How the transfers of one run are to be made.
#[derive(Debug)]
pub enum TransferPlan {
    /// One after the other.
    InTurn(Vec<TimedTransfer>),
    /// All in one batch, paid for by the first sender and confirmed by the event that
    /// the batch has completed, which may take this long.
    InBatch {
        /// The transfers; their delays are zero.
        transfers: Vec<TimedTransfer>,
        /// The number of the account that submits the batch.
        payer: usize,
        /// The event that confirms the batch.
        expected_event: BatchCompleted,
        /// How long that event may take.
        event_timeout: Interval,
    },
}

/// The transfers of `pairs`, each carrying `amount` and followed by the delay at its
/// place in `delays`.
pub open spec fn timed(pairs: Seq<(usize, usize)>, amount: u128, delays: Seq<Interval>) -> Seq<
    TimedTransfer,
> {
    Seq::new(
        pairs.len(),
        |i: int|
            TimedTransfer {
                sender: pairs[i].0,
                receiver: pairs[i].1,
                amount,
                delay: delays[i],
            },
    )
}

/// As many delays as `count`, each of them `delay`.
pub open spec fn constant_delays(count: nat, delay: Interval) -> Seq<Interval> {
    Seq::new(count, |i: int| delay)
}

/// The delays `millis`, which are counted in milliseconds, as spans.
pub open spec fn delays_in_millis(millis: Seq<u128>) -> Seq<Interval> {
    Seq::new(millis.len(), |i: int| Interval { nanos: (millis[i] * 1_000_000) as u128 })
}

/// The time that `count` transfers are taken to need, in milliseconds.
pub open spec fn time_needed(count: nat) -> nat {
    1_000 * count
}

impl RandomTransfers {
    /// Lists all pairs of sender and receiver that the direction allows. Where one side
    /// is the same for all, that account is drawn at random.
    pub fn generate_pairs(&self) -> (pairs: Vec<(usize, usize)>)
        ensures
            exists|anchor: usize|
                anchor < AVAILABLE_ACCOUNTS && pairs@ == #[trigger] possible_pairs(
                    self.direction,
                    anchor,
                ),
    {
        let anchor = match self.direction {
            Direction::ManyToMany => 0,
            _ => pick_between(0, AVAILABLE_ACCOUNTS - 1),
        };
        pairs_for(self.direction, anchor)
    }

    /// Chooses the pairs of one run at random among those that the direction allows: as
    /// many as transfers are configured, or all pairs if there are fewer, no pair twice.
    pub fn designate_pairs(&self) -> (pairs: Vec<(usize, usize)>)
        ensures
            exists|anchor: usize, places: Seq<int>|
                anchor < AVAILABLE_ACCOUNTS && #[trigger] taken_at(
                    pairs@,
                    possible_pairs(self.direction, anchor),
                    places,
                ) && pairs@.len() == if self.transfers <= possible_pairs(
                    self.direction,
                    anchor,
                ).len() {
                    self.transfers as nat
                } else {
                    possible_pairs(self.direction, anchor).len()
                },
            pairs@.len() <= self.transfers,
    {
        let possibilities = self.generate_pairs();
        let ghost all = possibilities@;
        let amount = if self.transfers <= possibilities.len() {
            self.transfers
        } else {
            possibilities.len()
        };
        let pairs = choose_pairs(possibilities, amount);
        proof {
            let anchor = choose|anchor: usize|
                anchor < AVAILABLE_ACCOUNTS && all == #[trigger] possible_pairs(
                    self.direction,
                    anchor,
                );
            let places = choose|places: Seq<int>| taken_at(pairs@, all, places);
            assert(taken_at(pairs@, possible_pairs(self.direction, anchor), places));
        }
        pairs
    }

    /// The transfers of `pairs` with the same pause after each.
    pub fn send_with_delay(&self, delay: Interval, pairs: &Vec<(usize, usize)>) -> (transfers:
        Vec<TimedTransfer>)
        ensures
            transfers@ == timed(
                pairs@,
                spec_real_amount(self.transfer_value) as u128,
                constant_delays(pairs@.len(), delay),
            ),
    {
        let amount = real_amount(&self.transfer_value);
        let mut transfers: Vec<TimedTransfer> = Vec::new();
        let mut i: usize = 0;
        while i < pairs.len()
            invariant
                i <= pairs@.len(),
                amount == spec_real_amount(self.transfer_value),
                transfers@ == timed(
                    pairs@,
                    amount,
                    constant_delays(pairs@.len(), delay),
                ).take(i as int),
            decreases pairs@.len() - i,
        {
            let pair = pairs[i];
            transfers.push(TimedTransfer { sender: pair.0, receiver: pair.1, amount, delay });
            assert(transfers@ =~= timed(
                pairs@,
                amount,
                constant_delays(pairs@.len(), delay),
            ).take(i + 1));
            i = i + 1;
        }
        assert(transfers@ =~= timed(pairs@, amount, constant_delays(pairs@.len(), delay)));
        transfers
    }

    /// The transfers of `pairs` without any pause.
    pub fn send_sequentially(&self, pairs: &Vec<(usize, usize)>) -> (transfers: Vec<TimedTransfer>)
        ensures
            transfers@ == timed(
                pairs@,
                spec_real_amount(self.transfer_value) as u128,
                constant_delays(pairs@.len(), Interval { nanos: 0 }),
            ),
    {
        self.send_with_delay(Interval::from_millis(0), pairs)
    }

    /// The transfers of `pairs` with the pauses `delays`, which are counted in
    /// milliseconds and add up to no more than `span` lasts.
    pub fn send_with_delays(
        &self,
        pairs: &Vec<(usize, usize)>,
        delays: &Vec<u128>,
        span: Interval,
    ) -> (transfers: Vec<TimedTransfer>)
        requires
            delays@.len() == pairs@.len(),
            forall|i: int| 0 <= i < delays@.len() ==> #[trigger] delays@[i] <= span.nanos / 1_000_000,
        ensures
            transfers@ == timed(
                pairs@,
                spec_real_amount(self.transfer_value) as u128,
                delays_in_millis(delays@),
            ),
    {
        let amount = real_amount(&self.transfer_value);
        let mut transfers: Vec<TimedTransfer> = Vec::new();
        let mut i: usize = 0;
        while i < pairs.len()
            invariant
                i <= pairs@.len(),
                delays@.len() == pairs@.len(),
                forall|j: int|
                    0 <= j < delays@.len() ==> #[trigger] delays@[j] <= span.nanos / 1_000_000,
                amount == spec_real_amount(self.transfer_value),
                transfers@ == timed(pairs@, amount, delays_in_millis(delays@)).take(i as int),
            decreases pairs@.len() - i,
        {
            let pair = pairs[i];
            let millis = delays[i];
            assert(millis * 1_000_000 <= span.nanos) by (nonlinear_arith)
                requires
                    millis <= span.nanos / 1_000_000,
            ;
            let delay = Interval { nanos: millis * 1_000_000 };
            transfers.push(TimedTransfer { sender: pair.0, receiver: pair.1, amount, delay });
            assert(transfers@ =~= timed(pairs@, amount, delays_in_millis(delays@)).take(i + 1));
            i = i + 1;
        }
        assert(transfers@ =~= timed(pairs@, amount, delays_in_millis(delays@)));
        transfers
    }

    /// The transfers of `pairs` spread at random over `span`. Each transfer is taken to
    /// need one second; what is left of the span is split at random into one pause per
    /// transfer. A span that is too short for the transfers alone is a contradiction in
    /// the configuration.
    pub fn send_within_span(&self, span: Interval, pairs: &Vec<(usize, usize)>) -> (outcome:
        Result<Vec<TimedTransfer>, ScenarioError>)
        ensures
            span.nanos / 1_000_000 < time_needed(pairs@.len()) <==> outcome is Err,
            outcome is Err ==> outcome->Err_0 == ScenarioError::BadConfig,
            outcome is Ok ==> exists|delays: Seq<u128>|
                delays.len() == pairs@.len() && (pairs@.len() > 0 ==> total(delays) == span.nanos
                    / 1_000_000 - time_needed(pairs@.len())) && outcome->Ok_0@ == #[trigger] timed(
                    pairs@,
                    spec_real_amount(self.transfer_value) as u128,
                    delays_in_millis(delays),
                ),
    {
        let time_needed_to_send_all: u128 = MILLIS_PER_TRANSACTION * (pairs.len() as u128);
        if span.as_millis() < time_needed_to_send_all {
            return Err(ScenarioError::BadConfig);
        }
        let idle_time: u128 = span.as_millis() - time_needed_to_send_all;
        let delays: Vec<u128> = if pairs.len() == 0 {
            Vec::new()
        } else {
            get_random_delays(idle_time, pairs.len())
        };
        Ok(self.send_with_delays(pairs, &delays, span))
    }

    /// The transfers of `pairs` as one batch, which the sender of the first transfer
    /// submits and pays for. A batch of nothing is a contradiction in the configuration.
    pub fn send_in_batch(&self, pairs: &Vec<(usize, usize)>) -> (outcome: Result<
        TransferPlan,
        ScenarioError,
    >)
        ensures
            pairs@.len() == 0 <==> outcome is Err,
            outcome is Err ==> outcome->Err_0 == ScenarioError::BadConfig,
            outcome is Ok ==> outcome->Ok_0 is InBatch && outcome->Ok_0->InBatch_payer
                == pairs@[0].0 && outcome->Ok_0->event_timeout.nanos == 1_000_000_000
                && outcome->Ok_0->InBatch_transfers@ == timed(
                pairs@,
                spec_real_amount(self.transfer_value) as u128,
                constant_delays(pairs@.len(), Interval { nanos: 0 }),
            ),
    {
        if pairs.len() == 0 {
            return Err(ScenarioError::BadConfig);
        }
        let transfers = self.send_sequentially(pairs);
        Ok(
            TransferPlan::InBatch {
                transfers,
                payer: pairs[0].0,
                expected_event: BatchCompleted::from_relevant_fields(),
                event_timeout: Interval::from_millis(BATCH_TIMEOUT_MILLIS),
            },
        )
    }

    /// Whether `outcome` is what the configured mode makes of `pairs`: a batch of all
    /// transfers paid by the first sender, or the transfers in turn, each carrying the
    /// configured tokens, with no pause, the configured pause, or pauses that fill the
    /// configured span. A batch of nothing and a span that is too short for the transfers
    /// are contradictions in the configuration.
    pub open spec fn plans(
        &self,
        pairs: Seq<(usize, usize)>,
        outcome: Result<TransferPlan, ScenarioError>,
    ) -> bool {
        let amount = spec_real_amount(self.transfer_value) as u128;
        match self.transfer_mode {
            TransferMode::Batched => if pairs.len() == 0 {
                outcome == Err::<TransferPlan, ScenarioError>(ScenarioError::BadConfig)
            } else {
                outcome is Ok && outcome->Ok_0 is InBatch && outcome->Ok_0->InBatch_payer
                    == pairs[0].0 && outcome->Ok_0->event_timeout.nanos == 1_000_000_000
                    && outcome->Ok_0->InBatch_transfers@ == timed(
                    pairs,
                    amount,
                    constant_delays(pairs.len(), Interval { nanos: 0 }),
                )
            },
            TransferMode::Sequential => outcome is Ok && outcome->Ok_0 is InTurn
                && outcome->Ok_0->InTurn_0@ == timed(
                pairs,
                amount,
                constant_delays(pairs.len(), Interval { nanos: 0 }),
            ),
            TransferMode::WithDelay(delay) => outcome is Ok && outcome->Ok_0 is InTurn
                && outcome->Ok_0->InTurn_0@ == timed(
                pairs,
                amount,
                constant_delays(pairs.len(), delay),
            ),
            TransferMode::Span(span) => if span.nanos / 1_000_000 < time_needed(pairs.len()) {
                outcome == Err::<TransferPlan, ScenarioError>(ScenarioError::BadConfig)
            } else {
                outcome is Ok && outcome->Ok_0 is InTurn && exists|delays: Seq<u128>|
                    delays.len() == pairs.len() && (pairs.len() > 0 ==> total(delays)
                        == span.nanos / 1_000_000 - time_needed(pairs.len()))
                        && outcome->Ok_0->InTurn_0@ == #[trigger] timed(
                        pairs,
                        amount,
                        delays_in_millis(delays),
                    )
            },
        }
    }

    /// Turns the pairs of one run into the plan that the configured mode asks for.
    pub fn send_transfers(&self, pairs: &Vec<(usize, usize)>) -> (outcome: Result<
        TransferPlan,
        ScenarioError,
    >)
        ensures
            self.plans(pairs@, outcome),
    {
        match self.transfer_mode {
            TransferMode::Sequential => {
                let outcome: Result<TransferPlan, ScenarioError> = Ok(
                    TransferPlan::InTurn(self.send_sequentially(pairs)),
                );
                assert(self.plans(pairs@, outcome));
                outcome
            },
            TransferMode::Batched => {
                let outcome = self.send_in_batch(pairs);
                assert(self.plans(pairs@, outcome));
                outcome
            },
            TransferMode::WithDelay(delay) => {
                let outcome: Result<TransferPlan, ScenarioError> = Ok(
                    TransferPlan::InTurn(self.send_with_delay(delay, pairs)),
                );
                assert(self.plans(pairs@, outcome));
                outcome
            },
            TransferMode::Span(span) => match self.send_within_span(span, pairs) {
                Ok(transfers) => {
                    let ghost sent = transfers@;
                    let outcome: Result<TransferPlan, ScenarioError> = Ok(
                        TransferPlan::InTurn(transfers),
                    );
                    proof {
                        assert(outcome->Ok_0->InTurn_0@ == sent);
                        let delays = choose|delays: Seq<u128>|
                            delays.len() == pairs@.len() && (pairs@.len() > 0 ==> total(delays)
                                == span.nanos / 1_000_000 - time_needed(pairs@.len())) && sent
                                == #[trigger] timed(
                                pairs@,
                                spec_real_amount(self.transfer_value) as u128,
                                delays_in_millis(delays),
                            );
                        assert(outcome->Ok_0->InTurn_0@ == timed(
                            pairs@,
                            spec_real_amount(self.transfer_value) as u128,
                            delays_in_millis(delays),
                        ));
                    }
                    outcome
                },
                Err(error) => {
                    let outcome: Result<TransferPlan, ScenarioError> = Err(error);
                    assert(self.plans(pairs@, outcome));
                    outcome
                },
            },
        }
    }

    /// Prepares one run: chooses as many pairs as transfers are configured among those
    /// that the direction allows, or all of them if there are fewer, and draws up the
    /// plan that the configured mode asks for.
    pub fn play(&self) -> (outcome: Result<TransferPlan, ScenarioError>)
        ensures
            exists|pairs: Seq<(usize, usize)>, anchor: usize, places: Seq<int>|
                anchor < AVAILABLE_ACCOUNTS && #[trigger] taken_at(
                    pairs,
                    possible_pairs(self.direction, anchor),
                    places,
                ) && pairs.len() == (if self.transfers <= possible_pairs(
                    self.direction,
                    anchor,
                ).len() {
                    self.transfers as nat
                } else {
                    possible_pairs(self.direction, anchor).len()
                }) && self.plans(pairs, outcome),
    {
        let pairs = self.designate_pairs();
        let outcome = self.send_transfers(&pairs);
        proof {
            let (anchor, places) = choose|anchor: usize, places: Seq<int>|
                anchor < AVAILABLE_ACCOUNTS && #[trigger] taken_at(
                    pairs@,
                    possible_pairs(self.direction, anchor),
                    places,
                ) && pairs@.len() == if self.transfers <= possible_pairs(
                    self.direction,
                    anchor,
                ).len() {
                    self.transfers as nat
                } else {
                    possible_pairs(self.direction, anchor).len()
                };
            assert(taken_at(pairs@, possible_pairs(self.direction, anchor), places)
                && self.plans(pairs@, outcome));
        }
        outcome
    }
}

/// A span that is shorter than one second per transfer is turned down as a contradiction
/// in the configuration, and no other span is.
pub proof fn lemma_short_span_is_bad_config(span: Interval, count: nat)
    ensures
        span.nanos < count * 1_000_000_000 <==> span.nanos / 1_000_000 < time_needed(count),
{
    assert(span.nanos < count * 1_000_000_000 <==> span.nanos / 1_000_000 < 1_000 * count)
        by (nonlinear_arith);
}

} // verus!
