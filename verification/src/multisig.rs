//! The multisig scenario: a party of members approves one call, one member after the
//! other, until the threshold is met or the initiator cancels.
//!
//! This file holds what is decided before anything is sent: how large the party is, how
//! many approvals are needed, and which action each member takes.

use vstd::prelude::*;
use vstd::string::*;

pub mod events;
pub mod performance;

use crate::chance::{flip, pick_between, sample_indices};
use crate::event::AccountId;
use crate::multisig::performance::Performance;
use crate::scenario::{Level, Loggable, RecordModel, ScenarioLogging};
use crate::text::{decimal, joined, spec_decimal};

verus! {

/// How many accounts the scenario may draw its members from. Their seeds end in the
/// numbers from zero up to this number, which is left out.
pub const AVAILABLE_ACCOUNTS: usize = 50;

/// The ways in which a multisig scenario fails on its own account.
#[derive(Debug, Clone, Copy, PartialEq, Eq, Structural)]
pub enum MultisigError {
    /// More approvals are asked for than the party has members.
    ThresholdTooHigh,
    /// Fewer than two approvals are asked for.
    ThresholdTooLow,
    /// The party is to be larger than the given number of accounts.
    SizeTooHigh(usize),
    /// An approval or a cancellation was attempted without an aggregation to act on.
    MissingContext,
    /// The aggregation is not in the state that the action needs.
    InvalidAggregation,
    /// The aggregation was closed although more approvals were to come.
    UnexpectedAggregationClosing,
}

impl MultisigError {
    /// The line by which the error is reported.
    pub open spec fn spec_message(&self) -> Seq<char> {
        match self {
            MultisigError::ThresholdTooHigh => "👪❌ Provided threshold value is too high."@,
            MultisigError::ThresholdTooLow => "👪❌ Threshold should be at least 2."@,
            MultisigError::SizeTooHigh(bound) => "👪❌ Party size should be less than "@
                + spec_decimal(*bound as nat) + "."@,
            MultisigError::MissingContext => "👪❌ Action requires valid context parameter."@,
            MultisigError::InvalidAggregation => "👪❌ Signature aggregation is not in a state that allows this action."@,
            MultisigError::UnexpectedAggregationClosing => "👪❌ Signature aggregation has been closed or finalized unexpectedly."@,
        }
    }

    /// The line by which the error is reported.
    pub fn message(&self) -> (text: String)
        ensures
            text@ == self.spec_message(),
    {
        match self {
            MultisigError::ThresholdTooHigh => String::from_str(
                "👪❌ Provided threshold value is too high.",
            ),
            MultisigError::ThresholdTooLow => String::from_str(
                "👪❌ Threshold should be at least 2.",
            ),
            MultisigError::SizeTooHigh(bound) => {
                let number = decimal(*bound as u128);
                let mut text = joined("👪❌ Party size should be less than ", number.as_str());
                text.append(".");
                text
            },
            MultisigError::MissingContext => String::from_str(
                "👪❌ Action requires valid context parameter.",
            ),
            MultisigError::InvalidAggregation => String::from_str(
                "👪❌ Signature aggregation is not in a state that allows this action.",
            ),
            MultisigError::UnexpectedAggregationClosing => String::from_str(
                "👪❌ Signature aggregation has been closed or finalized unexpectedly.",
            ),
        }
    }
}

impl Loggable for MultisigError {
    open spec fn text(&self) -> Seq<char> {
        self.spec_message()
    }

    fn to_text(&self) -> (text: String) {
        self.message()
    }
}

/// How large the party should be.
#[derive(Debug, Clone, Copy, PartialEq, Eq, Structural)]
pub enum PartySize {
    /// Between 2 and 5 members, chosen at random.
    Small,
    /// Between 6 and 14 members, chosen at random.
    Medium,
    /// Between 15 members and as many as there are accounts, chosen at random.
    Large,
    /// Exactly this many members.
    Precise(usize),
}

impl PartySize {
    /// Whether `size` is a number of members that this wish allows when `upper_bound`
    /// accounts are at hand.
    pub open spec fn admits(self, upper_bound: usize, size: usize) -> bool {
        match self {
            PartySize::Small => 2 <= size < 6,
            PartySize::Medium => 6 <= size < 15,
            PartySize::Large => 15 <= size <= upper_bound,
            PartySize::Precise(wanted) => size == wanted && wanted <= upper_bound,
        }
    }

    /// Whether no number of members fulfils this wish when `upper_bound` accounts are at
    /// hand.
    pub open spec fn too_high(self, upper_bound: usize) -> bool {
        match self {
            PartySize::Small => false,
            PartySize::Medium => false,
            PartySize::Large => upper_bound < 15,
            PartySize::Precise(wanted) => wanted > upper_bound,
        }
    }

    /// Settles on a number of members. A wish that cannot be met with `upper_bound`
    /// accounts is turned down; every other wish is met by a number that it admits.
    pub fn get(self, upper_bound: usize) -> (outcome: Result<usize, MultisigError>)
        ensures
            self.too_high(upper_bound) <==> outcome is Err,
            outcome is Err ==> outcome->Err_0 == MultisigError::SizeTooHigh(upper_bound),
            outcome is Ok ==> self.admits(upper_bound, outcome->Ok_0),
    {
        match self {
            PartySize::Small => Ok(pick_between(2, 5)),
            PartySize::Medium => Ok(pick_between(6, 14)),
            PartySize::Large => {
                if upper_bound < 15 {
                    Err(MultisigError::SizeTooHigh(upper_bound))
                } else {
                    Ok(pick_between(15, upper_bound))
                }
            },
            PartySize::Precise(size) => {
                if size <= upper_bound {
                    Ok(size)
                } else {
                    Err(MultisigError::SizeTooHigh(upper_bound))
                }
            },
        }
    }
}

/// How many approvals should be needed.
#[derive(Debug, Clone, Copy, PartialEq, Eq, Structural)]
pub enum Threshold {
    /// Between 2 and the size of the party, chosen at random.
    Random,
    /// Exactly this many.
    Precise(usize),
}

impl Threshold {
    /// Why this wish cannot be met in a party of `party_size` members, if it cannot. A
    /// threshold above the size of the party is too high, whatever else holds of it; one
    /// below two is too low.
    pub open spec fn verdict(self, party_size: usize) -> Option<MultisigError> {
        match self {
            Threshold::Random => if party_size < 2 {
                Some(MultisigError::ThresholdTooHigh)
            } else {
                None
            },
            Threshold::Precise(wanted) => if wanted > party_size {
                Some(MultisigError::ThresholdTooHigh)
            } else if wanted < 2 {
                Some(MultisigError::ThresholdTooLow)
            } else {
                None
            },
        }
    }

    /// Whether `threshold` is a number of approvals that this wish allows in a party of
    /// `party_size` members.
    pub open spec fn admits(self, party_size: usize, threshold: usize) -> bool {
        &&& 2 <= threshold <= party_size
        &&& self is Precise ==> threshold == self->Precise_0
    }

    /// Settles on a number of approvals between two and the size of the party, or says
    /// why there is none.
    pub fn get(self, party_size: usize) -> (outcome: Result<usize, MultisigError>)
        ensures
            outcome is Err <==> self.verdict(party_size) is Some,
            outcome is Err ==> Some(outcome->Err_0) == self.verdict(party_size),
            outcome is Ok ==> self.admits(party_size, outcome->Ok_0),
    {
        match self {
            Threshold::Random => {
                if party_size < 2 {
                    Err(MultisigError::ThresholdTooHigh)
                } else {
                    Ok(pick_between(2, party_size))
                }
            },
            Threshold::Precise(threshold) => {
                if threshold > party_size {
                    Err(MultisigError::ThresholdTooHigh)
                } else if threshold < 2 {
                    Err(MultisigError::ThresholdTooLow)
                } else {
                    Ok(threshold)
                }
            },
        }
    }
}

/// A threshold of one is too low in any party that has a member, and a threshold of one
/// more than the party has members is too high.
pub proof fn lemma_threshold_bounds(party_size: usize)
    ensures
        party_size >= 1 ==> Threshold::Precise(1).verdict(party_size) == Some(
            MultisigError::ThresholdTooLow,
        ),
        party_size < usize::MAX ==> Threshold::Precise((party_size + 1) as usize).verdict(
            party_size,
        ) == Some(MultisigError::ThresholdTooHigh),
{
}

/// What one member does for the aggregation.
#[derive(Debug, Clone, Copy, PartialEq, Eq, Structural)]
pub enum Action {
    /// Opens the aggregation, telling only the hash of the call.
    InitiateWithHash,
    /// Opens the aggregation and hands in the call itself.
    InitiateWithCall,
    /// Approves, telling only the hash of the call.
    ApproveWithHash,
    /// Approves and hands in the call itself.
    ApproveWithCall,
    /// Withdraws the aggregation.
    Cancel,
}

impl Action {
    /// Whether the action carries the whole call and not just its hash.
    #[verifier::when_used_as_spec(spec_requires_call)]
    pub fn requires_call(&self) -> (carries: bool)
        ensures
            carries == self.spec_requires_call(),
    {
        matches!(self, Action::InitiateWithCall | Action::ApproveWithCall)
    }

    /// Whether the action carries the whole call and not just its hash.
    pub open spec fn spec_requires_call(&self) -> bool {
        *self == Action::InitiateWithCall || *self == Action::ApproveWithCall
    }

    /// Whether the action withdraws the aggregation.
    #[verifier::when_used_as_spec(spec_is_cancel)]
    pub fn is_cancel(&self) -> (cancels: bool)
        ensures
            cancels == self.spec_is_cancel(),
    {
        matches!(self, Action::Cancel)
    }

    /// Whether the action withdraws the aggregation.
    pub open spec fn spec_is_cancel(&self) -> bool {
        *self == Action::Cancel
    }

    /// Whether the action opens the aggregation.
    #[verifier::when_used_as_spec(spec_is_initial)]
    pub fn is_initial(&self) -> (opens: bool)
        ensures
            opens == self.spec_is_initial(),
    {
        matches!(self, Action::InitiateWithCall | Action::InitiateWithHash)
    }

    /// Whether the action opens the aggregation.
    pub open spec fn spec_is_initial(&self) -> bool {
        *self == Action::InitiateWithCall || *self == Action::InitiateWithHash
    }

    /// Whether the action is an approval.
    pub open spec fn is_approval(&self) -> bool {
        *self == Action::ApproveWithCall || *self == Action::ApproveWithHash
    }
}

/// When the call itself, and not just its hash, is handed to the chain.
#[derive(Debug, Clone, Copy, PartialEq, Eq, Structural)]
pub enum Strategy {
    /// Only the member who meets the threshold hands in the call.
    Optimal,
    /// Every member decides by a coin whether to hand in the call; the last one hands it
    /// in for certain if nobody did before.
    Mess,
    /// The initiator hands in the call; everyone else tells the hash.
    InAdvance,
}

impl Strategy {
    /// What the initiator does; `coin` decides for the strategy that leaves it to chance,
    /// where heads means the hash.
    pub open spec fn initial_given(self, coin: bool) -> Action {
        match self {
            Strategy::Optimal => Action::InitiateWithHash,
            Strategy::InAdvance => Action::InitiateWithCall,
            Strategy::Mess => if coin {
                Action::InitiateWithHash
            } else {
                Action::InitiateWithCall
            },
        }
    }

    /// What a member between the first and the last does; `coin` decides for the strategy
    /// that leaves it to chance, where heads means the hash.
    pub open spec fn middle_given(self, coin: bool) -> Action {
        match self {
            Strategy::Optimal => Action::ApproveWithHash,
            Strategy::InAdvance => Action::ApproveWithHash,
            Strategy::Mess => if coin {
                Action::ApproveWithHash
            } else {
                Action::ApproveWithCall
            },
        }
    }

    /// What the member who meets the threshold does. Where it is left to chance, the call
    /// is handed in if nobody has done so before, and otherwise if `coin` shows heads.
    pub open spec fn final_given(self, call_submitted: bool, coin: bool) -> Action {
        match self {
            Strategy::Optimal => Action::ApproveWithCall,
            Strategy::InAdvance => Action::ApproveWithHash,
            Strategy::Mess => if !call_submitted || coin {
                Action::ApproveWithCall
            } else {
                Action::ApproveWithHash
            },
        }
    }

    /// The action at position `i` that comes before the last one of a full plan.
    pub open spec fn early_given(self, coins: Seq<bool>, i: int) -> Action {
        if i == 0 {
            self.initial_given(coins[0])
        } else {
            self.middle_given(coins[i])
        }
    }

    /// Whether one of the first `upto` actions of a full plan hands in the call.
    pub open spec fn call_within(self, coins: Seq<bool>, upto: int) -> bool {
        exists|j: int| 0 <= j < upto && (#[trigger] self.early_given(coins, j)).requires_call()
    }

    /// The plan that reaches the threshold: one initiating action and `threshold - 1`
    /// approvals, the coin at each position deciding what is left to chance there.
    pub open spec fn full_plan(self, threshold: nat, coins: Seq<bool>) -> Seq<Action> {
        Seq::new(
            threshold,
            |i: int|
                if i < threshold - 1 {
                    self.early_given(coins, i)
                } else {
                    self.final_given(self.call_within(coins, threshold - 1), coins[i])
                },
        )
    }

    /// The plan that is carried out. Without cancellation it is the full plan. With a
    /// cancellation at position `c` it is the first `c` actions of the full plan followed
    /// by a cancellation.
    pub open spec fn plan(self, threshold: nat, coins: Seq<bool>, cancel_at: Option<nat>) -> Seq<
        Action,
    > {
        match cancel_at {
            None => self.full_plan(threshold, coins),
            Some(c) => self.full_plan(threshold, coins).take(c as int).push(Action::Cancel),
        }
    }

    /// What the initiator does, given the coin.
    pub fn initial_with(&self, coin: bool) -> (action: Action)
        ensures
            action == self.initial_given(coin),
    {
        match self {
            Strategy::Optimal => Action::InitiateWithHash,
            Strategy::InAdvance => Action::InitiateWithCall,
            Strategy::Mess => if coin {
                Action::InitiateWithHash
            } else {
                Action::InitiateWithCall
            },
        }
    }

    /// What a member between the first and the last does, given the coin.
    pub fn middle_with(&self, coin: bool) -> (action: Action)
        ensures
            action == self.middle_given(coin),
    {
        match self {
            Strategy::Optimal | Strategy::InAdvance => Action::ApproveWithHash,
            Strategy::Mess => if coin {
                Action::ApproveWithHash
            } else {
                Action::ApproveWithCall
            },
        }
    }

    /// What the member who meets the threshold does, given what went before and the coin.
    pub fn final_with(&self, call_submitted: bool, coin: bool) -> (action: Action)
        ensures
            action == self.final_given(call_submitted, coin),
    {
        match self {
            Strategy::Optimal => Action::ApproveWithCall,
            Strategy::InAdvance => Action::ApproveWithHash,
            Strategy::Mess => if !call_submitted || coin {
                Action::ApproveWithCall
            } else {
                Action::ApproveWithHash
            },
        }
    }

    /// What the initiator does; a coin is thrown where the strategy leaves it to chance.
    pub fn initial_action(&self) -> (action: Action)
        ensures
            action == self.initial_given(true) || action == self.initial_given(false),
    {
        self.initial_with(flip())
    }

    /// What a member between the first and the last does; a coin is thrown where the
    /// strategy leaves it to chance.
    pub fn middle_action(&self) -> (action: Action)
        ensures
            action == self.middle_given(true) || action == self.middle_given(false),
    {
        self.middle_with(flip())
    }

    /// What the member who meets the threshold does; a coin is thrown where the strategy
    /// leaves it to chance.
    pub fn final_action(&self, call_submitted: bool) -> (action: Action)
        ensures
            action == self.final_given(call_submitted, true) || action == self.final_given(
                call_submitted,
                false,
            ),
    {
        self.final_with(call_submitted, flip())
    }
}

/// Whether a threshold, the coins and a place of cancellation fit together: at least two
/// approvals, one coin per position, and a cancellation after the first action and no
/// later than the last.
pub open spec fn plannable(threshold: nat, coins: Seq<bool>, cancel_at: Option<nat>) -> bool {
    &&& threshold >= 2
    &&& coins.len() == threshold
    &&& cancel_at is Some ==> 1 <= cancel_at->Some_0 < threshold
}

/// Works out the plan for `threshold` approvals from the coins and the place of
/// cancellation that chance has given.
pub fn plan_actions(
    strategy: Strategy,
    threshold: usize,
    coins: &Vec<bool>,
    cancel_at: Option<usize>,
) -> (actions: Vec<Action>)
    requires
        plannable(
            threshold as nat,
            coins@,
            match cancel_at {
                Some(c) => Some(c as nat),
                None => None,
            },
        ),
    ensures
        actions@ == strategy.plan(
            threshold as nat,
            coins@,
            match cancel_at {
                Some(c) => Some(c as nat),
                None => None,
            },
        ),
{
    let mut actions: Vec<Action> = Vec::new();
    let first = strategy.initial_with(coins[0]);
    let mut call_submitted: bool = first.requires_call();
    actions.push(first);
    proof {
        assert(call_submitted == strategy.call_within(coins@, 1)) by {
            if call_submitted {
                assert(strategy.early_given(coins@, 0).requires_call());
            }
        }
    }
    let mut i: usize = 1;
    while i < threshold - 1
        invariant
            threshold >= 2,
            coins@.len() == threshold,
            1 <= i <= threshold - 1,
            actions@.len() == i,
            forall|j: int| 0 <= j < i ==> actions@[j] == strategy.early_given(coins@, j),
            call_submitted == strategy.call_within(coins@, i as int),
        decreases threshold - i,
    {
        let next = strategy.middle_with(coins[i]);
        let ghost before = call_submitted;
        call_submitted = call_submitted || next.requires_call();
        actions.push(next);
        proof {
            if call_submitted {
                if before {
                    let j = choose|j: int|
                        0 <= j < i && (#[trigger] strategy.early_given(coins@, j)).requires_call();
                    assert(strategy.early_given(coins@, j).requires_call());
                } else {
                    assert(strategy.early_given(coins@, i as int).requires_call());
                }
            } else {
                assert forall|j: int| 0 <= j < i + 1 implies !(#[trigger] strategy.early_given(
                    coins@,
                    j,
                )).requires_call() by {
                    if j < i {
                        assert(!strategy.call_within(coins@, i as int));
                    }
                }
            }
        }
        i = i + 1;
    }
    actions.push(strategy.final_with(call_submitted, coins[threshold - 1]));
    assert(actions@ =~= strategy.full_plan(threshold as nat, coins@));
    match cancel_at {
        None => {},
        Some(c) => {
            actions.truncate(c);
            actions.push(Action::Cancel);
            assert(actions@ =~= strategy.full_plan(threshold as nat, coins@).take(c as int).push(
                Action::Cancel,
            ));
        },
    }
    actions
}

/// Whether `actions` is a plan as the scenario carries it out: it opens with the one
/// initiating action, goes on with approvals, and, if it is cancelled, ends with the one
/// cancellation.
pub open spec fn well_planned(actions: Seq<Action>, threshold: nat, cancel: bool) -> bool {
    &&& 2 <= actions.len() <= threshold
    &&& actions[0].is_initial()
    &&& forall|i: int| 1 <= i < actions.len() ==> !(#[trigger] actions[i]).is_initial()
    &&& forall|i: int| 0 <= i < actions.len() - 1 ==> !(#[trigger] actions[i]).is_cancel()
    &&& cancel ==> actions.last().is_cancel()
    &&& !cancel ==> actions.last().is_approval() && actions.len() == threshold
}

/// Every plan opens with the one initiating action and goes on with approvals. A plan that
/// is not cancelled has as many actions as approvals are needed. A cancelled plan has no
/// more actions than that, and its last action, and no other, is the cancellation.
pub proof fn lemma_plan_is_well_planned(
    strategy: Strategy,
    threshold: nat,
    coins: Seq<bool>,
    cancel_at: Option<nat>,
)
    requires
        plannable(threshold, coins, cancel_at),
    ensures
        well_planned(strategy.plan(threshold, coins, cancel_at), threshold, cancel_at is Some),
        cancel_at is Some ==> strategy.plan(threshold, coins, cancel_at).len() == cancel_at->Some_0
            + 1,
{
}

/// Whether one of the actions hands in the call.
pub open spec fn hands_in_call(actions: Seq<Action>) -> bool {
    exists|i: int| 0 <= i < actions.len() && (#[trigger] actions[i]).requires_call()
}

/// Under the strategy that leaves it to chance, a plan that is not cancelled hands in the
/// call at least once. A cancelled plan does so exactly if one of the coins before the
/// cancellation shows tails.
pub proof fn lemma_mess_hands_in_call(threshold: nat, coins: Seq<bool>, cancel_at: Option<nat>)
    requires
        plannable(threshold, coins, cancel_at),
    ensures
        cancel_at is None ==> hands_in_call(Strategy::Mess.plan(threshold, coins, cancel_at)),
        cancel_at is Some ==> (hands_in_call(Strategy::Mess.plan(threshold, coins, cancel_at))
            <==> exists|j: int| 0 <= j < cancel_at->Some_0 && !#[trigger] coins[j]),
{
    let plan = Strategy::Mess.plan(threshold, coins, cancel_at);
    match cancel_at {
        None => {
            let last = threshold - 1;
            if Strategy::Mess.call_within(coins, last) {
                let j = choose|j: int|
                    0 <= j < last && (#[trigger] Strategy::Mess.early_given(coins, j)).requires_call();
                assert(plan[j].requires_call());
            } else {
                assert(plan[last].requires_call());
            }
        },
        Some(c) => {
            if hands_in_call(plan) {
                let i = choose|i: int| 0 <= i < plan.len() && (#[trigger] plan[i]).requires_call();
                assert(i < c);
                assert(!coins[i]);
            }
            if exists|j: int| 0 <= j < c && !#[trigger] coins[j] {
                let j = choose|j: int| 0 <= j < c && !#[trigger] coins[j];
                assert(plan[j].requires_call());
            }
        },
    }
}

/// Under the optimal strategy everyone tells the hash but the last member, who hands in
/// the call. Under the strategy that hands in the call in advance the initiator does so,
/// and everyone else tells the hash.
pub proof fn lemma_fixed_strategies(threshold: nat, coins: Seq<bool>)
    requires
        plannable(threshold, coins, None),
    ensures
        Strategy::Optimal.plan(threshold, coins, None) == Seq::new(
            threshold,
            |i: int|
                if i == 0 {
                    Action::InitiateWithHash
                } else if i < threshold - 1 {
                    Action::ApproveWithHash
                } else {
                    Action::ApproveWithCall
                },
        ),
        Strategy::InAdvance.plan(threshold, coins, None) == Seq::new(
            threshold,
            |i: int|
                if i == 0 {
                    Action::InitiateWithCall
                } else {
                    Action::ApproveWithHash
                },
        ),
{
    assert(Strategy::Optimal.plan(threshold, coins, None) =~= Seq::new(
        threshold,
        |i: int|
            if i == 0 {
                Action::InitiateWithHash
            } else if i < threshold - 1 {
                Action::ApproveWithHash
            } else {
                Action::ApproveWithCall
            },
    ));
    assert(Strategy::InAdvance.plan(threshold, coins, None) =~= Seq::new(
        threshold,
        |i: int|
            if i == 0 {
                Action::InitiateWithCall
            } else {
                Action::ApproveWithHash
            },
    ));
}

/// The seed from which the account with number `idx` of the pool is derived.
pub open spec fn spec_member_seed(idx: usize) -> Seq<char> {
    "//Multisig"@ + spec_decimal(idx as nat)
}

/// The seed from which the account with number `idx` of the pool is derived.
pub fn member_seed(idx: usize) -> (seed: String)
    ensures
        seed@ == spec_member_seed(idx),
{
    let number = decimal(idx as u128);
    joined("//Multisig", number.as_str())
}

/// The line that announces a run with the given party and threshold.
pub open spec fn spec_opening_line(party_size: usize, threshold: usize) -> Seq<char> {
    "Starting multisig scenario with party size: "@ + spec_decimal(party_size as nat)
        + " and threshold: "@ + spec_decimal(threshold as nat)
}

/// The line that announces a run with the given party and threshold.
pub fn opening_line(party_size: usize, threshold: usize) -> (line: String)
    ensures
        line@ == spec_opening_line(party_size, threshold),
{
    let size = decimal(party_size as u128);
    let mut line = joined("Starting multisig scenario with party size: ", size.as_str());
    line.append(" and threshold: ");
    let needed = decimal(threshold as u128);
    line.append(needed.as_str());
    line
}

/// One run of the scenario, ready to be carried out: who takes part, how many approvals
/// are needed, and the plan.
pub struct MultisigRun {
    /// The members of the party, each by its number in the pool of accounts.
    pub members: Vec<usize>,
    /// How many approvals execute the call.
    pub threshold: usize,
    /// The plan and how far it has been carried out.
    pub performance: Performance,
}

/// What the configuration says about a multisig scenario.
#[derive(Debug, Clone, Copy, PartialEq, Eq, Structural)]
pub struct Multisig {
    /// How large the party is to be; settled anew for each run.
    pub party_size: PartySize,
    /// How many approvals are to be needed; settled anew for each run.
    pub threshold: Threshold,
    /// When the call itself is handed in.
    pub strategy: Strategy,
    /// Whether the aggregation is cancelled before the threshold is met.
    pub cancel: bool,
}

impl Multisig {
    /// Chooses `party_size` different accounts of the pool at random.
    pub fn select_members(&self, party_size: usize) -> (members: Vec<usize>)
        requires
            party_size <= AVAILABLE_ACCOUNTS,
        ensures
            members@.len() == party_size,
            forall|i: int| 0 <= i < members@.len() ==> #[trigger] members@[i] < AVAILABLE_ACCOUNTS,
            forall|i: int, j: int| 0 <= i < j < members@.len() ==> members@[i] != members@[j],
    {
        sample_indices(AVAILABLE_ACCOUNTS, party_size)
    }

    /// Draws up the plan for `threshold` approvals. Chance gives one coin per position
    /// and, if the scenario cancels, the position of the cancellation, which comes after
    /// the first action; the rest follows from the strategy.
    pub fn prepare_actions(&self, threshold: usize) -> (actions: Vec<Action>)
        requires
            threshold >= 2,
        ensures
            exists|coins: Seq<bool>, cancel_at: Option<nat>|
                plannable(threshold as nat, coins, cancel_at) && (cancel_at is Some
                    <==> self.cancel) && actions@ == #[trigger] self.strategy.plan(
                    threshold as nat,
                    coins,
                    cancel_at,
                ),
            well_planned(actions@, threshold as nat, self.cancel),
    {
        let mut coins: Vec<bool> = Vec::new();
        let mut i: usize = 0;
        while i < threshold
            invariant
                i <= threshold,
                coins@.len() == i,
            decreases threshold - i,
        {
            coins.push(flip());
            i = i + 1;
        }
        let cancel_at: Option<usize> = if self.cancel {
            Some(pick_between(1, threshold - 1))
        } else {
            None
        };
        let actions = plan_actions(self.strategy, threshold, &coins, cancel_at);
        proof {
            let place: Option<nat> = match cancel_at {
                Some(c) => Some(c as nat),
                None => None,
            };
            lemma_plan_is_well_planned(self.strategy, threshold as nat, coins@, place);
            assert(actions@ == self.strategy.plan(threshold as nat, coins@, place));
        }
        actions
    }

    /// The call that the party approves: a transfer of nothing to the account whose
    /// identifier is all zeros. Whether it goes through once it is executed does not
    /// matter to the scenario.
    pub fn prepare_call() -> (call: (AccountId, u128))
        ensures
            call.0@ == Seq::new(32, |i: int| 0u8),
            call.1 == 0,
    {
        let sink = AccountId([0u8;32]);
        assert(sink@ =~= Seq::new(32, |i: int| 0u8));
        (sink, 0)
    }

    /// Prepares one run: settles the size of the party and the threshold, announces both
    /// in the log, chooses the members and draws up the plan. A wish for the party or the
    /// threshold that cannot be met ends the run before anything is logged.
    pub fn play(&self, logger: &mut ScenarioLogging) -> (outcome: Result<
        MultisigRun,
        MultisigError,
    >)
        ensures
            final(logger).ident() == old(logger).ident(),
            self.party_size.too_high(AVAILABLE_ACCOUNTS) ==> outcome == Err::<
                MultisigRun,
                MultisigError,
            >(MultisigError::SizeTooHigh(AVAILABLE_ACCOUNTS)),
            outcome is Err ==> final(logger).records() == old(logger).records(),
            outcome is Err && !self.party_size.too_high(AVAILABLE_ACCOUNTS) ==> exists|
                party_size: usize,
            |
                self.party_size.admits(AVAILABLE_ACCOUNTS, party_size) && Some(outcome->Err_0)
                    == #[trigger] self.threshold.verdict(party_size),
            outcome is Ok ==> {
                let run = outcome->Ok_0;
                &&& self.party_size.admits(AVAILABLE_ACCOUNTS, run.members@.len() as usize)
                &&& self.threshold.admits(run.members@.len() as usize, run.threshold)
                &&& forall|i: int|
                    0 <= i < run.members@.len() ==> #[trigger] run.members@[i] < AVAILABLE_ACCOUNTS
                &&& forall|i: int, j: int|
                    0 <= i < j < run.members@.len() ==> run.members@[i] != run.members@[j]
                &&& run.performance@.position == 0
                &&& run.performance@.context is None
                &&& well_planned(run.performance@.plan, run.threshold as nat, self.cancel)
                &&& final(logger).records() == old(logger).records().push(
                    RecordModel {
                        level: Level::Info,
                        target: old(logger).ident(),
                        message: spec_opening_line(run.members@.len() as usize, run.threshold),
                    },
                )
            },
    {
        let party_size = match self.party_size.get(AVAILABLE_ACCOUNTS) {
            Ok(size) => size,
            Err(error) => {
                return Err(error);
            },
        };
        let threshold = match self.threshold.get(party_size) {
            Ok(threshold) => threshold,
            Err(error) => {
                return Err(error);
            },
        };
        let line = opening_line(party_size, threshold);
        logger.info(line.as_str());
        let members = self.select_members(party_size);
        let actions = self.prepare_actions(threshold);
        let performance = Performance::new(actions);
        Ok(MultisigRun { members, threshold, performance })
    }
}

} // verus!
