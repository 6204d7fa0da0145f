//! Carrying out a plan of multisig actions, one confirmed submission after the other.
//!
//! The chain is asked by whoever drives the performance; here it is decided what is asked
//! next, who signs it, which event confirms it, and what the answer means for the
//! aggregation.

use vstd::prelude::*;

use crate::interval::Interval;
use crate::multisig::{well_planned, Action, MultisigError};

verus! {

/// What is known of a signature aggregation after it has been used.
#[derive(Debug, Clone, Copy, PartialEq, Eq, Structural)]
pub enum AggregationState {
    /// More approvals are needed.
    Ongoing,
    /// The last approval has executed the call, or the aggregation was cancelled.
    Closed,
}

/// The events by which the chain confirms multisig actions.
#[derive(Debug, Clone, Copy, PartialEq, Eq, Structural)]
pub enum MultisigEventKind {
    /// An aggregation has been opened.
    NewMultisig,
    /// An approval has been added to an aggregation that needs more.
    MultisigApproval,
    /// The last approval has executed the call.
    MultisigExecuted,
    /// The aggregation has been withdrawn.
    MultisigCancelled,
}

impl Action {
    /// Why the action cannot be taken on `context`, if it cannot. Every action but the
    /// initiating one needs an aggregation to act on, and no action can use one that is
    /// closed.
    pub open spec fn refusal(self, context: Option<AggregationState>) -> Option<MultisigError> {
        if !self.is_initial() && context is None {
            Some(MultisigError::MissingContext)
        } else if context == Some(AggregationState::Closed) {
            Some(MultisigError::InvalidAggregation)
        } else {
            None
        }
    }

    /// The event that confirms the action. An approval that is to execute the call is
    /// confirmed by the execution, any other approval as an approval.
    pub open spec fn confirmed_by(self, should_finalize: bool) -> MultisigEventKind {
        if self.is_initial() {
            MultisigEventKind::NewMultisig
        } else if self.is_cancel() {
            MultisigEventKind::MultisigCancelled
        } else if should_finalize {
            MultisigEventKind::MultisigExecuted
        } else {
            MultisigEventKind::MultisigApproval
        }
    }

    /// The state in which the action should leave the aggregation.
    pub open spec fn leaves(self, should_finalize: bool) -> AggregationState {
        if self.is_initial() {
            AggregationState::Ongoing
        } else if self.is_cancel() {
            AggregationState::Closed
        } else if should_finalize {
            AggregationState::Closed
        } else {
            AggregationState::Ongoing
        }
    }

    /// What taking the action on `context` comes to once the chain has left the
    /// aggregation in the state `outcome`.
    ///
    /// An action that cannot be taken on `context` is refused. Initiating leaves an
    /// ongoing aggregation and cancelling a closed one, whatever the chain said. An
    /// approval must leave the aggregation as planned: if it closes although more
    /// approvals were to come, that is an unexpected closing; if it stays open although
    /// the call was to be executed, the aggregation is invalid.
    pub open spec fn performed(
        self,
        should_finalize: bool,
        context: Option<AggregationState>,
        outcome: AggregationState,
    ) -> Result<AggregationState, MultisigError> {
        if self.refusal(context) is Some {
            Err(self.refusal(context)->Some_0)
        } else if !self.is_approval() {
            Ok(self.leaves(should_finalize))
        } else if outcome == self.leaves(should_finalize) {
            Ok(outcome)
        } else if outcome == AggregationState::Closed {
            Err(MultisigError::UnexpectedAggregationClosing)
        } else {
            Err(MultisigError::InvalidAggregation)
        }
    }

    /// The event that confirms the action.
    pub fn expected_event(&self, should_finalize: bool) -> (kind: MultisigEventKind)
        ensures
            kind == self.confirmed_by(should_finalize),
    {
        match self {
            Action::InitiateWithHash | Action::InitiateWithCall => MultisigEventKind::NewMultisig,
            Action::Cancel => MultisigEventKind::MultisigCancelled,
            Action::ApproveWithHash | Action::ApproveWithCall => if should_finalize {
                MultisigEventKind::MultisigExecuted
            } else {
                MultisigEventKind::MultisigApproval
            },
        }
    }

    /// Tells whether the action can be taken on `context`.
    pub fn check(&self, context: Option<AggregationState>) -> (outcome: Result<(), MultisigError>)
        ensures
            outcome is Err <==> self.refusal(context) is Some,
            outcome is Err ==> Some(outcome->Err_0) == self.refusal(context),
    {
        if !self.is_initial() && context.is_none() {
            return Err(MultisigError::MissingContext);
        }
        match context {
            Some(AggregationState::Closed) => Err(MultisigError::InvalidAggregation),
            _ => Ok(()),
        }
    }

    /// Settles what the action has come to, once the chain has answered with `outcome`.
    pub fn perform(
        &self,
        should_finalize: bool,
        context: Option<AggregationState>,
        outcome: AggregationState,
    ) -> (after: Result<AggregationState, MultisigError>)
        ensures
            after == self.performed(should_finalize, context, outcome),
    {
        match self.check(context) {
            Err(error) => {
                return Err(error);
            },
            Ok(()) => {},
        }
        match self {
            Action::InitiateWithHash | Action::InitiateWithCall => Ok(AggregationState::Ongoing),
            Action::Cancel => Ok(AggregationState::Closed),
            Action::ApproveWithHash | Action::ApproveWithCall => match outcome {
                AggregationState::Ongoing => if should_finalize {
                    Err(MultisigError::InvalidAggregation)
                } else {
                    Ok(outcome)
                },
                AggregationState::Closed => if should_finalize {
                    Ok(outcome)
                } else {
                    Err(MultisigError::UnexpectedAggregationClosing)
                },
            },
        }
    }
}

/// How long the event that confirms an action may take, in milliseconds.
pub const EVENT_TIMEOUT_MILLIS: u64 = 2000;

/// How long the event that confirms an action may take.
pub open spec fn event_timeout() -> Interval {
    Interval { nanos: 2_000_000_000 }
}

/// What is sent to the chain for one action of the plan.
#[derive(Debug, Clone, Copy, PartialEq, Eq, Structural)]
pub struct Submission {
    /// The action to take.
    pub action: Action,
    /// Which member signs, counted from the first member of the party.
    pub signer: usize,
    /// Whether this action is to execute the call.
    pub should_finalize: bool,
    /// The event that confirms the action.
    pub expected: MultisigEventKind,
    /// How long that event may take once the submission has returned.
    pub timeout: Interval,
}

/// Whether `plan` opens with an initiating action and holds no other one.
pub open spec fn opens_with_the_initiation(plan: Seq<Action>) -> bool {
    &&& plan.len() > 0
    &&& plan[0].is_initial()
    &&& forall|i: int| 1 <= i < plan.len() ==> !(#[trigger] plan[i]).is_initial()
}

/// How far a plan has been carried out, as plain mathematics.
pub struct PerformanceModel {
    /// The actions to take, in order.
    pub plan: Seq<Action>,
    /// How many of them have been taken.
    pub position: nat,
    /// What is known of the aggregation; nothing before the first action.
    pub context: Option<AggregationState>,
}

impl PerformanceModel {
    /// Nothing is left to do: the plan is through, or a cancellation has been performed.
    pub open spec fn finished(self) -> bool {
        self.position >= self.plan.len() || (self.position > 0 && self.plan[self.position
            - 1].is_cancel())
    }

    /// Whether the action at `position` is the last of the plan and not the first.
    pub open spec fn finalizes(plan: Seq<Action>, position: nat) -> bool {
        position >= 1 && position + 1 == plan.len()
    }

    /// What is sent next. The member at the position of the action signs it, but for a
    /// cancellation, which the initiator signs.
    pub open spec fn submission(self) -> Submission {
        let action = self.plan[self.position as int];
        let should_finalize = Self::finalizes(self.plan, self.position);
        Submission {
            action,
            signer: if action.is_cancel() {
                0
            } else {
                self.position as usize
            },
            should_finalize,
            expected: action.confirmed_by(should_finalize),
            timeout: event_timeout(),
        }
    }

    /// The performance after the chain has answered the pending submission with
    /// `outcome`, or the error that ends it.
    pub open spec fn recorded(self, outcome: AggregationState) -> Result<
        PerformanceModel,
        MultisigError,
    > {
        let action = self.plan[self.position as int];
        match action.performed(Self::finalizes(self.plan, self.position), self.context, outcome) {
            Ok(state) => Ok(
                PerformanceModel {
                    plan: self.plan,
                    position: self.position + 1,
                    context: Some(state),
                },
            ),
            Err(error) => Err(error),
        }
    }

    /// The performance of `plan` before anything has been sent.
    pub open spec fn start(plan: Seq<Action>) -> PerformanceModel {
        PerformanceModel { plan, position: 0, context: None }
    }

    /// The performance of `plan` after `steps` actions, each of which the chain has
    /// answered as planned.
    pub open spec fn undisturbed(plan: Seq<Action>, steps: nat) -> Result<
        PerformanceModel,
        MultisigError,
    >
        decreases steps,
    {
        if steps == 0 {
            Ok(Self::start(plan))
        } else {
            match Self::undisturbed(plan, (steps - 1) as nat) {
                Ok(before) => before.recorded(
                    before.submission().action.leaves(before.submission().should_finalize),
                ),
                Err(error) => Err(error),
            }
        }
    }
}

/// A plan that is being carried out.
pub struct Performance {
    actions: Vec<Action>,
    position: usize,
    context: Option<AggregationState>,
}

impl View for Performance {
    type V = PerformanceModel;

    closed spec fn view(&self) -> PerformanceModel {
        PerformanceModel {
            plan: self.actions@,
            position: self.position as nat,
            context: self.context,
        }
    }
}

impl Performance {
    #[verifier::type_invariant]
    spec fn well_formed(&self) -> bool {
        &&& self.position <= self.actions@.len()
        &&& opens_with_the_initiation(self.actions@)
        &&& self.position == 0 ==> self.context is None
        &&& (self.position > 0 && !self@.finished()) ==> self.context == Some(
            AggregationState::Ongoing,
        )
    }

    /// Whether `actions` can be carried out: there must be a first action, it must be an
    /// initiating one, and no other action may be. Anything else must not be handed to
    /// [`Self::new`].
    pub fn accepts(actions: &Vec<Action>) -> (fit: bool)
        ensures
            fit == opens_with_the_initiation(actions@),
    {
        if actions.len() == 0 || !actions[0].is_initial() {
            return false;
        }
        let mut i: usize = 1;
        while i < actions.len()
            invariant
                1 <= i <= actions@.len(),
                actions@[0].is_initial(),
                forall|j: int| 1 <= j < i ==> !(#[trigger] actions@[j]).is_initial(),
            decreases actions@.len() - i,
        {
            if actions[i].is_initial() {
                return false;
            }
            i = i + 1;
        }
        true
    }

    /// Sets out to carry out `actions`, which open with the one initiating action.
    pub fn new(actions: Vec<Action>) -> (performance: Self)
        requires
            opens_with_the_initiation(actions@),
        ensures
            performance@ == PerformanceModel::start(actions@),
    {
        Performance { actions, position: 0, context: None }
    }

    /// Whether nothing is left to do.
    pub fn is_finished(&self) -> (finished: bool)
        ensures
            finished == self@.finished(),
            self@.position <= self@.plan.len(),
    {
        proof {
            use_type_invariant(self);
        }
        self.position >= self.actions.len() || (self.position > 0 && self.actions[self.position
            - 1].is_cancel())
    }

    /// What is to be sent next, or nothing if the performance is finished. Whatever is
    /// handed out can be taken on the aggregation as it stands: the first action finds
    /// none, and every later one finds it open.
    pub fn next(&self) -> (pending: Option<Submission>)
        ensures
            pending is None <==> self@.finished(),
            pending is Some ==> pending->Some_0 == self@.submission(),
            pending is Some ==> pending->Some_0.action.refusal(self@.context) is None,
    {
        proof {
            use_type_invariant(self);
        }
        if self.is_finished() {
            return None;
        }
        let action = self.actions[self.position];
        let should_finalize = self.position >= 1 && self.actions.len() - self.position == 1;
        let signer = if action.is_cancel() {
            0
        } else {
            self.position
        };
        Some(
            Submission {
                action,
                signer,
                should_finalize,
                expected: action.expected_event(should_finalize),
                timeout: Interval::from_millis(EVENT_TIMEOUT_MILLIS),
            },
        )
    }

    /// Takes note of the state in which the chain has left the aggregation after the
    /// pending submission was sent and confirmed. An answer that does not fit the plan
    /// ends the performance with an error and leaves it as it was.
    pub fn record(&mut self, outcome: AggregationState) -> (noted: Result<(), MultisigError>)
        requires
            !old(self)@.finished(),
        ensures
            match old(self)@.recorded(outcome) {
                Ok(after) => noted is Ok && final(self)@ == after,
                Err(error) => noted == Err::<(), MultisigError>(error) && final(self)@ == old(
                    self,
                )@,
            },
    {
        proof {
            use_type_invariant(&*self);
        }
        let position = self.position;
        let action = self.actions[position];
        let should_finalize = position >= 1 && self.actions.len() - position == 1;
        match action.perform(should_finalize, self.context, outcome) {
            Ok(state) => {
                let actions = self.take_actions();
                proof {
                    if position >= 1 {
                        assert(!actions@[position as int].is_initial());
                    }
                }
                *self = Performance { actions, position: position + 1, context: Some(state) };
                Ok(())
            },
            Err(error) => Err(error),
        }
    }

    /// Moves the actions out for a moment and leaves a plan of one initiating action
    /// behind.
    fn take_actions(&mut self) -> (actions: Vec<Action>)
        ensures
            actions == old(self).actions,
    {
        let mut rest: Vec<Action> = Vec::new();
        rest.push(Action::InitiateWithHash);
        let mut taken = Performance { actions: rest, position: 0, context: None };
        std::mem::swap(self, &mut taken);
        taken.actions
    }
}

/// As long as the chain answers as planned, a plan goes through without an error: after
/// `steps` answers that many actions have been taken, and the aggregation is open until
/// the last action has closed it. The first action is the only one that finds no
/// aggregation, each member signs the action at the member's own position, the initiator
/// signs the cancellation, and only the last approval of a plan that is not cancelled is
/// confirmed by the execution of the call.
pub proof fn lemma_undisturbed_plan_goes_through(
    plan: Seq<Action>,
    threshold: nat,
    cancel: bool,
    steps: nat,
)
    requires
        well_planned(plan, threshold, cancel),
        steps <= plan.len() <= usize::MAX,
    ensures
        PerformanceModel::undisturbed(plan, steps) is Ok,
        PerformanceModel::undisturbed(plan, steps)->Ok_0.plan == plan,
        PerformanceModel::undisturbed(plan, steps)->Ok_0.position == steps,
        PerformanceModel::undisturbed(plan, steps)->Ok_0.context == if steps == 0 {
            None::<AggregationState>
        } else if steps < plan.len() {
            Some(AggregationState::Ongoing)
        } else {
            Some(AggregationState::Closed)
        },
        PerformanceModel::undisturbed(plan, steps)->Ok_0.finished() <==> steps == plan.len(),
        steps < plan.len() ==> {
            let pending = PerformanceModel::undisturbed(plan, steps)->Ok_0.submission();
            &&& pending.action == plan[steps as int]
            &&& pending.signer == if cancel && steps + 1 == plan.len() {
                0
            } else {
                steps
            }
            &&& pending.expected == if steps == 0 {
                MultisigEventKind::NewMultisig
            } else if steps + 1 < plan.len() {
                MultisigEventKind::MultisigApproval
            } else if cancel {
                MultisigEventKind::MultisigCancelled
            } else {
                MultisigEventKind::MultisigExecuted
            }
        },
    decreases steps,
{
    if steps > 0 {
        lemma_undisturbed_plan_goes_through(plan, threshold, cancel, (steps - 1) as nat);
        let before = PerformanceModel::undisturbed(plan, (steps - 1) as nat)->Ok_0;
        let action = plan[steps - 1];
        assert(before.submission().action == action);
        if steps - 1 >= 1 {
            assert(!action.is_initial());
        }
        if steps < plan.len() {
            assert(!action.is_cancel());
            assert(!plan[steps as int].is_initial());
        }
    } else {
        assert(plan[0].is_initial());
    }
}

} // verus!
