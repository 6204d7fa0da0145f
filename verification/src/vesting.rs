//! The vesting scenarios.
//!
//! The first one fills an account with vesting schedules up to the limit that the chain
//! allows and then merges them back into one. Here it is decided what is asked of the
//! chain next and what each answer means.

use vstd::prelude::*;
use vstd::string::*;

use crate::chance::any_usize;
use crate::interval::Interval;
use crate::scenario::Loggable;
use crate::text::{decimal, joined, spec_decimal};
use crate::vest::VestingInfo;

verus! {

/// How many accounts the scenario may draw on. Their seeds end in the numbers from zero up
/// to this number, which is left out.
pub const AVAILABLE_ACCOUNTS: usize = 50;

/// The block from which the schedules made here unlock: the last one there is.
pub const STARTING_BLOCK: u32 = 0xffff_ffff;

/// How much each schedule made here unlocks per block.
pub const PER_BLOCK: u128 = 1;

/// How long the chain may take to confirm one step, in milliseconds.
pub const STEP_TIMEOUT_MILLIS: u64 = 2000;

/// The ways in which the merging scenario fails on its own account. Accounts are named by
/// their number in the pool.
#[derive(Debug, Clone, Copy, PartialEq, Eq, Structural)]
pub enum SchedulesMergingError {
    /// The chain allows fewer than two schedules per account, so there is nothing to merge.
    LimitTooLow,
    /// After all transfers the account does not hold as many schedules as the chain allows.
    ReachingLimitFailure(usize),
    /// The account held as many schedules as the chain allows before anything was sent.
    LimitAlreadyReached(usize),
    /// After all transfers the schedules of the account do not lock what they should.
    UnexpectedLockedBalances {
        /// What the schedules lock.
        locked: u128,
        /// How many schedules the account holds.
        num_of_schedules: usize,
        /// What the schedules should lock.
        expected: u128,
        /// The account.
        account: usize,
    },
    /// After all merges the account holds more or fewer than one schedule.
    MergingFailureNumber(usize),
    /// Merging has changed what the schedules lock.
    MergingFailureLocked {
        /// What the schedules locked before the first merge.
        locked_before_merging: u128,
        /// What they lock after the last one.
        locked_after_merging: u128,
        /// The account.
        account: usize,
    },
}

/// The seed of the account with the number `idx` in the pool.
pub open spec fn spec_pool_seed(idx: usize) -> Seq<char> {
    "//VestingSchedulesMerging"@ + spec_decimal(idx as nat)
}

/// The seed of the account with the number `idx` in the pool.
pub fn pool_seed(idx: usize) -> (seed: String)
    ensures
        seed@ == spec_pool_seed(idx),
{
    let number = decimal(idx as u128);
    joined("//VestingSchedulesMerging", number.as_str())
}

impl SchedulesMergingError {
    /// The line by which the error is reported.
    pub open spec fn spec_message(&self) -> Seq<char> {
        match self {
            SchedulesMergingError::LimitTooLow => "🦺❌ This scenario does not make sense when `MAX_VESTING_SCHEDULES` is less than 2."@,
            SchedulesMergingError::ReachingLimitFailure(account) => "🦺❌ Couldn't reach `MAX_VESTING_SCHEDULES` for account #"@
                + spec_decimal(*account as nat) + "."@,
            SchedulesMergingError::LimitAlreadyReached(account) => "🦺❌ Account #"@ + spec_decimal(
                *account as nat,
            ) + " has already `MAX_VESTING_SCHEDULES` active schedules."@,
            SchedulesMergingError::UnexpectedLockedBalances {
                locked,
                num_of_schedules,
                expected,
                account,
            } => "🦺❌ Account #"@ + spec_decimal(*account as nat) + " has "@ + spec_decimal(
                *num_of_schedules as nat,
            ) + " active schedules, which should sum to "@ + spec_decimal(*expected as nat)
                + " locked balance, but actually there is "@ + spec_decimal(*locked as nat)
                + "."@,
            SchedulesMergingError::MergingFailureNumber(account) => "🦺❌ Couldn't merge all active schedules for the account #"@
                + spec_decimal(*account as nat) + "."@,
            SchedulesMergingError::MergingFailureLocked {
                locked_before_merging,
                locked_after_merging,
                account,
            } => "🦺❌ Merging schedules for the account #"@ + spec_decimal(*account as nat)
                + " has led to changing overall locked balance amount from "@ + spec_decimal(
                *locked_before_merging as nat,
            ) + " to "@ + spec_decimal(*locked_after_merging as nat),
        }
    }

    /// The line by which the error is reported.
    pub fn message(&self) -> (text: String)
        ensures
            text@ == self.spec_message(),
    {
        match self {
            SchedulesMergingError::LimitTooLow => String::from_str(
                "🦺❌ This scenario does not make sense when `MAX_VESTING_SCHEDULES` is less than 2.",
            ),
            SchedulesMergingError::ReachingLimitFailure(account) => {
                let number = decimal(*account as u128);
                let mut text = joined(
                    "🦺❌ Couldn't reach `MAX_VESTING_SCHEDULES` for account #",
                    number.as_str(),
                );
                text.append(".");
                text
            },
            SchedulesMergingError::LimitAlreadyReached(account) => {
                let number = decimal(*account as u128);
                let mut text = joined("🦺❌ Account #", number.as_str());
                text.append(" has already `MAX_VESTING_SCHEDULES` active schedules.");
                text
            },
            SchedulesMergingError::UnexpectedLockedBalances {
                locked,
                num_of_schedules,
                expected,
                account,
            } => {
                let number = decimal(*account as u128);
                let mut text = joined("🦺❌ Account #", number.as_str());
                text.append(" has ");
                let count = decimal(*num_of_schedules as u128);
                text.append(count.as_str());
                text.append(" active schedules, which should sum to ");
                let wanted = decimal(*expected);
                text.append(wanted.as_str());
                text.append(" locked balance, but actually there is ");
                let found = decimal(*locked);
                text.append(found.as_str());
                text.append(".");
                text
            },
            SchedulesMergingError::MergingFailureNumber(account) => {
                let number = decimal(*account as u128);
                let mut text = joined(
                    "🦺❌ Couldn't merge all active schedules for the account #",
                    number.as_str(),
                );
                text.append(".");
                text
            },
            SchedulesMergingError::MergingFailureLocked {
                locked_before_merging,
                locked_after_merging,
                account,
            } => {
                let number = decimal(*account as u128);
                let mut text = joined(
                    "🦺❌ Merging schedules for the account #",
                    number.as_str(),
                );
                text.append(" has led to changing overall locked balance amount from ");
                let before = decimal(*locked_before_merging);
                text.append(before.as_str());
                text.append(" to ");
                let after = decimal(*locked_after_merging);
                text.append(after.as_str());
                text
            },
        }
    }
}

impl Loggable for SchedulesMergingError {
    open spec fn text(&self) -> Seq<char> {
        self.spec_message()
    }

    fn to_text(&self) -> (text: String) {
        self.message()
    }
}

/// What the scenario asks for next.
#[derive(Debug, Clone, Copy, PartialEq, Eq, Structural)]
pub enum MergingStep {
    /// Read how many schedules the recipient holds and how much they lock together.
    ReadVesting,
    /// Send a vested transfer to the recipient and wait for the event that tells the new
    /// total of what is locked.
    VestedTransfer {
        /// The number of the sending account in the pool.
        sender: usize,
        /// How much the new schedule locks.
        locked: u128,
        /// How much it unlocks per block.
        per_block: u128,
        /// The block from which it unlocks.
        starting_block: u32,
        /// What the recipient's schedules lock together once the transfer is through.
        expected_locked: u128,
        /// How long the event may take.
        timeout: Interval,
    },
    /// Let the recipient merge two schedules and wait for the event that tells the total
    /// of what is locked.
    MergeSchedules {
        /// The place of the first schedule to merge.
        first: u32,
        /// The place of the second schedule to merge.
        second: u32,
        /// What the recipient's schedules lock together, which merging does not change.
        expected_locked: u128,
        /// How long the event may take.
        timeout: Interval,
    },
    /// Nothing: the scenario has gone through.
    Done,
}

/// What the chain has answered.
#[derive(Debug, Clone, Copy, PartialEq, Eq, Structural)]
pub enum MergingEvent {
    /// The scenario is to begin.
    Started,
    /// The recipient holds `num_of_schedules` schedules that lock `locked` together.
    Reading {
        /// How many schedules the recipient holds.
        num_of_schedules: usize,
        /// How much they lock together.
        locked: u128,
    },
    /// The transfer or the merge went through and the expected event was seen.
    Confirmed,
}

/// Where a run of the scenario stands.
#[derive(Debug, Clone, Copy, PartialEq, Eq, Structural)]
pub enum MergingPhase {
    /// Nothing has been asked yet.
    Idle,
    /// The first reading is awaited.
    Surveying,
    /// The transfer from `sender` is awaited.
    Saturating {
        /// The number of the sending account in the pool.
        sender: usize,
        /// How many schedules the recipient held at first.
        existing: usize,
        /// How much they locked.
        locked_existing: u128,
    },
    /// The reading after the last transfer is awaited.
    Counting {
        /// How many schedules the recipient held at first.
        existing: usize,
        /// How much they locked.
        locked_existing: u128,
    },
    /// A merge is awaited.
    Merging {
        /// How many merges have been asked for, this one included.
        merges: usize,
        /// What the schedules locked before the first merge.
        locked: u128,
    },
    /// The reading after the last merge is awaited.
    Verifying {
        /// What the schedules locked before the first merge.
        locked: u128,
    },
    /// The run is over.
    Finished,
}

/// How long the chain may take to confirm one step.
pub open spec fn step_timeout() -> Interval {
    Interval { nanos: 2_000_000_000 }
}

/// What the recipient's schedules lock together once `transfers` transfers of `value`
/// have been added to `locked_existing`.
pub open spec fn locked_after(locked_existing: u128, value: u128, transfers: int) -> int {
    locked_existing + value * transfers
}

/// Whether `event` is the answer that is awaited in `phase`.
pub open spec fn awaited(phase: MergingPhase, event: MergingEvent) -> bool {
    match phase {
        MergingPhase::Idle => event is Started,
        MergingPhase::Surveying => event is Reading,
        MergingPhase::Saturating { .. } => event is Confirmed,
        MergingPhase::Counting { .. } => event is Reading,
        MergingPhase::Merging { .. } => event is Confirmed,
        MergingPhase::Verifying { .. } => event is Reading,
        MergingPhase::Finished => false,
    }
}

/// The transfer that the account with the number `sender` makes.
pub open spec fn transfer_from(
    sender: usize,
    existing: usize,
    locked_existing: u128,
    value: u128,
) -> MergingStep {
    MergingStep::VestedTransfer {
        sender,
        locked: value,
        per_block: 1,
        starting_block: 0xffff_ffff,
        expected_locked: locked_after(locked_existing, value, sender + 1 - existing) as u128,
        timeout: step_timeout(),
    }
}

/// The merge of the first two schedules.
pub open spec fn merge_first_two(locked: u128) -> MergingStep {
    MergingStep::MergeSchedules {
        first: 0,
        second: 1,
        expected_locked: locked,
        timeout: step_timeout(),
    }
}

/// What follows when `event` arrives in `phase`: the next phase and what to ask for, or
/// the error that ends the run.
///
/// The first reading must show room for another schedule. Then the accounts of the pool,
/// from the one whose number is the count of schedules already there, send one vested
/// transfer each until the limit is met. The reading after that must show as many
/// schedules as the limit allows, and locked what was locked at first and what was sent.
/// Then the first two schedules are merged, one time less than there are schedules. The
/// last reading must show one schedule that locks what was locked before the first merge.
pub open spec fn merging_next(
    limit: usize,
    value: u128,
    recipient: usize,
    phase: MergingPhase,
    event: MergingEvent,
) -> Result<(MergingPhase, MergingStep), SchedulesMergingError> {
    match (phase, event) {
        (MergingPhase::Idle, MergingEvent::Started) => Ok(
            (MergingPhase::Surveying, MergingStep::ReadVesting),
        ),
        (MergingPhase::Surveying, MergingEvent::Reading { num_of_schedules, locked }) => {
            if num_of_schedules >= limit {
                Err(SchedulesMergingError::LimitAlreadyReached(recipient))
            } else {
                Ok(
                    (
                        MergingPhase::Saturating {
                            sender: num_of_schedules,
                            existing: num_of_schedules,
                            locked_existing: locked,
                        },
                        transfer_from(num_of_schedules, num_of_schedules, locked, value),
                    ),
                )
            }
        },
        (MergingPhase::Saturating { sender, existing, locked_existing }, MergingEvent::Confirmed) => {
            if sender + 1 < limit {
                Ok(
                    (
                        MergingPhase::Saturating {
                            sender: (sender + 1) as usize,
                            existing,
                            locked_existing,
                        },
                        transfer_from((sender + 1) as usize, existing, locked_existing, value),
                    ),
                )
            } else {
                Ok((MergingPhase::Counting { existing, locked_existing }, MergingStep::ReadVesting))
            }
        },
        (
            MergingPhase::Counting { existing, locked_existing },
            MergingEvent::Reading { num_of_schedules, locked },
        ) => {
            if num_of_schedules != limit {
                Err(SchedulesMergingError::ReachingLimitFailure(recipient))
            } else if locked != locked_after(locked_existing, value, limit - existing) {
                Err(
                    SchedulesMergingError::UnexpectedLockedBalances {
                        locked,
                        num_of_schedules,
                        expected: locked_after(locked_existing, value, limit - existing) as u128,
                        account: recipient,
                    },
                )
            } else {
                Ok((MergingPhase::Merging { merges: 1, locked }, merge_first_two(locked)))
            }
        },
        (MergingPhase::Merging { merges, locked }, MergingEvent::Confirmed) => {
            if merges + 1 < limit {
                Ok(
                    (
                        MergingPhase::Merging { merges: (merges + 1) as usize, locked },
                        merge_first_two(locked),
                    ),
                )
            } else {
                Ok((MergingPhase::Verifying { locked }, MergingStep::ReadVesting))
            }
        },
        (
            MergingPhase::Verifying { locked: locked_before },
            MergingEvent::Reading { num_of_schedules, locked },
        ) => {
            if num_of_schedules != 1 {
                Err(SchedulesMergingError::MergingFailureNumber(recipient))
            } else if locked != locked_before {
                Err(
                    SchedulesMergingError::MergingFailureLocked {
                        locked_before_merging: locked_before,
                        locked_after_merging: locked,
                        account: recipient,
                    },
                )
            } else {
                Ok((MergingPhase::Finished, MergingStep::Done))
            }
        },
        _ => Ok((phase, MergingStep::Done)),
    }
}

/// Whether a phase can arise in a run with the given limit and transfer value.
pub open spec fn phase_fits(limit: usize, value: u128, phase: MergingPhase) -> bool {
    match phase {
        MergingPhase::Saturating { sender, existing, locked_existing } => {
            &&& existing <= sender < limit
            &&& locked_after(locked_existing, value, limit - existing) <= u128::MAX
        },
        MergingPhase::Counting { existing, locked_existing } => {
            &&& existing < limit
            &&& locked_after(locked_existing, value, limit - existing) <= u128::MAX
        },
        MergingPhase::Merging { merges, locked } => 1 <= merges < limit,
        _ => true,
    }
}

/// Whether what a reading says can be counted on with the numbers of this machine: the
/// total that the schedules will lock at the limit must be a balance.
pub open spec fn reading_fits(limit: usize, value: u128, phase: MergingPhase, event: MergingEvent) -> bool {
    (phase is Surveying && event is Reading && event->num_of_schedules < limit) ==> locked_after(
        event->locked,
        value,
        limit - event->num_of_schedules,
    ) <= u128::MAX
}

/// What the scenario reads from the chain once and for all: how many schedules an account
/// may hold and how little a vested transfer may carry.
#[derive(Debug, Clone, Copy)]
pub struct SchedulesMerging {
    schedules_limit: usize,
    transfer_value: u128,
}

impl SchedulesMerging {
    /// How many schedules an account may hold.
    pub closed spec fn limit(&self) -> usize {
        self.schedules_limit
    }

    /// How much each transfer locks.
    pub closed spec fn value(&self) -> u128 {
        self.transfer_value
    }

    #[verifier::type_invariant]
    spec fn worth_merging(&self) -> bool {
        self.schedules_limit >= 2
    }

    /// Sets the scenario up for a chain that allows `max_vesting_schedules` schedules per
    /// account and vested transfers of at least `min_vested_transfer`. With fewer than two
    /// schedules there is nothing to merge.
    pub fn new(max_vesting_schedules: u32, min_vested_transfer: u128) -> (outcome: Result<
        Self,
        SchedulesMergingError,
    >)
        ensures
            max_vesting_schedules < 2 <==> outcome is Err,
            outcome is Err ==> outcome->Err_0 == SchedulesMergingError::LimitTooLow,
            outcome is Ok ==> outcome->Ok_0.limit() == max_vesting_schedules && outcome->Ok_0.value()
                == min_vested_transfer,
    {
        if max_vesting_schedules < 2 {
            return Err(SchedulesMergingError::LimitTooLow);
        }
        Ok(
            SchedulesMerging {
                schedules_limit: max_vesting_schedules as usize,
                transfer_value: min_vested_transfer,
            },
        )
    }

    /// How many schedules an account may hold; at least two.
    pub fn schedules_limit(&self) -> (limit: usize)
        ensures
            limit == self.limit(),
            limit >= 2,
    {
        proof {
            use_type_invariant(self);
        }
        self.schedules_limit
    }

    /// How much each transfer locks.
    pub fn transfer_value(&self) -> (value: u128)
        ensures
            value == self.value(),
    {
        self.transfer_value
    }

    /// Begins one run with a recipient drawn at random from the pool.
    pub fn play(&self) -> (run: MergingRun)
        ensures
            run.limit() == self.limit(),
            run.value() == self.value(),
            run.recipient() < AVAILABLE_ACCOUNTS,
            run.phase() == MergingPhase::Idle,
    {
        proof {
            use_type_invariant(self);
        }
        MergingRun {
            limit: self.schedules_limit,
            value: self.transfer_value,
            recipient: any_usize() % AVAILABLE_ACCOUNTS,
            phase: MergingPhase::Idle,
        }
    }
}

/// One run of the merging scenario.
pub struct MergingRun {
    limit: usize,
    value: u128,
    recipient: usize,
    phase: MergingPhase,
}

impl MergingRun {
    /// How many schedules an account may hold.
    pub closed spec fn limit(&self) -> usize {
        self.limit
    }

    /// How much each transfer locks.
    pub closed spec fn value(&self) -> u128 {
        self.value
    }

    /// The number of the receiving account in the pool.
    pub closed spec fn recipient(&self) -> usize {
        self.recipient
    }

    /// Where the run stands.
    pub closed spec fn phase(&self) -> MergingPhase {
        self.phase
    }

    #[verifier::type_invariant]
    spec fn well_formed(&self) -> bool {
        self.limit >= 2 && phase_fits(self.limit, self.value, self.phase)
    }

    /// The number of the receiving account in the pool.
    pub fn receiver(&self) -> (recipient: usize)
        ensures
            recipient == self.recipient(),
    {
        self.recipient
    }

    /// Where the run stands.
    pub fn current_phase(&self) -> (phase: MergingPhase)
        ensures
            phase == self.phase(),
            phase_fits(self.limit(), self.value(), phase),
            self.limit() >= 2,
    {
        proof {
            use_type_invariant(self);
        }
        self.phase
    }

    /// Whether `event` is what the run waits for and can be counted on. Anything else
    /// must not be handed to [`Self::advance`].
    pub fn accepts(&self, event: MergingEvent) -> (fits: bool)
        ensures
            fits == (awaited(self.phase(), event) && reading_fits(
                self.limit(),
                self.value(),
                self.phase(),
                event,
            )),
    {
        proof {
            use_type_invariant(self);
        }
        match (self.phase, event) {
            (MergingPhase::Idle, MergingEvent::Started) => true,
            (MergingPhase::Surveying, MergingEvent::Reading { num_of_schedules, locked }) => {
                if num_of_schedules < self.limit {
                    let transfers: u128 = (self.limit - num_of_schedules) as u128;
                    match self.value.checked_mul(transfers) {
                        None => false,
                        Some(sent) => locked.checked_add(sent).is_some(),
                    }
                } else {
                    true
                }
            },
            (MergingPhase::Saturating { .. }, MergingEvent::Confirmed) => true,
            (MergingPhase::Counting { .. }, MergingEvent::Reading { .. }) => true,
            (MergingPhase::Merging { .. }, MergingEvent::Confirmed) => true,
            (MergingPhase::Verifying { .. }, MergingEvent::Reading { .. }) => true,
            _ => false,
        }
    }

    /// Takes in the answer of the chain and says what to ask for next. An error ends the
    /// run.
    pub fn advance(&mut self, event: MergingEvent) -> (outcome: Result<
        MergingStep,
        SchedulesMergingError,
    >)
        requires
            awaited(old(self).phase(), event),
            reading_fits(old(self).limit(), old(self).value(), old(self).phase(), event),
        ensures
            final(self).limit() == old(self).limit(),
            final(self).value() == old(self).value(),
            final(self).recipient() == old(self).recipient(),
            match merging_next(
                old(self).limit(),
                old(self).value(),
                old(self).recipient(),
                old(self).phase(),
                event,
            ) {
                Ok((phase, step)) => final(self).phase() == phase && outcome == Ok::<
                    MergingStep,
                    SchedulesMergingError,
                >(step),
                Err(error) => final(self).phase() == MergingPhase::Finished && outcome == Err::<
                    MergingStep,
                    SchedulesMergingError,
                >(error),
            },
    {
        proof {
            use_type_invariant(&*self);
        }
        let limit = self.limit;
        let value = self.value;
        let timeout = Interval::from_millis(STEP_TIMEOUT_MILLIS);
        match (self.phase, event) {
            (MergingPhase::Idle, MergingEvent::Started) => {
                self.phase = MergingPhase::Surveying;
                Ok(MergingStep::ReadVesting)
            },
            (MergingPhase::Surveying, MergingEvent::Reading { num_of_schedules, locked }) => {
                if num_of_schedules >= limit {
                    self.phase = MergingPhase::Finished;
                    return Err(SchedulesMergingError::LimitAlreadyReached(self.recipient));
                }
                proof {
                    lemma_total_grows(locked, value, 1, limit - num_of_schedules);
                }
                self.phase =
                MergingPhase::Saturating {
                    sender: num_of_schedules,
                    existing: num_of_schedules,
                    locked_existing: locked,
                };
                Ok(
                    MergingStep::VestedTransfer {
                        sender: num_of_schedules,
                        locked: value,
                        per_block: PER_BLOCK,
                        starting_block: STARTING_BLOCK,
                        expected_locked: locked + value,
                        timeout,
                    },
                )
            },
            (
                MergingPhase::Saturating { sender, existing, locked_existing },
                MergingEvent::Confirmed,
            ) => {
                if sender + 1 < limit {
                    let next = sender + 1;
                    proof {
                        lemma_total_grows(
                            locked_existing,
                            value,
                            next + 1 - existing,
                            limit - existing,
                        );
                    }
                    let sent: u128 = value * ((next + 1 - existing) as u128);
                    self.phase =
                    MergingPhase::Saturating { sender: next, existing, locked_existing };
                    Ok(
                        MergingStep::VestedTransfer {
                            sender: next,
                            locked: value,
                            per_block: PER_BLOCK,
                            starting_block: STARTING_BLOCK,
                            expected_locked: locked_existing + sent,
                            timeout,
                        },
                    )
                } else {
                    self.phase = MergingPhase::Counting { existing, locked_existing };
                    Ok(MergingStep::ReadVesting)
                }
            },
            (
                MergingPhase::Counting { existing, locked_existing },
                MergingEvent::Reading { num_of_schedules, locked },
            ) => {
                if num_of_schedules != limit {
                    self.phase = MergingPhase::Finished;
                    return Err(SchedulesMergingError::ReachingLimitFailure(self.recipient));
                }
                proof {
                    lemma_total_grows(locked_existing, value, limit - existing, limit - existing);
                }
                let expected: u128 = locked_existing + value * ((limit - existing) as u128);
                if locked != expected {
                    self.phase = MergingPhase::Finished;
                    return Err(
                        SchedulesMergingError::UnexpectedLockedBalances {
                            locked,
                            num_of_schedules,
                            expected,
                            account: self.recipient,
                        },
                    );
                }
                self.phase = MergingPhase::Merging { merges: 1, locked };
                Ok(
                    MergingStep::MergeSchedules {
                        first: 0,
                        second: 1,
                        expected_locked: locked,
                        timeout,
                    },
                )
            },
            (MergingPhase::Merging { merges, locked }, MergingEvent::Confirmed) => {
                if merges + 1 < limit {
                    self.phase = MergingPhase::Merging { merges: merges + 1, locked };
                    Ok(
                        MergingStep::MergeSchedules {
                            first: 0,
                            second: 1,
                            expected_locked: locked,
                            timeout,
                        },
                    )
                } else {
                    self.phase = MergingPhase::Verifying { locked };
                    Ok(MergingStep::ReadVesting)
                }
            },
            (
                MergingPhase::Verifying { locked: locked_before },
                MergingEvent::Reading { num_of_schedules, locked },
            ) => {
                if num_of_schedules != 1 {
                    self.phase = MergingPhase::Finished;
                    return Err(SchedulesMergingError::MergingFailureNumber(self.recipient));
                }
                if locked != locked_before {
                    self.phase = MergingPhase::Finished;
                    return Err(
                        SchedulesMergingError::MergingFailureLocked {
                            locked_before_merging: locked_before,
                            locked_after_merging: locked,
                            account: self.recipient,
                        },
                    );
                }
                self.phase = MergingPhase::Finished;
                Ok(MergingStep::Done)
            },
            _ => Ok(MergingStep::Done),
        }
    }
}

/// What `schedules` lock together.
pub open spec fn locked_total(schedules: Seq<VestingInfo>) -> nat
    decreases schedules.len(),
{
    if schedules.len() == 0 {
        0
    } else {
        locked_total(schedules.drop_last()) + schedules.last().locked as nat
    }
}

/// Sums up what the node tells about the schedules of an account: how many there are and
/// how much they lock together. A total that is beyond any balance gives nothing.
pub fn get_vesting_info(schedules: &Vec<VestingInfo>) -> (reading: Option<MergingEvent>)
    ensures
        reading is Some <==> locked_total(schedules@) <= u128::MAX,
        reading is Some ==> reading->Some_0 == (MergingEvent::Reading {
            num_of_schedules: schedules@.len() as usize,
            locked: locked_total(schedules@) as u128,
        }),
{
    let mut locked: u128 = 0;
    let mut i: usize = 0;
    assert(schedules@.take(0) =~= Seq::<VestingInfo>::empty());
    while i < schedules.len()
        invariant
            i <= schedules@.len(),
            locked == locked_total(schedules@.take(i as int)),
        decreases schedules@.len() - i,
    {
        proof {
            assert(schedules@.take(i + 1).drop_last() =~= schedules@.take(i as int));
            lemma_locked_total_grows(schedules@, i + 1);
        }
        match locked.checked_add(schedules[i].locked) {
            Some(sum) => {
                locked = sum;
            },
            None => {
                return None;
            },
        }
        i = i + 1;
    }
    assert(schedules@.take(schedules@.len() as int) =~= schedules@);
    Some(MergingEvent::Reading { num_of_schedules: schedules.len(), locked })
}

/// The first schedules lock no more than all of them.
pub proof fn lemma_locked_total_grows(schedules: Seq<VestingInfo>, k: int)
    requires
        0 <= k <= schedules.len(),
    ensures
        locked_total(schedules.take(k)) <= locked_total(schedules),
    decreases schedules.len() - k,
{
    if k < schedules.len() {
        lemma_locked_total_grows(schedules, k + 1);
        assert(schedules.take(k + 1).drop_last() =~= schedules.take(k));
    } else {
        assert(schedules.take(k) =~= schedules);
    }
}

/// What is locked after some transfers is no more than what is locked after more of them.
pub proof fn lemma_total_grows(locked_existing: u128, value: u128, fewer: int, more: int)
    requires
        0 <= fewer <= more,
    ensures
        locked_existing <= locked_after(locked_existing, value, fewer) <= locked_after(
            locked_existing,
            value,
            more,
        ),
        0 <= value * fewer <= value * more,
{
    assert(0 <= value * fewer <= value * more) by (nonlinear_arith)
        requires
            0 <= fewer <= more,
            0 <= value,
    ;
}

/// A run ends without an error only on a reading that shows one schedule, which locks
/// what the schedules locked together when the limit was met.
pub proof fn lemma_merging_ends_with_one_schedule(
    limit: usize,
    value: u128,
    recipient: usize,
    phase: MergingPhase,
    event: MergingEvent,
)
    requires
        awaited(phase, event),
        merging_next(limit, value, recipient, phase, event) is Ok,
        merging_next(limit, value, recipient, phase, event)->Ok_0.0 == MergingPhase::Finished,
    ensures
        phase is Verifying,
        event is Reading,
        event->num_of_schedules == 1,
        event->locked == phase->Verifying_locked,
{
}

/// Where a run stands after the first `n` of `events`, or nothing if one of them was not
/// awaited or has ended the run with an error.
pub open spec fn phase_after(
    limit: usize,
    value: u128,
    recipient: usize,
    events: Seq<MergingEvent>,
    n: nat,
) -> Option<MergingPhase>
    decreases n,
{
    if n == 0 {
        Some(MergingPhase::Idle)
    } else {
        match phase_after(limit, value, recipient, events, (n - 1) as nat) {
            None => None,
            Some(phase) => {
                if awaited(phase, events[n - 1]) && merging_next(
                    limit,
                    value,
                    recipient,
                    phase,
                    events[n - 1],
                ) is Ok {
                    Some(merging_next(limit, value, recipient, phase, events[n - 1])->Ok_0.0)
                } else {
                    None
                }
            },
        }
    }
}

/// Whether, among the first `n` of `events`, the reading after the last transfer showed as
/// many schedules as the limit allows, locking `locked` together.
pub open spec fn saturated_with(
    limit: usize,
    value: u128,
    recipient: usize,
    events: Seq<MergingEvent>,
    n: nat,
    locked: u128,
) -> bool {
    exists|a: nat|
        a < n && (#[trigger] phase_after(limit, value, recipient, events, a)) is Some
            && phase_after(limit, value, recipient, events, a)->Some_0 is Counting && events[a as int]
            == (MergingEvent::Reading { num_of_schedules: limit, locked })
}

/// While schedules are merged and when the result is awaited, the total that the run
/// carries along is the one that was read when the limit was met.
pub proof fn lemma_merging_carries_the_saturated_total(
    limit: usize,
    value: u128,
    recipient: usize,
    events: Seq<MergingEvent>,
    n: nat,
)
    requires
        n <= events.len(),
    ensures
        phase_after(limit, value, recipient, events, n) matches Some(
            MergingPhase::Merging { merges, locked },
        ) ==> saturated_with(limit, value, recipient, events, n, locked),
        phase_after(limit, value, recipient, events, n) matches Some(
            MergingPhase::Verifying { locked },
        ) ==> saturated_with(limit, value, recipient, events, n, locked),
    decreases n,
{
    if n > 0 {
        let m = (n - 1) as nat;
        lemma_merging_carries_the_saturated_total(limit, value, recipient, events, m);
        match phase_after(limit, value, recipient, events, m) {
            None => {},
            Some(phase) => {
                if phase_after(limit, value, recipient, events, n) is Some {
                    let now = phase_after(limit, value, recipient, events, n)->Some_0;
                    match phase {
                        MergingPhase::Counting { .. } => {
                            if now is Merging {
                                assert(phase_after(limit, value, recipient, events, m) is Some);
                                assert(saturated_with(
                                    limit,
                                    value,
                                    recipient,
                                    events,
                                    n,
                                    now->Merging_locked,
                                ));
                            }
                        },
                        MergingPhase::Merging { merges, locked } => {
                            let a = choose|a: nat|
                                a < m && (#[trigger] phase_after(
                                    limit,
                                    value,
                                    recipient,
                                    events,
                                    a,
                                )) is Some && phase_after(
                                    limit,
                                    value,
                                    recipient,
                                    events,
                                    a,
                                )->Some_0 is Counting && events[a as int] == (
                                MergingEvent::Reading { num_of_schedules: limit, locked });
                            assert(a < n && phase_after(limit, value, recipient, events, a) is Some);
                        },
                        _ => {},
                    }
                }
            },
        }
    }
}

/// A run that goes through without an error ends on a reading of one schedule, and that
/// schedule locks exactly what all schedules locked together when the limit was met.
pub proof fn lemma_completed_run_keeps_the_total(
    limit: usize,
    value: u128,
    recipient: usize,
    events: Seq<MergingEvent>,
)
    requires
        phase_after(limit, value, recipient, events, events.len()) == Some(MergingPhase::Finished),
    ensures
        events.len() > 0,
        events.last() is Reading,
        events.last()->num_of_schedules == 1,
        saturated_with(
            limit,
            value,
            recipient,
            events,
            (events.len() - 1) as nat,
            events.last()->locked,
        ),
{
    let n = events.len();
    assert(n > 0);
    let m = (n - 1) as nat;
    lemma_merging_carries_the_saturated_total(limit, value, recipient, events, m);
    let phase = phase_after(limit, value, recipient, events, m)->Some_0;
    lemma_merging_ends_with_one_schedule(limit, value, recipient, phase, events[n - 1]);
}

} // verus!
