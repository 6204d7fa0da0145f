//! Plain transfers of balance: the helper that every transfer goes through, and the two
//! scenarios that do nothing else.

use vstd::prelude::*;
use vstd::string::*;

use crate::chance::any_u32;
use crate::event::{AccountId, Transfer};
use crate::interval::Interval;
use crate::scenario::{Level, Loggable, RecordModel, ScenarioError, ScenarioLogging};
use crate::text::{decimal, joined, spec_decimal};
use crate::units::{real_amount, spec_real_amount};

verus! {

/// How often a transfer is submitted before it is given up.
pub const SUBMISSION_ATTEMPTS: u32 = 5;

/// How long the helper rests after a submission that was turned down, in milliseconds.
pub const BACKOFF_MILLIS: u64 = 500;

/// How long the event of a transfer may take, in milliseconds.
pub const TRANSFER_TIMEOUT_MILLIS: u64 = 1000;

/// The seed of the account that pays in the simple scenario.
pub const SENDER_SEED: &'static str = "//SimpleTransferSender";

/// The seed of the account that receives in the simple scenario.
pub const RECEIVER_SEED: &'static str = "//SimpleTransferReceiver";

/// The seed from which a scenario's account is derived: the secret phrase of the
/// deployment, which may be empty, followed by the path of the account.
pub fn full_seed(base_seed: &str, path: &str) -> (seed: String)
    ensures
        seed@ == base_seed@ + path@,
{
    joined(base_seed, path)
}

/// What is to be done about one transfer: what to submit and how to confirm it.
#[derive(Debug, Clone, Copy)]
pub struct TransferOrder {
    /// The event that confirms the transfer.
    pub expected_event: Transfer,
    /// How long that event may take once the submission has returned.
    pub event_timeout: Interval,
}

/// Prepares the transfer of `amount` from `source` to `target`: it is confirmed by the
/// transfer event with exactly these three values, which may take one second.
pub fn try_transfer(source: AccountId, target: AccountId, amount: u128) -> (order: TransferOrder)
    ensures
        order.expected_event.from == source,
        order.expected_event.to == target,
        order.expected_event.amount == amount,
        order.event_timeout.nanos == 1_000_000_000,
{
    TransferOrder {
        expected_event: Transfer::from_relevant_fields(source, target, amount),
        event_timeout: Interval::from_millis(TRANSFER_TIMEOUT_MILLIS),
    }
}

/// What to do after a submission has returned.
#[derive(Debug, Clone, Copy, PartialEq, Eq, Structural)]
pub enum LoopMove {
    /// The submission went through; the loop ends well.
    Succeeded,
    /// Rest for this long, then submit again.
    RetryAfter(Interval),
    /// Rest for this long, then give up with this error.
    GiveUpAfter(Interval, ScenarioError),
}

/// How long the helper rests after a submission that was turned down.
pub open spec fn backoff() -> Interval {
    Interval { nanos: 500_000_000 }
}

/// What to do when a submission has returned after `failures` earlier ones were turned
/// down. A submission that went through ends the loop. One that was turned down is
/// followed by a rest; after the fifth such the transfer is given up.
pub open spec fn loop_next(failures: u32, accepted: bool) -> LoopMove {
    if accepted {
        LoopMove::Succeeded
    } else if failures + 1 < 5 {
        LoopMove::RetryAfter(backoff())
    } else {
        LoopMove::GiveUpAfter(backoff(), ScenarioError::CannotSendExtrinsic)
    }
}

/// The loop in which a transfer is submitted until it is accepted or given up.
#[derive(Debug, Clone, Copy, PartialEq, Eq, Structural)]
pub struct LoopTransfer {
    /// How many submissions have been turned down.
    pub failures: u32,
    /// Whether the loop has ended.
    pub ended: bool,
}

impl LoopTransfer {
    /// The loop before the first submission.
    pub fn new() -> (fresh: Self)
        ensures
            fresh == (LoopTransfer { failures: 0, ended: false }),
    {
        LoopTransfer { failures: 0, ended: false }
    }

    /// No more submissions were turned down than are attempted at all, and the loop goes
    /// on only while fewer were.
    pub open spec fn sound(self) -> bool {
        self.failures <= 5 && (!self.ended ==> self.failures < 5)
    }

    /// Whether another submission can be taken note of: the loop must be sound and must
    /// not have ended. Otherwise nothing must be handed to [`Self::record`].
    pub fn can_record(&self) -> (open: bool)
        ensures
            open == (self.sound() && !self.ended),
    {
        !self.ended && self.failures < SUBMISSION_ATTEMPTS
    }

    /// Takes note of how a submission has returned.
    pub fn record(&mut self, accepted: bool) -> (todo: LoopMove)
        requires
            old(self).sound(),
            !old(self).ended,
        ensures
            todo == loop_next(old(self).failures, accepted),
            final(self).sound(),
            final(self).failures == if accepted {
                old(self).failures
            } else {
                (old(self).failures + 1) as u32
            },
            final(self).ended == !(todo is RetryAfter),
    {
        if accepted {
            self.ended = true;
            return LoopMove::Succeeded;
        }
        self.failures = self.failures + 1;
        let rest = Interval::from_millis(BACKOFF_MILLIS);
        if self.failures < SUBMISSION_ATTEMPTS {
            LoopMove::RetryAfter(rest)
        } else {
            self.ended = true;
            LoopMove::GiveUpAfter(rest, ScenarioError::CannotSendExtrinsic)
        }
    }
}

/// How the loop stands after the submissions whose fates `accepted` tells, or nothing if
/// one of them was made after the loop had ended.
pub open spec fn loop_after(accepted: Seq<bool>, n: nat) -> Option<LoopTransfer>
    decreases n,
{
    if n == 0 {
        Some(LoopTransfer { failures: 0, ended: false })
    } else {
        match loop_after(accepted, (n - 1) as nat) {
            Some(before) => if before.ended {
                None
            } else {
                Some(
                    LoopTransfer {
                        failures: if accepted[n - 1] {
                            before.failures
                        } else {
                            (before.failures + 1) as u32
                        },
                        ended: !(loop_next(before.failures, accepted[n - 1]) is RetryAfter),
                    },
                )
            },
            None => None,
        }
    }
}

/// A transfer is submitted five times at most. All submissions but the last were turned
/// down, and the loop gives up exactly when the fifth was turned down as well.
pub proof fn lemma_loop_gives_up_after_five(accepted: Seq<bool>, n: nat)
    requires
        n <= accepted.len(),
        loop_after(accepted, n) is Some,
    ensures
        n <= 5,
        loop_after(accepted, n)->Some_0.sound(),
        forall|i: int| 0 <= i < n - 1 ==> !accepted[i],
        !loop_after(accepted, n)->Some_0.ended ==> loop_after(accepted, n)->Some_0.failures == n,
        n > 0 ==> (loop_next(
            loop_after(accepted, (n - 1) as nat)->Some_0.failures,
            accepted[n - 1],
        ) is GiveUpAfter <==> n == 5 && !accepted[4]),
    decreases n,
{
    if n > 0 {
        lemma_loop_gives_up_after_five(accepted, (n - 1) as nat);
    }
}

/// The simple scenario: one account sends a little more than the configured amount to
/// another.
#[derive(Debug, Clone, Copy, PartialEq, Eq, Structural)]
pub struct SimpleTransfer {
    /// How many whole tokens are sent at least.
    pub transfer_value: u64,
}

impl SimpleTransfer {
    /// The seed of the account that pays.
    pub fn sender() -> (seed: &'static str)
        ensures
            seed@ == "//SimpleTransferSender"@,
    {
        SENDER_SEED
    }

    /// The seed of the account that receives.
    pub fn receiver() -> (seed: &'static str)
        ensures
            seed@ == "//SimpleTransferReceiver"@,
    {
        RECEIVER_SEED
    }

    /// The amount of one run: the configured tokens and a random trifle, so that two runs
    /// are not confirmed by the same event.
    pub fn transfer_value(&self) -> (amount: u128)
        ensures
            spec_real_amount(self.transfer_value) <= amount <= spec_real_amount(
                self.transfer_value,
            ) + u32::MAX,
    {
        jittered(self.transfer_value, any_u32())
    }

    /// Begins a run: says so in the log and settles the amount.
    pub fn play(&self, logger: &mut ScenarioLogging) -> (amount: u128)
        ensures
            spec_real_amount(self.transfer_value) <= amount <= spec_real_amount(
                self.transfer_value,
            ) + u32::MAX,
            final(logger).ident() == old(logger).ident(),
            final(logger).records() == old(logger).records().push(
                RecordModel {
                    level: Level::Info,
                    target: old(logger).ident(),
                    message: "Ready to go"@,
                },
            ),
    {
        logger.info("Ready to go");
        self.transfer_value()
    }

    /// Ends a run: logs how the transfer went and, if it went well, that the run is done.
    /// The result is handed back as it came.
    pub fn conclude<E: Loggable>(&self, logger: &mut ScenarioLogging, transfer_result: Result<
        (),
        E,
    >) -> (same: Result<(), E>)
        ensures
            same == transfer_result,
            final(logger).ident() == old(logger).ident(),
            transfer_result is Err ==> final(logger).records() == old(logger).records().push(
                RecordModel {
                    level: Level::Error,
                    target: old(logger).ident(),
                    message: crate::scenario::error_prefix() + transfer_result->Err_0.text(),
                },
            ),
            transfer_result is Ok ==> final(logger).records() == old(logger).records().push(
                RecordModel {
                    level: Level::Trace,
                    target: old(logger).ident(),
                    message: crate::scenario::success_prefix() + "()"@,
                },
            ).push(
                RecordModel {
                    level: Level::Info,
                    target: old(logger).ident(),
                    message: "Done"@,
                },
            ),
    {
        let same = logger.log_result(transfer_result);
        if same.is_ok() {
            logger.info("Done");
        }
        same
    }
}

/// The configured tokens in the chain's unit, with `jitter` added.
pub fn jittered(value: u64, jitter: u32) -> (amount: u128)
    ensures
        amount == spec_real_amount(value) + jitter,
{
    assert((value as nat) * 1_000_000_000_000 <= 0xffff_ffff_ffff_ffff * 1_000_000_000_000)
        by (nonlinear_arith)
        requires
            value <= 0xffff_ffff_ffff_ffff,
    ;
    real_amount(&value) + jitter as u128
}

/// One pass of the robin: who sends to whom, and how much.
#[derive(Debug, Clone, Copy, PartialEq, Eq, Structural)]
pub struct RobinPass {
    /// The number of the sending account.
    pub sender: usize,
    /// The number of the receiving account.
    pub receiver: usize,
    /// How much is sent.
    pub amount: u128,
}

/// The round robin: the accounts stand in a ring, and each in turn sends a little more
/// than the configured amount to the next.
#[derive(Debug, Clone, Copy, PartialEq, Eq, Structural)]
pub struct RoundRobin {
    /// How many accounts stand in the ring, which is also how many transfers are made.
    pub passes: usize,
    /// How many whole tokens are sent at least.
    pub robin_value: u64,
}

/// The seed of the account with the number `id` in the ring.
pub open spec fn spec_robin_seed(id: usize) -> Seq<char> {
    "//RoundRobin"@ + spec_decimal(id as nat)
}

impl RoundRobin {
    /// The seed of the account with the number `id` in the ring.
    pub fn account(id: usize) -> (seed: String)
        ensures
            seed@ == spec_robin_seed(id),
    {
        let number = decimal(id as u128);
        joined("//RoundRobin", number.as_str())
    }

    /// The pass that the account with the number `sender_idx` makes: to its neighbour in
    /// the ring, the last account sending to the first.
    pub fn pass_robin(&self, sender_idx: usize) -> (pass: RobinPass)
        requires
            sender_idx < self.passes,
        ensures
            pass.sender == sender_idx,
            pass.receiver == (sender_idx + 1) % (self.passes as int),
            spec_real_amount(self.robin_value) <= pass.amount <= spec_real_amount(self.robin_value)
                + u32::MAX,
    {
        let receiver = if sender_idx == self.passes - 1 {
            0
        } else {
            sender_idx + 1
        };
        assert(receiver == (sender_idx + 1) % (self.passes as int)) by {
            if sender_idx == self.passes - 1 {
                assert((self.passes as int) % (self.passes as int) == 0) by (nonlinear_arith)
                    requires
                        self.passes > 0,
                ;
            } else {
                assert((sender_idx + 1) % (self.passes as int) == sender_idx + 1)
                    by (nonlinear_arith)
                    requires
                        0 <= sender_idx + 1 < self.passes,
                ;
            }
        }
        RobinPass { sender: sender_idx, receiver, amount: jittered(self.robin_value, any_u32()) }
    }

    /// All passes of one run, in the order in which they are made: one for every account
    /// of the ring, beginning with the first.
    pub fn play(&self) -> (passes: Vec<RobinPass>)
        ensures
            passes@.len() == self.passes,
            forall|i: int|
                0 <= i < passes@.len() ==> {
                    &&& (#[trigger] passes@[i]).sender == i
                    &&& passes@[i].receiver == (i + 1) % (self.passes as int)
                    &&& spec_real_amount(self.robin_value) <= passes@[i].amount
                        <= spec_real_amount(self.robin_value) + u32::MAX
                },
    {
        let mut passes: Vec<RobinPass> = Vec::new();
        let mut i: usize = 0;
        while i < self.passes
            invariant
                i <= self.passes,
                passes@.len() == i,
                forall|j: int|
                    0 <= j < passes@.len() ==> {
                        &&& (#[trigger] passes@[j]).sender == j
                        &&& passes@[j].receiver == (j + 1) % (self.passes as int)
                        &&& spec_real_amount(self.robin_value) <= passes@[j].amount
                            <= spec_real_amount(self.robin_value) + u32::MAX
                    },
            decreases self.passes - i,
        {
            let pass = self.pass_robin(i);
            passes.push(pass);
            i = i + 1;
        }
        passes
    }
}

} // verus!
