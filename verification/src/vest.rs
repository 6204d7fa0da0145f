//! The vesting scenario that claims: a fresh account receives a vested transfer, waits,
//! and has unlocked what the schedule has released by then.

use vstd::prelude::*;
use vstd::string::*;

use crate::chance::any_u128;
use crate::event::{AccountId, VestingUpdated};
use crate::interval::Interval;
use crate::scenario::Loggable;
use crate::text::{decimal, joined, spec_decimal};

verus! {

/// The seed of the account that sends when the recipient claims for itself.
pub const SOURCE_VEST_SEED: &'static str = "//Vest//Source//Vest";

/// The seed of the account that sends and later claims for the recipient.
pub const SOURCE_VEST_OTHER_SEED: &'static str = "//Vest//Source//VestOther";

/// How much the transfer locks.
pub const INITIAL_VESTED: u128 = 1_000_000_000;

/// How much the schedule releases per block.
pub const RELEASED_PER_BLOCK: u128 = 1_000_000;

/// How many blocks the scenario lets pass before it claims, taking a block to last a
/// second.
pub const WAIT_BLOCKS: u64 = 20;

/// How many blocks after the best block the schedule begins to release.
pub const START_AFTER_BLOCKS: u32 = 10;

/// Who claims what the schedule has released.
#[derive(Debug, Clone, Copy, PartialEq, Eq, Structural)]
pub enum VestKind {
    /// The recipient claims for itself.
    Vest,
    /// The sender claims for the recipient.
    VestOther,
}

/// The ways in which the claiming scenario fails on its own account.
#[derive(Debug, Clone, Copy, PartialEq, Eq, Structural)]
pub enum VestError {
    /// The node could not tell its best block.
    BestBlockUnknown,
    /// The event that followed the claim names another account or an amount that the
    /// schedule cannot have released.
    IncorrectEvent,
}

impl VestError {
    /// The line by which the error is reported.
    pub open spec fn spec_message(&self) -> Seq<char> {
        match self {
            VestError::BestBlockUnknown => "Failed to obtain best block info"@,
            VestError::IncorrectEvent => "Incorrect event has been intercepted"@,
        }
    }

    /// The line by which the error is reported.
    pub fn message(&self) -> (text: String)
        ensures
            text@ == self.spec_message(),
    {
        match self {
            VestError::BestBlockUnknown => String::from_str("Failed to obtain best block info"),
            VestError::IncorrectEvent => String::from_str("Incorrect event has been intercepted"),
        }
    }
}

impl Loggable for VestError {
    open spec fn text(&self) -> Seq<char> {
        self.spec_message()
    }

    fn to_text(&self) -> (text: String) {
        self.message()
    }
}

/// A vesting schedule: what it locks, what it releases per block, and from which block.
#[derive(Debug, Clone, Copy, PartialEq, Eq, Structural)]
pub struct VestingInfo {
    /// How much is locked at first.
    pub locked: u128,
    /// How much is released with every block.
    pub per_block: u128,
    /// The block from which the schedule releases.
    pub starting_block: u32,
}

/// Who signs the claim.
#[derive(Debug, Clone, Copy, PartialEq, Eq, Structural)]
pub enum Claimant {
    /// The recipient of the vested transfer.
    Recipient,
    /// The sender of the vested transfer.
    Source,
}

/// The seed of a recipient that is told apart from all others by `nonce`.
pub open spec fn spec_recipient_seed(nonce: u128) -> Seq<char> {
    "//Vest//Recipient/"@ + spec_decimal(nonce as nat)
}

/// The seed of a recipient that is told apart from all others by `nonce`.
pub fn recipient_seed(nonce: u128) -> (seed: String)
    ensures
        seed@ == spec_recipient_seed(nonce),
{
    let number = decimal(nonce);
    joined("//Vest//Recipient/", number.as_str())
}

/// The seed of a recipient drawn at random.
pub fn random_recipient() -> (seed: String)
    ensures
        exists|nonce: u128| seed@ == #[trigger] spec_recipient_seed(nonce),
{
    let nonce = any_u128();
    let seed = recipient_seed(nonce);
    assert(seed@ == spec_recipient_seed(nonce));
    seed
}

/// Whether what the event says was released lies within what the schedule can have
/// released while the scenario waited: more than half and less than five times what
/// twenty blocks release.
pub open spec fn plausible(unvested: u128) -> bool {
    &&& unvested <= 1_000_000_000
    &&& 1_000_000_000 - unvested > 10_000_000
    &&& 1_000_000_000 - unvested < 100_000_000
}

/// What the configuration says about the claiming scenario.
#[derive(Debug, Clone, Copy, PartialEq, Eq, Structural)]
pub struct Vest {
    /// Who claims.
    pub vest_kind: VestKind,
}

impl Vest {
    /// The seed of the account that sends the vested transfer.
    pub fn source(&self) -> (seed: &'static str)
        ensures
            seed@ == match self.vest_kind {
                VestKind::Vest => "//Vest//Source//Vest"@,
                VestKind::VestOther => "//Vest//Source//VestOther"@,
            },
    {
        match self.vest_kind {
            VestKind::Vest => SOURCE_VEST_SEED,
            VestKind::VestOther => SOURCE_VEST_OTHER_SEED,
        }
    }

    /// How long the scenario waits between the transfer and the claim.
    pub fn wait_period() -> (period: Interval)
        ensures
            period.nanos == 20_000_000_000,
    {
        Interval::from_secs(WAIT_BLOCKS)
    }

    /// Whether a schedule can begin ten blocks after `best_block`: the number of that
    /// block must be one that a block can bear. Otherwise `best_block` must not be handed
    /// to [`Self::vested_transfer`].
    pub fn can_schedule(best_block: Option<u32>) -> (fits: bool)
        ensures
            fits == (best_block is Some ==> best_block->Some_0 <= u32::MAX - 10),
    {
        match best_block {
            Some(current_block) => current_block <= u32::MAX - START_AFTER_BLOCKS,
            None => true,
        }
    }

    /// The schedule that is sent to the recipient: it begins to release ten blocks after
    /// the best block. Without a best block there is no schedule.
    pub fn vested_transfer(&self, best_block: Option<u32>) -> (outcome: Result<
        VestingInfo,
        VestError,
    >)
        requires
            best_block is Some ==> best_block->Some_0 <= u32::MAX - 10,
        ensures
            outcome == match best_block {
                None => Err::<VestingInfo, VestError>(VestError::BestBlockUnknown),
                Some(current_block) => Ok(
                    VestingInfo {
                        locked: 1_000_000_000,
                        per_block: 1_000_000,
                        starting_block: (current_block + 10) as u32,
                    },
                ),
            },
    {
        match best_block {
            None => Err(VestError::BestBlockUnknown),
            Some(current_block) => Ok(
                VestingInfo {
                    locked: INITIAL_VESTED,
                    per_block: RELEASED_PER_BLOCK,
                    starting_block: current_block + START_AFTER_BLOCKS,
                },
            ),
        }
    }

    /// Who signs the claim.
    pub fn vest_action(&self) -> (claimant: Claimant)
        ensures
            claimant == match self.vest_kind {
                VestKind::Vest => Claimant::Recipient,
                VestKind::VestOther => Claimant::Source,
            },
    {
        match self.vest_kind {
            VestKind::Vest => Claimant::Recipient,
            VestKind::VestOther => Claimant::Source,
        }
    }

    /// Holds the event that followed the claim against what was to be expected: it must
    /// name the recipient and a plausible amount.
    pub fn do_play(&self, recipient: &AccountId, event: &VestingUpdated) -> (outcome: Result<
        (),
        VestError,
    >)
        ensures
            outcome is Ok <==> event.account@ == recipient@ && plausible(event.unvested),
            outcome is Err ==> outcome->Err_0 == VestError::IncorrectEvent,
    {
        if !(event.account == *recipient) {
            return Err(VestError::IncorrectEvent);
        }
        if event.unvested > INITIAL_VESTED {
            return Err(VestError::IncorrectEvent);
        }
        let unlocked = INITIAL_VESTED - event.unvested;
        let blocks = WAIT_BLOCKS as u128;
        if unlocked > RELEASED_PER_BLOCK * blocks / 2 && unlocked < RELEASED_PER_BLOCK * blocks * 5 {
            Ok(())
        } else {
            Err(VestError::IncorrectEvent)
        }
    }
}

} // verus!
