//! Everything that can end a run of a scenario before its time.

use vstd::prelude::*;
use vstd::string::*;

use crate::event::ListeningError;
use crate::multisig::MultisigError;
use crate::scenario::{Loggable, ScenarioError};
use crate::vest::VestError;
use crate::vesting::SchedulesMergingError;

verus! {

/// Why a run of a scenario has failed.
#[derive(Debug)]
pub enum Failure {
    /// A failure that any scenario may meet.
    Scenario(ScenarioError),
    /// The event that should have confirmed a step was not seen.
    Listening(ListeningError),
    /// The multisig scenario failed on its own account.
    Multisig(MultisigError),
    /// The merging scenario failed on its own account.
    Merging(SchedulesMergingError),
    /// The claiming scenario failed on its own account.
    Vest(VestError),
    /// The node or the connection to it failed; the text says how.
    Chain(String),
}

impl Failure {
    /// The line by which the failure is reported: that of the error it holds.
    pub open spec fn spec_message(&self) -> Seq<char> {
        match self {
            Failure::Scenario(error) => error.spec_message(),
            Failure::Listening(error) => error.spec_message(),
            Failure::Multisig(error) => error.spec_message(),
            Failure::Merging(error) => error.spec_message(),
            Failure::Vest(error) => error.spec_message(),
            Failure::Chain(text) => text@,
        }
    }

    /// The line by which the failure is reported.
    pub fn message(&self) -> (text: String)
        ensures
            text@ == self.spec_message(),
    {
        match self {
            Failure::Scenario(error) => error.message(),
            Failure::Listening(error) => error.message(),
            Failure::Multisig(error) => error.message(),
            Failure::Merging(error) => error.message(),
            Failure::Vest(error) => error.message(),
            Failure::Chain(text) => text.clone(),
        }
    }
}

impl Loggable for Failure {
    open spec fn text(&self) -> Seq<char> {
        self.spec_message()
    }

    fn to_text(&self) -> (text: String) {
        self.message()
    }
}

} // verus!
