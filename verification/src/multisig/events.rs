//! The events by which the chain confirms multisig actions.
//!
//! When and with what result an action was dispatched cannot be foreseen, so the time
//! point and the result of the call take no part in matching.

use vstd::prelude::*;

use crate::event::{
    account_at, hash_at, holds, number_at, u32_at, word_at, AccountId, CallHash, Event, EventKind,
};

verus! {

/// The block and the place within it at which an aggregation was opened.
#[derive(Debug, Clone, Copy, PartialEq, Eq, Structural)]
pub struct Timepoint {
    /// The number of the block.
    pub height: u32,
    /// The place of the extrinsic within the block.
    pub index: u32,
}

impl Timepoint {
    /// The time point that stands in for one that is not known.
    pub fn unknown() -> (timepoint: Self)
        ensures
            timepoint == (Timepoint { height: 0, index: 0 }),
    {
        Timepoint { height: 0, index: 0 }
    }

    /// Whether `timepoint` is what stands at position `at` of `data`.
    pub open spec fn encoded_at(timepoint: Timepoint, data: Seq<u8>, at: int) -> bool {
        timepoint.height == u32_at(data, at) && timepoint.index == u32_at(data, at + 4)
    }

    /// Reads the time point that stands at position `at` of `data`.
    pub fn read_at(data: &[u8], at: usize) -> (timepoint: Option<Timepoint>)
        requires
            at <= usize::MAX - 8,
        ensures
            timepoint is Some <==> holds(data@, at as int, 8),
            timepoint is Some ==> Self::encoded_at(timepoint->Some_0, data@, at as int),
    {
        let height = number_at(data, at);
        let index = number_at(data, at + 4);
        match (height, index) {
            (Some(height), Some(index)) => Some(Timepoint { height, index }),
            _ => None,
        }
    }
}

/// An aggregation has been opened.
#[derive(Debug, Clone, Copy)]
pub struct NewMultisig {
    /// Who opened it.
    pub approving: AccountId,
    /// The account of the party.
    pub multisig: AccountId,
    /// The hash of the call to be approved.
    pub call_hash: CallHash,
}

impl NewMultisig {
    /// The event as it is expected.
    pub fn from_relevant_fields(approving: AccountId, multisig: AccountId, call_hash: CallHash) -> (event:
        Self)
        ensures
            event.approving == approving,
            event.multisig == multisig,
            event.call_hash == call_hash,
    {
        NewMultisig { approving, multisig, call_hash }
    }
}

impl Event for NewMultisig {
    open spec fn pallet(&self) -> Seq<char> {
        "Multisig"@
    }

    open spec fn variant(&self) -> Seq<char> {
        "NewMultisig"@
    }

    open spec fn agrees_with(&self, other: &Self) -> bool {
        self.approving@ == other.approving@ && self.multisig@ == other.multisig@
            && self.call_hash@ == other.call_hash@
    }

    open spec fn decodable(data: Seq<u8>) -> bool {
        data.len() >= 96
    }

    open spec fn encoded_as(event: Self, data: Seq<u8>) -> bool {
        &&& event.approving@ == word_at(data, 0)
        &&& event.multisig@ == word_at(data, 32)
        &&& event.call_hash@ == word_at(data, 64)
    }

    fn kind(&self) -> (kind: EventKind) {
        ("Multisig", "NewMultisig")
    }

    fn matches(&self, other: &Self) -> (agree: bool) {
        self.approving == other.approving && self.multisig == other.multisig && self.call_hash
            == other.call_hash
    }

    fn decode(data: &[u8]) -> (event: Option<Self>) {
        let approving = account_at(data, 0);
        let multisig = account_at(data, 32);
        let call_hash = hash_at(data, 64);
        match (approving, multisig, call_hash) {
            (Some(approving), Some(multisig), Some(call_hash)) => Some(
                NewMultisig { approving, multisig, call_hash },
            ),
            _ => None,
        }
    }
}

/// An approval has been added to an aggregation that needs more.
#[derive(Debug, Clone, Copy)]
pub struct MultisigApproval {
    /// Who approved.
    pub approving: AccountId,
    /// When the aggregation was opened; takes no part in matching.
    pub timepoint: Timepoint,
    /// The account of the party.
    pub multisig: AccountId,
    /// The hash of the approved call.
    pub call_hash: CallHash,
}

impl MultisigApproval {
    /// The event as it is expected; the time point is left unknown.
    pub fn from_relevant_fields(approving: AccountId, multisig: AccountId, call_hash: CallHash) -> (event:
        Self)
        ensures
            event.approving == approving,
            event.multisig == multisig,
            event.call_hash == call_hash,
            event.timepoint == (Timepoint { height: 0, index: 0 }),
    {
        MultisigApproval { approving, timepoint: Timepoint::unknown(), multisig, call_hash }
    }
}

impl Event for MultisigApproval {
    open spec fn pallet(&self) -> Seq<char> {
        "Multisig"@
    }

    open spec fn variant(&self) -> Seq<char> {
        "MultisigApproval"@
    }

    open spec fn agrees_with(&self, other: &Self) -> bool {
        self.approving@ == other.approving@ && self.multisig@ == other.multisig@
            && self.call_hash@ == other.call_hash@
    }

    open spec fn decodable(data: Seq<u8>) -> bool {
        data.len() >= 104
    }

    open spec fn encoded_as(event: Self, data: Seq<u8>) -> bool {
        &&& event.approving@ == word_at(data, 0)
        &&& Timepoint::encoded_at(event.timepoint, data, 32)
        &&& event.multisig@ == word_at(data, 40)
        &&& event.call_hash@ == word_at(data, 72)
    }

    fn kind(&self) -> (kind: EventKind) {
        ("Multisig", "MultisigApproval")
    }

    fn matches(&self, other: &Self) -> (agree: bool) {
        self.approving == other.approving && self.multisig == other.multisig && self.call_hash
            == other.call_hash
    }

    fn decode(data: &[u8]) -> (event: Option<Self>) {
        let approving = account_at(data, 0);
        let timepoint = Timepoint::read_at(data, 32);
        let multisig = account_at(data, 40);
        let call_hash = hash_at(data, 72);
        match (approving, timepoint, multisig, call_hash) {
            (Some(approving), Some(timepoint), Some(multisig), Some(call_hash)) => Some(
                MultisigApproval { approving, timepoint, multisig, call_hash },
            ),
            _ => None,
        }
    }
}

/// The last approval has executed the call.
#[derive(Debug, Clone, Copy)]
pub struct MultisigExecuted {
    /// Who approved last.
    pub approving: AccountId,
    /// When the aggregation was opened; takes no part in matching.
    pub timepoint: Timepoint,
    /// The account of the party.
    pub multisig: AccountId,
    /// The hash of the executed call.
    pub call_hash: CallHash,
    /// Whether the call went through; takes no part in matching.
    pub result: Result<(), ()>,
}

impl MultisigExecuted {
    /// The event as it is expected; the time point is left unknown and the call is taken
    /// to have gone through.
    pub fn from_relevant_fields(approving: AccountId, multisig: AccountId, call_hash: CallHash) -> (event:
        Self)
        ensures
            event.approving == approving,
            event.multisig == multisig,
            event.call_hash == call_hash,
            event.timepoint == (Timepoint { height: 0, index: 0 }),
            event.result == Ok::<(), ()>(()),
    {
        MultisigExecuted {
            approving,
            timepoint: Timepoint::unknown(),
            multisig,
            call_hash,
            result: Ok(()),
        }
    }
}

impl Event for MultisigExecuted {
    open spec fn pallet(&self) -> Seq<char> {
        "Multisig"@
    }

    open spec fn variant(&self) -> Seq<char> {
        "MultisigExecuted"@
    }

    open spec fn agrees_with(&self, other: &Self) -> bool {
        self.approving@ == other.approving@ && self.multisig@ == other.multisig@
            && self.call_hash@ == other.call_hash@
    }

    open spec fn decodable(data: Seq<u8>) -> bool {
        data.len() >= 105 && data[104] <= 1
    }

    open spec fn encoded_as(event: Self, data: Seq<u8>) -> bool {
        &&& event.approving@ == word_at(data, 0)
        &&& Timepoint::encoded_at(event.timepoint, data, 32)
        &&& event.multisig@ == word_at(data, 40)
        &&& event.call_hash@ == word_at(data, 72)
        &&& event.result is Ok <==> data[104] == 0
    }

    fn kind(&self) -> (kind: EventKind) {
        ("Multisig", "MultisigExecuted")
    }

    fn matches(&self, other: &Self) -> (agree: bool) {
        self.approving == other.approving && self.multisig == other.multisig && self.call_hash
            == other.call_hash
    }

    fn decode(data: &[u8]) -> (event: Option<Self>) {
        if data.len() < 105 {
            return None;
        }
        let result: Result<(), ()> = if data[104] == 0 {
            Ok(())
        } else if data[104] == 1 {
            Err(())
        } else {
            return None;
        };
        let approving = account_at(data, 0);
        let timepoint = Timepoint::read_at(data, 32);
        let multisig = account_at(data, 40);
        let call_hash = hash_at(data, 72);
        match (approving, timepoint, multisig, call_hash) {
            (Some(approving), Some(timepoint), Some(multisig), Some(call_hash)) => Some(
                MultisigExecuted { approving, timepoint, multisig, call_hash, result },
            ),
            _ => None,
        }
    }
}

/// The aggregation has been withdrawn.
#[derive(Debug, Clone, Copy)]
pub struct MultisigCancelled {
    /// Who withdrew it.
    pub cancelling: AccountId,
    /// When the aggregation was opened; takes no part in matching.
    pub timepoint: Timepoint,
    /// The account of the party.
    pub multisig: AccountId,
    /// The hash of the call that will not be executed.
    pub call_hash: CallHash,
}

impl MultisigCancelled {
    /// The event as it is expected; the time point is left unknown.
    pub fn from_relevant_fields(cancelling: AccountId, multisig: AccountId, call_hash: CallHash) -> (event:
        Self)
        ensures
            event.cancelling == cancelling,
            event.multisig == multisig,
            event.call_hash == call_hash,
            event.timepoint == (Timepoint { height: 0, index: 0 }),
    {
        MultisigCancelled { cancelling, timepoint: Timepoint::unknown(), multisig, call_hash }
    }
}

impl Event for MultisigCancelled {
    open spec fn pallet(&self) -> Seq<char> {
        "Multisig"@
    }

    open spec fn variant(&self) -> Seq<char> {
        "MultisigCancelled"@
    }

    open spec fn agrees_with(&self, other: &Self) -> bool {
        self.cancelling@ == other.cancelling@ && self.multisig@ == other.multisig@
            && self.call_hash@ == other.call_hash@
    }

    open spec fn decodable(data: Seq<u8>) -> bool {
        data.len() >= 104
    }

    open spec fn encoded_as(event: Self, data: Seq<u8>) -> bool {
        &&& event.cancelling@ == word_at(data, 0)
        &&& Timepoint::encoded_at(event.timepoint, data, 32)
        &&& event.multisig@ == word_at(data, 40)
        &&& event.call_hash@ == word_at(data, 72)
    }

    fn kind(&self) -> (kind: EventKind) {
        ("Multisig", "MultisigCancelled")
    }

    fn matches(&self, other: &Self) -> (agree: bool) {
        self.cancelling == other.cancelling && self.multisig == other.multisig && self.call_hash
            == other.call_hash
    }

    fn decode(data: &[u8]) -> (event: Option<Self>) {
        let cancelling = account_at(data, 0);
        let timepoint = Timepoint::read_at(data, 32);
        let multisig = account_at(data, 40);
        let call_hash = hash_at(data, 72);
        match (cancelling, timepoint, multisig, call_hash) {
            (Some(cancelling), Some(timepoint), Some(multisig), Some(call_hash)) => Some(
                MultisigCancelled { cancelling, timepoint, multisig, call_hash },
            ),
            _ => None,
        }
    }
}

} // verus!
