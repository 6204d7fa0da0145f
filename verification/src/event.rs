//! Chain events as the scenarios expect them.
//!
//! An event is told apart from all others by its kind, the pallet that emits it and the
//! name of its variant. An expected event and a received one of the same kind match when
//! they agree on the fields that the scenario can foresee.

use vstd::prelude::*;
use vstd::bytes::spec_u128_from_le_bytes;
use vstd::bytes::spec_u32_from_le_bytes;
use vstd::std_specs::cmp::PartialEqSpecImpl;

use parity_scale_codec::Decode;

verus! {

/// The ways in which waiting for an event fails.
#[derive(Debug, Clone, Copy, PartialEq, Eq, Structural)]
pub enum ListeningError {
    /// The node did not accept the subscription to its events.
    CannotSubscribe,
    /// The expected event was not seen in time.
    NoEventSpotted,
}

impl ListeningError {
    /// The line by which the error is reported.
    pub open spec fn spec_message(&self) -> Seq<char> {
        match self {
            ListeningError::CannotSubscribe => "⏳❌ Could not subscribe to events."@,
            ListeningError::NoEventSpotted => "⏳❌ Expected event has not been emitted."@,
        }
    }

    /// The line by which the error is reported.
    pub fn message(&self) -> (text: String)
        ensures
            text@ == self.spec_message(),
    {
        match self {
            ListeningError::CannotSubscribe => String::from_str(
                "⏳❌ Could not subscribe to events.",
            ),
            ListeningError::NoEventSpotted => String::from_str(
                "⏳❌ Expected event has not been emitted.",
            ),
        }
    }
}

impl crate::scenario::Loggable for ListeningError {
    open spec fn text(&self) -> Seq<char> {
        self.spec_message()
    }

    fn to_text(&self) -> (text: String) {
        self.message()
    }
}

/// The pallet that emits an event and the name of the event's variant, such as
/// `("Balances", "Transfer")`.
pub type EventKind = (&'static str, &'static str);

/// The public identifier of an account: 32 bytes.
#[derive(Debug, Clone, Copy)]
pub struct AccountId(pub [u8; 32]);

impl View for AccountId {
    type V = Seq<u8>;

    open spec fn view(&self) -> Seq<u8> {
        self.0@
    }
}

impl PartialEq for AccountId {
    fn eq(&self, other: &Self) -> (same: bool) {
        same_words(&self.0, &other.0)
    }
}

impl Eq for AccountId {}

impl PartialEqSpecImpl for AccountId {
    open spec fn obeys_eq_spec() -> bool {
        true
    }

    open spec fn eq_spec(&self, other: &Self) -> bool {
        self@ == other@
    }
}

/// The hash of a call: 32 bytes.
#[derive(Debug, Clone, Copy)]
pub struct CallHash(pub [u8; 32]);

impl View for CallHash {
    type V = Seq<u8>;

    open spec fn view(&self) -> Seq<u8> {
        self.0@
    }
}

impl PartialEq for CallHash {
    fn eq(&self, other: &Self) -> (same: bool) {
        same_words(&self.0, &other.0)
    }
}

impl Eq for CallHash {}

impl PartialEqSpecImpl for CallHash {
    open spec fn obeys_eq_spec() -> bool {
        true
    }

    open spec fn eq_spec(&self, other: &Self) -> bool {
        self@ == other@
    }
}

/// Whether two words of 32 bytes hold the same bytes.
pub fn same_words(left: &[u8; 32], right: &[u8; 32]) -> (same: bool)
    ensures
        same == (left@ == right@),
{
    let mut i: usize = 0;
    while i < 32
        invariant
            i <= 32,
            forall|j: int| 0 <= j < i ==> left@[j] == right@[j],
        decreases 32 - i,
    {
        if left[i] != right[i] {
            assert(left@[i as int] != right@[i as int]);
            return false;
        }
        i = i + 1;
    }
    assert(left@ =~= right@);
    true
}

/// Calls `Decode::decode` of `parity-scale-codec` for a word of 32 bytes on the front of
/// `input`. The codec takes the first 32 bytes as they are and fails when there are fewer.
#[verifier::external_body]
pub(crate) fn scale_word(input: &[u8]) -> (word: Option<[u8; 32]>)
    ensures
        word is Some <==> input@.len() >= 32,
        word is Some ==> word->Some_0@ == input@.subrange(0, 32),
{
    <[u8; 32] as Decode>::decode(&mut &input[..]).ok()
}

/// Calls `Decode::decode` of `parity-scale-codec` for a `u128` on the front of `input`.
/// The codec reads the first 16 bytes as a number, least significant byte first, and
/// fails when there are fewer.
#[verifier::external_body]
pub(crate) fn scale_u128(input: &[u8]) -> (number: Option<u128>)
    ensures
        number is Some <==> input@.len() >= 16,
        number is Some ==> number->Some_0 == spec_u128_from_le_bytes(input@.subrange(0, 16)),
{
    <u128 as Decode>::decode(&mut &input[..]).ok()
}

/// Calls `Decode::decode` of `parity-scale-codec` for a `u32` on the front of `input`. The
/// codec reads the first 4 bytes as a number, least significant byte first, and fails
/// when there are fewer.
#[verifier::external_body]
pub(crate) fn scale_u32(input: &[u8]) -> (number: Option<u32>)
    ensures
        number is Some <==> input@.len() >= 4,
        number is Some ==> number->Some_0 == spec_u32_from_le_bytes(input@.subrange(0, 4)),
{
    <u32 as Decode>::decode(&mut &input[..]).ok()
}

/// Whether `data` holds `count` bytes from position `at` on.
pub open spec fn holds(data: Seq<u8>, at: int, count: int) -> bool {
    0 <= at && at + count <= data.len()
}

/// The 32 bytes of `data` from position `at` on.
pub open spec fn word_at(data: Seq<u8>, at: int) -> Seq<u8> {
    data.subrange(at, at + 32)
}

/// The number that the 16 bytes of `data` from position `at` on stand for, least
/// significant byte first.
pub open spec fn u128_at(data: Seq<u8>, at: int) -> u128 {
    spec_u128_from_le_bytes(data.subrange(at, at + 16))
}

/// The number that the 4 bytes of `data` from position `at` on stand for, least
/// significant byte first.
pub open spec fn u32_at(data: Seq<u8>, at: int) -> u32 {
    spec_u32_from_le_bytes(data.subrange(at, at + 4))
}

/// Reads the account identifier that stands at position `at` of `data`.
pub fn account_at(data: &[u8], at: usize) -> (account: Option<AccountId>)
    requires
        at <= usize::MAX - 32,
    ensures
        account is Some <==> holds(data@, at as int, 32),
        account is Some ==> account->Some_0@ == word_at(data@, at as int),
{
    if data.len() < at + 32 {
        return None;
    }
    let rest = vstd::slice::slice_subrange(data, at, data.len());
    match scale_word(rest) {
        Some(word) => {
            assert(rest@.subrange(0, 32) =~= word_at(data@, at as int));
            Some(AccountId(word))
        },
        None => None,
    }
}

/// Reads the call hash that stands at position `at` of `data`.
pub fn hash_at(data: &[u8], at: usize) -> (hash: Option<CallHash>)
    requires
        at <= usize::MAX - 32,
    ensures
        hash is Some <==> holds(data@, at as int, 32),
        hash is Some ==> hash->Some_0@ == word_at(data@, at as int),
{
    if data.len() < at + 32 {
        return None;
    }
    let rest = vstd::slice::slice_subrange(data, at, data.len());
    match scale_word(rest) {
        Some(word) => {
            assert(rest@.subrange(0, 32) =~= word_at(data@, at as int));
            Some(CallHash(word))
        },
        None => None,
    }
}

/// Reads the balance that stands at position `at` of `data`.
pub fn balance_at(data: &[u8], at: usize) -> (balance: Option<u128>)
    requires
        at <= usize::MAX - 16,
    ensures
        balance is Some <==> holds(data@, at as int, 16),
        balance is Some ==> balance->Some_0 == u128_at(data@, at as int),
{
    if data.len() < at + 16 {
        return None;
    }
    let rest = vstd::slice::slice_subrange(data, at, data.len());
    let balance = scale_u128(rest);
    assert(rest@.subrange(0, 16) =~= data@.subrange(at as int, at + 16));
    balance
}

/// Reads the 32-bit number that stands at position `at` of `data`.
pub fn number_at(data: &[u8], at: usize) -> (number: Option<u32>)
    requires
        at <= usize::MAX - 4,
    ensures
        number is Some <==> holds(data@, at as int, 4),
        number is Some ==> number->Some_0 == u32_at(data@, at as int),
{
    if data.len() < at + 4 {
        return None;
    }
    let rest = vstd::slice::slice_subrange(data, at, data.len());
    let number = scale_u32(rest);
    assert(rest@.subrange(0, 4) =~= data@.subrange(at as int, at + 4));
    number
}

/// What a scenario can expect of the chain: an event of a kind, told by some of its
/// fields.
///
/// The stream of events is first searched for the kind. Only an event of that kind is
/// decoded, and only a decoded one is held against the expected one.
pub trait Event: Sized {
    /// The pallet that emits the event.
    spec fn pallet(&self) -> Seq<char>;

    /// The name of the event's variant.
    spec fn variant(&self) -> Seq<char>;

    /// Whether `other` is what `self` expects.
    spec fn agrees_with(&self, other: &Self) -> bool;

    /// Whether `data` is long enough, and of the right form, to hold an event of this
    /// shape.
    spec fn decodable(data: Seq<u8>) -> bool;

    /// Whether `event` is what `data` holds.
    spec fn encoded_as(event: Self, data: Seq<u8>) -> bool;

    /// The pallet that emits the event and the name of its variant.
    fn kind(&self) -> (kind: EventKind)
        ensures
            kind.0@ == self.pallet(),
            kind.1@ == self.variant(),
    ;

    /// Whether `other` is what `self` expects.
    fn matches(&self, other: &Self) -> (agree: bool)
        ensures
            agree == self.agrees_with(other),
    ;

    /// Reads an event of this shape from the front of `data`. Bytes behind it are not
    /// looked at.
    fn decode(data: &[u8]) -> (event: Option<Self>)
        ensures
            event is Some <==> Self::decodable(data@),
            event is Some ==> Self::encoded_as(event->Some_0, data@),
    ;
}

/// A transfer of balance from one account to another.
#[derive(Debug, Clone, Copy)]
pub struct Transfer {
    /// Who pays.
    pub from: AccountId,
    /// Who receives.
    pub to: AccountId,
    /// How much.
    pub amount: u128,
}

impl Transfer {
    /// The transfer of `amount` from `from` to `to`.
    pub fn from_relevant_fields(from: AccountId, to: AccountId, amount: u128) -> (event: Self)
        ensures
            event.from == from,
            event.to == to,
            event.amount == amount,
    {
        Transfer { from, to, amount }
    }
}

impl Event for Transfer {
    open spec fn pallet(&self) -> Seq<char> {
        "Balances"@
    }

    open spec fn variant(&self) -> Seq<char> {
        "Transfer"@
    }

    open spec fn agrees_with(&self, other: &Self) -> bool {
        self.from@ == other.from@ && self.to@ == other.to@ && self.amount == other.amount
    }

    open spec fn decodable(data: Seq<u8>) -> bool {
        data.len() >= 80
    }

    open spec fn encoded_as(event: Self, data: Seq<u8>) -> bool {
        &&& event.from@ == word_at(data, 0)
        &&& event.to@ == word_at(data, 32)
        &&& event.amount == u128_at(data, 64)
    }

    fn kind(&self) -> (kind: EventKind) {
        ("Balances", "Transfer")
    }

    fn matches(&self, other: &Self) -> (agree: bool) {
        self.from == other.from && self.to == other.to && self.amount == other.amount
    }

    fn decode(data: &[u8]) -> (event: Option<Self>) {
        let from = account_at(data, 0);
        let to = account_at(data, 32);
        let amount = balance_at(data, 64);
        match (from, to, amount) {
            (Some(from), Some(to), Some(amount)) => Some(Transfer { from, to, amount }),
            _ => None,
        }
    }
}

/// All calls of a batch have been dispatched.
#[derive(Debug, Clone, Copy, PartialEq, Eq, Structural)]
pub struct BatchCompleted;

impl BatchCompleted {
    /// The event; it has no fields.
    pub fn from_relevant_fields() -> (event: Self) {
        BatchCompleted
    }
}

impl Event for BatchCompleted {
    open spec fn pallet(&self) -> Seq<char> {
        "Utility"@
    }

    open spec fn variant(&self) -> Seq<char> {
        "BatchCompleted"@
    }

    open spec fn agrees_with(&self, other: &Self) -> bool {
        true
    }

    open spec fn decodable(data: Seq<u8>) -> bool {
        true
    }

    open spec fn encoded_as(event: Self, data: Seq<u8>) -> bool {
        true
    }

    fn kind(&self) -> (kind: EventKind) {
        ("Utility", "BatchCompleted")
    }

    fn matches(&self, other: &Self) -> (agree: bool) {
        true
    }

    fn decode(data: &[u8]) -> (event: Option<Self>) {
        Some(BatchCompleted)
    }
}

/// The schedules of an account have changed; they now lock `unvested` together.
#[derive(Debug, Clone, Copy)]
pub struct VestingUpdated {
    /// The account whose schedules have changed.
    pub account: AccountId,
    /// What is still locked.
    pub unvested: u128,
}

impl VestingUpdated {
    /// The event that tells that the schedules of `account` lock `unvested`.
    pub fn from_relevant_fields(account: AccountId, unvested: u128) -> (event: Self)
        ensures
            event.account == account,
            event.unvested == unvested,
    {
        VestingUpdated { account, unvested }
    }
}

impl Event for VestingUpdated {
    open spec fn pallet(&self) -> Seq<char> {
        "Vesting"@
    }

    open spec fn variant(&self) -> Seq<char> {
        "VestingUpdated"@
    }

    open spec fn agrees_with(&self, other: &Self) -> bool {
        self.account@ == other.account@ && self.unvested == other.unvested
    }

    open spec fn decodable(data: Seq<u8>) -> bool {
        data.len() >= 48
    }

    open spec fn encoded_as(event: Self, data: Seq<u8>) -> bool {
        &&& event.account@ == word_at(data, 0)
        &&& event.unvested == u128_at(data, 32)
    }

    fn kind(&self) -> (kind: EventKind) {
        ("Vesting", "VestingUpdated")
    }

    fn matches(&self, other: &Self) -> (agree: bool) {
        self.account == other.account && self.unvested == other.unvested
    }

    fn decode(data: &[u8]) -> (event: Option<Self>) {
        let account = account_at(data, 0);
        let unvested = balance_at(data, 32);
        match (account, unvested) {
            (Some(account), Some(unvested)) => Some(VestingUpdated { account, unvested }),
            _ => None,
        }
    }
}

} // verus!
