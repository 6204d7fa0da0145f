//! Looking for one event in what the node emits.
//!
//! The node sends its events in batches, each batch as one line of hexadecimal digits.
//! A batch is turned into bytes here; the bytes are taken apart into raw events by whoever
//! knows the metadata of the chain; the raw events are searched here. Only events of the
//! expected kind are decoded, an event that cannot be decoded is passed over, and the
//! first event that the matcher accepts is the one that was waited for.

use vstd::prelude::*;
use vstd::string::*;

use crate::event::{Event, EventKind, ListeningError};
use crate::interval::Interval;

verus! {

/// How long the listener rests when it has found nothing to do, in milliseconds.
pub const IDLE_MILLIS: u64 = 500;

/// The value of a hexadecimal digit, or nothing if `c` is none.
pub open spec fn hex_digit(c: u8) -> Option<int> {
    if 0x30 <= c <= 0x39 {
        Some(c - 0x30)
    } else if 0x41 <= c <= 0x46 {
        Some(c - 0x41 + 10)
    } else if 0x61 <= c <= 0x66 {
        Some(c - 0x61 + 10)
    } else {
        None
    }
}

/// Whether `digits` is an even number of hexadecimal digits.
pub open spec fn is_hex(digits: Seq<u8>) -> bool {
    &&& digits.len() % 2 == 0
    &&& forall|i: int| 0 <= i < digits.len() ==> (#[trigger] hex_digit(digits[i])) is Some
}

/// The bytes that `digits` spell, two digits per byte, the higher one first.
pub open spec fn hex_bytes(digits: Seq<u8>) -> Seq<u8> {
    Seq::new(
        digits.len() / 2,
        |i: int| (hex_digit(digits[2 * i])->Some_0 * 16 + hex_digit(digits[2 * i + 1])->Some_0) as u8,
    )
}

/// What is left of `text` once every `0x` in it has been taken out, going from the left.
pub open spec fn without_marks(text: Seq<u8>) -> Seq<u8>
    decreases text.len(),
{
    if text.len() < 2 {
        text
    } else if text[0] == 0x30 && text[1] == 0x78 {
        without_marks(text.skip(2))
    } else {
        seq![text[0]] + without_marks(text.skip(1))
    }
}

#[verifier::external_type_specification]
#[verifier::external_body]
pub struct ExFromHexError(hex::FromHexError);

/// Calls `FromHex::from_hex` of `hex` for a vector of bytes. It fails on an odd number of
/// digits and on any character that is no hexadecimal digit, in either case of the
/// letters; otherwise each pair of digits gives one byte, the higher digit first.
#[verifier::external_body]
pub(crate) fn from_hex(digits: &[u8]) -> (bytes: Result<Vec<u8>, hex::FromHexError>)
    ensures
        bytes is Ok <==> is_hex(digits@),
        bytes is Ok ==> bytes->Ok_0@ == hex_bytes(digits@),
{
    <Vec<u8> as hex::FromHex>::from_hex(digits)
}

/// Takes every `0x` out of `text`, going from the left.
pub fn strip_marks(text: &[u8]) -> (stripped: Vec<u8>)
    ensures
        stripped@ == without_marks(text@),
{
    let mut stripped: Vec<u8> = Vec::new();
    let mut i: usize = 0;
    assert(text@.skip(0) =~= text@);
    assert(stripped@ + without_marks(text@) =~= without_marks(text@));
    while i < text.len()
        invariant
            i <= text.len(),
            without_marks(text@) == stripped@ + without_marks(text@.skip(i as int)),
        decreases text.len() - i,
    {
        let ghost rest = text@.skip(i as int);
        if text.len() - i >= 2 && text[i] == 0x30 && text[i + 1] == 0x78 {
            assert(rest.skip(2) =~= text@.skip(i + 2));
            i = i + 2;
        } else {
            let ghost kept = stripped@;
            stripped.push(text[i]);
            proof {
                assert(rest.skip(1) =~= text@.skip(i + 1));
                if rest.len() < 2 {
                    assert(rest =~= seq![text@[i as int]]);
                    assert(without_marks(text@.skip(i + 1)) =~= Seq::<u8>::empty());
                    assert(without_marks(rest) =~= seq![text@[i as int]] + without_marks(
                        text@.skip(i + 1),
                    ));
                }
                assert(stripped@ + without_marks(text@.skip(i + 1)) =~= kept + (seq![
                    text@[i as int],
                ] + without_marks(text@.skip(i + 1))));
            }
            i = i + 1;
        }
    }
    assert(text@.skip(text@.len() as int) =~= Seq::<u8>::empty());
    assert(stripped@ + Seq::<u8>::empty() =~= stripped@);
    stripped
}

/// Turns one batch, as the node sends it, into the bytes that it spells: every `0x` is
/// dropped, and what remains must be hexadecimal digits. A batch that is not of that form
/// gives nothing and is to be passed over.
pub fn batch_bytes(encoded_batch: &[u8]) -> (bytes: Option<Vec<u8>>)
    ensures
        bytes is Some <==> is_hex(without_marks(encoded_batch@)),
        bytes is Some ==> bytes->Some_0@ == hex_bytes(without_marks(encoded_batch@)),
{
    let digits = strip_marks(encoded_batch);
    match from_hex(digits.as_slice()) {
        Ok(bytes) => Some(bytes),
        Err(_) => None,
    }
}

/// One event as it comes out of a batch: the pallet, the name of the variant, and the
/// bytes of its fields.
#[derive(Debug)]
pub struct RawEvent {
    /// The pallet that emitted the event.
    pub pallet: String,
    /// The name of the event's variant.
    pub variant: String,
    /// The fields of the event, encoded.
    pub data: Vec<u8>,
}

/// Whether `raw` is of the kind `pallet`, `variant` and can be decoded into the shape `E`.
pub open spec fn candidate<E: Event>(raw: RawEvent, pallet: Seq<char>, variant: Seq<char>) -> bool {
    raw.pallet@ == pallet && raw.variant@ == variant && E::decodable(raw.data@)
}

/// Whether the matcher has turned down what `raw` holds, if `raw` is a candidate at all.
pub open spec fn passed_over<E: Event, M: Fn(&E) -> bool>(
    raw: RawEvent,
    pallet: Seq<char>,
    variant: Seq<char>,
    matcher: M,
) -> bool {
    candidate::<E>(raw, pallet, variant) ==> exists|event: E|
        E::encoded_as(event, raw.data@) && #[trigger] call_ensures(matcher, (&event,), false)
}

/// Whether the matcher has turned down every candidate among the first `upto` events.
pub open spec fn none_accepted<E: Event, M: Fn(&E) -> bool>(
    raw_events: Seq<RawEvent>,
    upto: int,
    pallet: Seq<char>,
    variant: Seq<char>,
    matcher: M,
) -> bool {
    forall|j: int|
        0 <= j < upto ==> passed_over::<E, M>(#[trigger] raw_events[j], pallet, variant, matcher)
}

/// Whether `event` is what the event at position `i` holds, the matcher has accepted it,
/// and it is the first such event.
pub open spec fn spotted_at<E: Event, M: Fn(&E) -> bool>(
    raw_events: Seq<RawEvent>,
    i: int,
    event: E,
    pallet: Seq<char>,
    variant: Seq<char>,
    matcher: M,
) -> bool {
    &&& 0 <= i < raw_events.len()
    &&& candidate::<E>(raw_events[i], pallet, variant)
    &&& E::encoded_as(event, raw_events[i].data@)
    &&& call_ensures(matcher, (&event,), true)
    &&& none_accepted::<E, M>(raw_events, i, pallet, variant, matcher)
}

/// Whether `text` says the same as `word`.
fn says(text: &String, word: &str) -> (same: bool)
    ensures
        same == (text@ == word@),
{
    let other = String::from_str(word);
    *text == other
}

/// Searches one batch of raw events for the first event of the kind `kind` that can be
/// decoded and that `matcher` accepts. Events of another kind are not decoded, and
/// events that cannot be decoded are passed over without complaint.
pub fn handle_new_events_batch<E: Event, M: Fn(&E) -> bool>(
    kind: EventKind,
    matcher: &M,
    raw_events: &Vec<RawEvent>,
) -> (found: Result<E, ListeningError>)
    requires
        forall|event: E| call_requires(*matcher, (&event,)),
    ensures
        found is Ok ==> exists|i: int| #[trigger]
            spotted_at::<E, M>(raw_events@, i, found->Ok_0, kind.0@, kind.1@, *matcher),
        found is Err ==> found->Err_0 == ListeningError::NoEventSpotted && none_accepted::<E, M>(
            raw_events@,
            raw_events@.len() as int,
            kind.0@,
            kind.1@,
            *matcher,
        ),
{
    let mut i: usize = 0;
    while i < raw_events.len()
        invariant
            i <= raw_events@.len(),
            forall|event: E| call_requires(*matcher, (&event,)),
            none_accepted::<E, M>(raw_events@, i as int, kind.0@, kind.1@, *matcher),
        decreases raw_events@.len() - i,
    {
        let raw = &raw_events[i];
        if says(&raw.pallet, kind.0) && says(&raw.variant, kind.1) {
            match E::decode(raw.data.as_slice()) {
                Some(received) => {
                    if matcher(&received) {
                        let ghost seen = received;
                        let found: Result<E, ListeningError> = Ok(received);
                        assert(found->Ok_0 == seen);
                        assert(call_ensures(*matcher, (&found->Ok_0,), true));
                        assert(spotted_at::<E, M>(
                            raw_events@,
                            i as int,
                            found->Ok_0,
                            kind.0@,
                            kind.1@,
                            *matcher,
                        ));
                        return found;
                    }
                    assert(passed_over::<E, M>(raw_events@[i as int], kind.0@, kind.1@, *matcher));
                },
                None => {},
            }
        }
        i = i + 1;
    }
    Err(ListeningError::NoEventSpotted)
}

/// Searches one batch of raw events for the first event that `expected` matches.
pub fn handle_expected_events_batch<E: Event>(expected: &E, raw_events: &Vec<RawEvent>) -> (found:
    Result<E, ListeningError>)
    ensures
        found is Ok ==> expected.agrees_with(&found->Ok_0) && exists|i: int|
            0 <= i < raw_events@.len() && candidate::<E>(
                #[trigger] raw_events@[i],
                expected.pallet(),
                expected.variant(),
            ) && E::encoded_as(found->Ok_0, raw_events@[i].data@),
        found is Err ==> found->Err_0 == ListeningError::NoEventSpotted && forall|i: int|
            0 <= i < raw_events@.len() && candidate::<E>(
                #[trigger] raw_events@[i],
                expected.pallet(),
                expected.variant(),
            ) ==> exists|event: E|
                #[trigger] E::encoded_as(event, raw_events@[i].data@) && !expected.agrees_with(
                    &event,
                ),
{
    let matcher = |received: &E| -> (agree: bool)
        ensures
            agree == expected.agrees_with(received),
        { expected.matches(received) };
    let kind = expected.kind();
    let found = handle_new_events_batch(kind, &matcher, raw_events);
    proof {
        if found is Ok {
            let event = found->Ok_0;
            let i = choose|i: int| spotted_at(raw_events@, i, event, kind.0@, kind.1@, matcher);
            assert(candidate::<E>(raw_events@[i], expected.pallet(), expected.variant()));
        } else {
            assert forall|i: int|
                0 <= i < raw_events@.len() && candidate::<E>(
                    #[trigger] raw_events@[i],
                    expected.pallet(),
                    expected.variant(),
                ) implies exists|event: E|
                #[trigger] E::encoded_as(event, raw_events@[i].data@) && !expected.agrees_with(
                    &event,
                ) by {
                assert(passed_over(raw_events@[i], kind.0@, kind.1@, matcher));
                let event = choose|event: E|
                    E::encoded_as(event, raw_events@[i].data@) && #[trigger] call_ensures(
                        matcher,
                        (&event,),
                        false,
                    );
                assert(E::encoded_as(event, raw_events@[i].data@));
            }
        }
    }
    found
}

/// What one round of listening has come to.
pub enum ListenerVerdict<E> {
    /// The event has been seen; it is to be handed over, and listening ends.
    Matched(E),
    /// Listening was called off, and ends.
    Cancelled,
    /// Nothing has happened; listening goes on after a rest of this length.
    Idle(Interval),
}

/// Whether the matcher has turned down every candidate in the first `upto` batches.
pub open spec fn all_batches_passed<E: Event, M: Fn(&E) -> bool>(
    batches: Seq<Option<Vec<RawEvent>>>,
    upto: int,
    pallet: Seq<char>,
    variant: Seq<char>,
    matcher: M,
) -> bool {
    forall|b: int|
        0 <= b < upto && (#[trigger] batches[b]) is Some ==> none_accepted::<E, M>(
            batches[b]->Some_0@,
            batches[b]->Some_0@.len() as int,
            pallet,
            variant,
            matcher,
        )
}

/// One round of listening: the batches that have come in are searched in their order,
/// then the signal to call off is looked at, and if neither has ended the listening, a
/// rest is due. A batch that could not be taken apart counts as nothing and is passed
/// over.
pub fn listen_for_event<E: Event, M: Fn(&E) -> bool>(
    kind: EventKind,
    matcher: &M,
    batches: &Vec<Option<Vec<RawEvent>>>,
    cancel_requested: bool,
) -> (verdict: ListenerVerdict<E>)
    requires
        forall|event: E| call_requires(*matcher, (&event,)),
    ensures
        verdict is Matched ==> exists|b: int, i: int|
            0 <= b < batches@.len() && batches@[b] is Some && #[trigger] spotted_at::<E, M>(
                batches@[b]->Some_0@,
                i,
                verdict->Matched_0,
                kind.0@,
                kind.1@,
                *matcher,
            ) && all_batches_passed::<E, M>(batches@, b, kind.0@, kind.1@, *matcher),
        !(verdict is Matched) ==> all_batches_passed::<E, M>(
            batches@,
            batches@.len() as int,
            kind.0@,
            kind.1@,
            *matcher,
        ),
        verdict is Cancelled ==> cancel_requested,
        verdict is Idle ==> !cancel_requested && verdict->Idle_0.nanos == 500_000_000,
{
    let mut b: usize = 0;
    while b < batches.len()
        invariant
            b <= batches@.len(),
            forall|event: E| call_requires(*matcher, (&event,)),
            all_batches_passed::<E, M>(batches@, b as int, kind.0@, kind.1@, *matcher),
        decreases batches@.len() - b,
    {
        match &batches[b] {
            Some(raw_events) => {
                match handle_new_events_batch(kind, matcher, raw_events) {
                    Ok(event) => {
                        let ghost seen = event;
                        let verdict = ListenerVerdict::Matched(event);
                        proof {
                            let i = choose|i: int| #[trigger]
                                spotted_at::<E, M>(
                                    raw_events@,
                                    i,
                                    seen,
                                    kind.0@,
                                    kind.1@,
                                    *matcher,
                                );
                            assert(verdict->Matched_0 == seen);
                            assert(batches@[b as int]->Some_0@ == raw_events@);
                            assert(spotted_at::<E, M>(
                                batches@[b as int]->Some_0@,
                                i,
                                verdict->Matched_0,
                                kind.0@,
                                kind.1@,
                                *matcher,
                            ));
                        }
                        return verdict;
                    },
                    Err(_) => {},
                }
            },
            None => {},
        }
        b = b + 1;
    }
    if cancel_requested {
        return ListenerVerdict::Cancelled;
    }
    ListenerVerdict::Idle(Interval::from_millis(IDLE_MILLIS))
}

} // verus!
