//! The log tap: the one sink of all log records, which hands each record on to whoever
//! has subscribed to the scenario that emitted it.

use vstd::prelude::*;
use vstd::string::*;

use futures::channel::mpsc::UnboundedSender;

use crate::ident::Ident;
use crate::scenario::Level;

verus! {

/// A line of the log together with the name of the scenario that it belongs to.
pub type LogLine = (Ident, String);

#[verifier::external_type_specification]
#[verifier::external_body]
#[verifier::reject_recursive_types(T)]
pub struct ExUnboundedSender<T>(UnboundedSender<T>);

/// How much is let through to the tap.
#[derive(Debug, Clone, Copy, PartialEq, Eq, Structural)]
pub enum LevelFilter {
    /// Nothing.
    Off,
    /// Errors only.
    Error,
    /// Warnings and errors.
    Warn,
    /// Steps worth telling and what is more urgent.
    Info,
    /// Details and what is more urgent.
    Debug,
    /// Everything.
    Trace,
}

impl LevelFilter {
    /// Whether a record of `level` is let through: a record is, if it is at least as
    /// urgent as the filter says, and none is if the filter is off.
    pub open spec fn lets_through(self, level: Level) -> bool {
        match self {
            LevelFilter::Off => false,
            LevelFilter::Error => level is Error,
            LevelFilter::Warn => level is Error || level is Warn,
            LevelFilter::Info => level is Error || level is Warn || level is Info,
            LevelFilter::Debug => !(level is Trace),
            LevelFilter::Trace => true,
        }
    }

    /// Whether a record of `level` is let through.
    pub fn allows(self, level: Level) -> (allowed: bool)
        ensures
            allowed == self.lets_through(level),
    {
        match self {
            LevelFilter::Off => false,
            LevelFilter::Error => matches!(level, Level::Error),
            LevelFilter::Warn => matches!(level, Level::Error | Level::Warn),
            LevelFilter::Info => matches!(level, Level::Error | Level::Warn | Level::Info),
            LevelFilter::Debug => !matches!(level, Level::Trace),
            LevelFilter::Trace => true,
        }
    }
}

/// The small letter for a capital one of the Latin alphabet; any other character as it
/// is.
pub open spec fn lowered(c: char) -> char {
    if 'A' <= c <= 'Z' {
        ((c as u8) + 32) as char
    } else {
        c
    }
}

/// Whether `text` spells `word` if capital Latin letters are read as small ones.
pub open spec fn spells(text: Seq<char>, word: Seq<char>) -> bool {
    text.len() == word.len() && forall|i: int| 0 <= i < text.len() ==> lowered(text[i]) == word[i]
}

/// The filter that a setting asks for: one of the words `off`, `error`, `warn`, `info`,
/// `debug` and `trace` in any mix of capital and small letters. Anything else, and no
/// setting at all, asks for details.
pub open spec fn filter_for(setting: Option<Seq<char>>) -> LevelFilter {
    match setting {
        None => LevelFilter::Debug,
        Some(text) => if spells(text, "off"@) {
            LevelFilter::Off
        } else if spells(text, "error"@) {
            LevelFilter::Error
        } else if spells(text, "warn"@) {
            LevelFilter::Warn
        } else if spells(text, "info"@) {
            LevelFilter::Info
        } else if spells(text, "trace"@) {
            LevelFilter::Trace
        } else {
            LevelFilter::Debug
        },
    }
}

/// Whether `text` spells `word` if capital Latin letters are read as small ones.
pub fn says_word(text: &str, word: &str) -> (same: bool)
    ensures
        same == spells(text@, word@),
{
    let n: usize = text.unicode_len();
    if n != word.unicode_len() {
        return false;
    }
    let mut i: usize = 0;
    while i < n
        invariant
            i <= n,
            n == text@.len(),
            n == word@.len(),
            forall|j: int| 0 <= j < i ==> lowered(text@[j]) == word@[j],
        decreases n - i,
    {
        let c: char = text.get_char(i);
        let small: char = if 'A' <= c && c <= 'Z' {
            ((c as u8) + 32) as char
        } else {
            c
        };
        if small != word.get_char(i) {
            return false;
        }
        i = i + 1;
    }
    true
}

/// Reads the setting of the highest level that is let through.
pub fn setup_logging(setting: Option<&str>) -> (filter: LevelFilter)
    ensures
        filter == filter_for(
            match setting {
                Some(text) => Some(text@),
                None => None,
            },
        ),
{
    match setting {
        None => LevelFilter::Debug,
        Some(text) => {
            if says_word(text, "off") {
                LevelFilter::Off
            } else if says_word(text, "error") {
                LevelFilter::Error
            } else if says_word(text, "warn") {
                LevelFilter::Warn
            } else if says_word(text, "info") {
                LevelFilter::Info
            } else if says_word(text, "trace") {
                LevelFilter::Trace
            } else {
                LevelFilter::Debug
            }
        },
    }
}

/// The name of a level as it stands in a log line.
pub open spec fn level_name(level: Level) -> Seq<char> {
    match level {
        Level::Error => "ERROR"@,
        Level::Warn => "WARN"@,
        Level::Info => "INFO"@,
        Level::Debug => "DEBUG"@,
        Level::Trace => "TRACE"@,
    }
}

/// A log line: the time, the level and the message, with two blanks between them.
pub open spec fn spec_format(timestamp: Seq<char>, level: Level, message: Seq<char>) -> Seq<char> {
    timestamp + "  "@ + level_name(level) + "  "@ + message
}

/// Puts a log line together.
pub fn format(timestamp: &str, level: Level, message: &str) -> (line: String)
    ensures
        line@ == spec_format(timestamp@, level, message@),
{
    let mut line = String::from_str(timestamp);
    line.append("  ");
    line.append(
        match level {
            Level::Error => "ERROR",
            Level::Warn => "WARN",
            Level::Info => "INFO",
            Level::Debug => "DEBUG",
            Level::Trace => "TRACE",
        },
    );
    line.append("  ");
    line.append(message);
    line
}

/// The layout of the time in a log line: the day and the time of day, to the second.
pub open spec fn time_layout() -> Seq<char> {
    "%Y-%m-%d %H:%M:%S"@
}

/// Calls `Local::now` of `chrono` and writes the time in the given layout. Only the one
/// layout of the log lines is handed to it, which `chrono` knows to be well formed.
/// Nothing is promised about the text, which changes from call to call.
#[verifier::external_body]
pub(crate) fn local_time(layout: &str) -> (timestamp: String)
    requires
        layout@ == time_layout(),
{
    chrono::Local::now().format(layout).to_string()
}

/// Calls `UnboundedSender::unbounded_send` of `futures` with the line and tells whether
/// the line was taken. It is not taken when the receiving side is gone, which nothing
/// here can foresee.
#[verifier::external_body]
pub(crate) fn forward(sender: &UnboundedSender<LogLine>, target: Ident, line: String) -> (taken:
    bool) {
    sender.unbounded_send((target, line)).is_ok()
}

/// The subscribers to one scenario, as plain mathematics.
pub struct SubscriptionModel {
    /// The name of the scenario.
    pub target: Seq<char>,
    /// Where its lines go, in the order of subscription.
    pub senders: Seq<UnboundedSender<LogLine>>,
}

/// The subscribers to one scenario.
pub struct Subscription {
    /// The name of the scenario.
    pub target: Ident,
    /// Where its lines go, in the order of subscription.
    pub senders: Vec<UnboundedSender<LogLine>>,
}

impl View for Subscription {
    type V = SubscriptionModel;

    open spec fn view(&self) -> SubscriptionModel {
        SubscriptionModel { target: self.target@, senders: self.senders@ }
    }
}

/// Those of `senders` whose place in `taken` says that they took the line, in their
/// order.
pub open spec fn kept<T>(senders: Seq<T>, taken: Seq<bool>) -> Seq<T>
    decreases senders.len(),
{
    if senders.len() == 0 {
        senders
    } else if taken.last() {
        kept(senders.drop_last(), taken.drop_last()).push(senders.last())
    } else {
        kept(senders.drop_last(), taken.drop_last())
    }
}

/// Whether the first entry for `target` stands at place `i`.
pub open spec fn first_for(entries: Seq<SubscriptionModel>, target: Seq<char>, i: int) -> bool {
    &&& 0 <= i < entries.len()
    &&& entries[i].target == target
    &&& forall|j: int| 0 <= j < i ==> entries[j].target != target
}

/// Whether there is no entry for `target`.
pub open spec fn none_for(entries: Seq<SubscriptionModel>, target: Seq<char>) -> bool {
    forall|j: int| 0 <= j < entries.len() ==> entries[j].target != target
}

/// The log tap.
pub struct Logger {
    /// What is let through.
    pub max_level: LevelFilter,
    /// The subscribers, one entry per scenario, in the order of the first subscription.
    pub subscriptions: Vec<Subscription>,
}

impl View for Logger {
    type V = Seq<SubscriptionModel>;

    open spec fn view(&self) -> Seq<SubscriptionModel> {
        Seq::new(self.subscriptions@.len(), |i: int| self.subscriptions@[i]@)
    }
}

impl Logger {
    /// A tap without subscribers that lets details through and what is more urgent.
    pub fn new() -> (logger: Self)
        ensures
            logger@ == Seq::<SubscriptionModel>::empty(),
            logger.max_level == LevelFilter::Debug,
    {
        Logger::with_max_level(LevelFilter::Debug)
    }

    /// A tap without subscribers that lets through what `max_level` allows.
    pub fn with_max_level(max_level: LevelFilter) -> (logger: Self)
        ensures
            logger@ == Seq::<SubscriptionModel>::empty(),
            logger.max_level == max_level,
    {
        let logger = Logger { max_level, subscriptions: Vec::new() };
        assert(logger@ =~= Seq::<SubscriptionModel>::empty());
        logger
    }

    /// The place of the first entry for `target`, if there is one.
    fn place_of(&self, target: &Ident) -> (place: Option<usize>)
        ensures
            place is Some ==> first_for(self@, target@, place->Some_0 as int),
            place is None ==> none_for(self@, target@),
    {
        let mut i: usize = 0;
        while i < self.subscriptions.len()
            invariant
                i <= self.subscriptions@.len(),
                forall|j: int| 0 <= j < i ==> self@[j].target != target@,
            decreases self.subscriptions@.len() - i,
        {
            if self.subscriptions[i].target == *target {
                return Some(i);
            }
            i = i + 1;
        }
        None
    }

    /// Makes `sender` a subscriber to the scenario named `target`, behind those that
    /// have subscribed to it before.
    pub fn subscribe(&mut self, target: Ident, sender: UnboundedSender<LogLine>)
        ensures
            final(self).max_level == old(self).max_level,
            forall|i: int|
                first_for(old(self)@, target@, i) ==> final(self)@ == old(self)@.update(
                    i,
                    SubscriptionModel {
                        target: target@,
                        senders: old(self)@[i].senders.push(sender),
                    },
                ),
            none_for(old(self)@, target@) ==> final(self)@ == old(self)@.push(
                SubscriptionModel { target: target@, senders: seq![sender] },
            ),
    {
        match self.place_of(&target) {
            Some(i) => {
                let mut entry = self.subscriptions.remove(i);
                entry.senders.push(sender);
                self.subscriptions.insert(i, entry);
                proof {
                    assert(self@ =~= old(self)@.update(
                        i as int,
                        SubscriptionModel {
                            target: target@,
                            senders: old(self)@[i as int].senders.push(sender),
                        },
                    ));
                    assert forall|k: int| first_for(old(self)@, target@, k) implies k == i by {}
                }
            },
            None => {
                let mut senders: Vec<UnboundedSender<LogLine>> = Vec::new();
                senders.push(sender);
                self.subscriptions.push(Subscription { target, senders });
                proof {
                    assert(self@ =~= old(self)@.push(
                        SubscriptionModel { target: target@, senders: seq![sender] },
                    ));
                    assert forall|k: int| first_for(old(self)@, target@, k) implies false by {}
                }
            },
        }
    }

    /// Hands the record on, if its level is let through: the line made of the time,
    /// `level` and `message` goes to every subscriber to the scenario named `target`, in
    /// the order of subscription. Who does not take it is a subscriber no more. What
    /// comes back tells for each subscriber whether it took the line; where the level is
    /// not let through or nobody has subscribed, nothing happens.
    pub fn log(&mut self, target: &Ident, level: Level, message: &str) -> (taken: Vec<bool>)
        ensures
            final(self).max_level == old(self).max_level,
            (!old(self).max_level.lets_through(level) || none_for(old(self)@, target@)) ==> (
            final(self)@ == old(self)@ && taken@.len() == 0),
            old(self).max_level.lets_through(level) ==> forall|i: int|
                first_for(old(self)@, target@, i) ==> taken@.len() == old(self)@[i].senders.len()
                    && final(self)@ == old(self)@.update(
                    i,
                    SubscriptionModel {
                        target: target@,
                        senders: kept(old(self)@[i].senders, taken@),
                    },
                ),
    {
        if !self.max_level.allows(level) {
            return Vec::new();
        }
        match self.place_of(target) {
            None => {
                proof {
                    assert forall|k: int| first_for(old(self)@, target@, k) implies false by {}
                }
                Vec::new()
            },
            Some(i) => {
                let entry = self.subscriptions.remove(i);
                let ghost before = entry.senders@;
                let Subscription { target: name, senders } = entry;
                let timestamp = local_time("%Y-%m-%d %H:%M:%S");
                let line = format(timestamp.as_str(), level, message);
                let (open, taken) = send_to_all(senders, target, &line);
                self.subscriptions.insert(i, Subscription { target: name, senders: open });
                proof {
                    assert(self@ =~= old(self)@.update(
                        i as int,
                        SubscriptionModel { target: target@, senders: kept(before, taken@) },
                    ));
                    assert forall|k: int| first_for(old(self)@, target@, k) implies k == i by {}
                }
                taken
            },
        }
    }
}

/// Sends `line` to each of `senders` in turn and keeps those that took it.
pub fn send_to_all(senders: Vec<UnboundedSender<LogLine>>, target: &Ident, line: &String) -> (sent:
    (Vec<UnboundedSender<LogLine>>, Vec<bool>))
    ensures
        sent.1@.len() == senders@.len(),
        sent.0@ == kept(senders@, sent.1@),
{
    let mut taken: Vec<bool> = Vec::new();
    let mut i: usize = 0;
    while i < senders.len()
        invariant
            i <= senders@.len(),
            taken@.len() == i,
        decreases senders@.len() - i,
    {
        taken.push(forward(&senders[i], target.clone(), line.clone()));
        i = i + 1;
    }
    let open = retain_open(senders, &taken);
    (open, taken)
}

/// Keeps those of `senders` whose place in `taken` says that they took the line.
pub fn retain_open<T>(senders: Vec<T>, taken: &Vec<bool>) -> (open: Vec<T>)
    requires
        taken@.len() == senders@.len(),
    ensures
        open@ == kept(senders@, taken@),
{
    let mut rest = senders;
    let mut reversed: Vec<T> = Vec::new();
    let ghost all = rest@;
    proof {
        assert(all.take(all.len() as int) =~= all);
        assert(taken@.take(all.len() as int) =~= taken@);
        assert(reversed@.reverse() =~= Seq::<T>::empty());
        assert(kept(all, taken@) + Seq::<T>::empty() =~= kept(all, taken@));
    }
    // Going from the back, what is kept comes out in reverse.
    while rest.len() > 0
        invariant
            rest@.len() <= all.len(),
            taken@.len() == all.len(),
            rest@ == all.take(rest@.len() as int),
            kept(all, taken@) == kept(rest@, taken@.take(rest@.len() as int)) + reversed@.reverse(),
        decreases rest@.len(),
    {
        let ghost n = rest@.len() as int;
        let ghost before = rest@;
        let ghost collected = reversed@;
        let last = rest.pop();
        let keep = taken[rest.len()];
        proof {
            assert(taken@.take(n).last() == keep);
            assert(taken@.take(n).drop_last() =~= taken@.take(n - 1));
            assert(before.drop_last() =~= rest@);
            assert(rest@ =~= all.take(n - 1));
        }
        match last {
            Some(sender) => {
                if keep {
                    reversed.push(sender);
                    proof {
                        assert(reversed@.reverse() =~= seq![sender] + collected.reverse());
                        assert(kept(before, taken@.take(n)) + collected.reverse() =~= kept(
                            rest@,
                            taken@.take(n - 1),
                        ) + reversed@.reverse());
                    }
                }
            },
            None => {},
        }
    }
    proof {
        assert(taken@.take(0) =~= Seq::<bool>::empty());
        assert(kept(rest@, taken@.take(0)) =~= Seq::<T>::empty());
        assert(kept(all, taken@) =~= reversed@.reverse());
    }
    let mut open: Vec<T> = Vec::new();
    while reversed.len() > 0
        invariant
            open@ + reversed@.reverse() == kept(all, taken@),
        decreases reversed@.len(),
    {
        let ghost collected = reversed@;
        let ghost opened = open@;
        let last = reversed.pop();
        match last {
            Some(sender) => {
                open.push(sender);
                proof {
                    assert(collected.reverse() =~= seq![sender] + reversed@.reverse());
                    assert(open@ + reversed@.reverse() =~= opened + collected.reverse());
                }
            },
            None => {},
        }
    }
    assert(open@ + Seq::<T>::empty() =~= open@);
    assert(reversed@.reverse() =~= Seq::<T>::empty());
    open
}

} // verus!
