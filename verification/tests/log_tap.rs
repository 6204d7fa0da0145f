use futures::channel::mpsc::unbounded;

use traffic_maker::ident::Ident;
use traffic_maker::logger::{
    retain_open, says_word, send_to_all, setup_logging, LevelFilter, LogLine, Logger,
};
use traffic_maker::scenario::Level;

#[test]
fn lines_hold_time_level_and_message() {
    assert_eq!(
        traffic_maker::logger::format("2024-01-02 03:04:05", Level::Info, "Ready to go"),
        "2024-01-02 03:04:05  INFO  Ready to go"
    );
    assert_eq!(traffic_maker::logger::format("t", Level::Error, ""), "t  ERROR  ");
    assert_eq!(traffic_maker::logger::format("", Level::Warn, "w"), "  WARN  w");
    assert_eq!(traffic_maker::logger::format("t", Level::Debug, "d"), "t  DEBUG  d");
    assert_eq!(traffic_maker::logger::format("t", Level::Trace, "x"), "t  TRACE  x");
}

#[test]
fn level_is_read_from_the_setting() {
    assert_eq!(setup_logging(None), LevelFilter::Debug);
    assert_eq!(setup_logging(Some("off")), LevelFilter::Off);
    assert_eq!(setup_logging(Some("ERROR")), LevelFilter::Error);
    assert_eq!(setup_logging(Some("Warn")), LevelFilter::Warn);
    assert_eq!(setup_logging(Some("iNfO")), LevelFilter::Info);
    assert_eq!(setup_logging(Some("debug")), LevelFilter::Debug);
    assert_eq!(setup_logging(Some("TRACE")), LevelFilter::Trace);
    assert_eq!(setup_logging(Some("verbose")), LevelFilter::Debug);
    assert_eq!(setup_logging(Some("")), LevelFilter::Debug);
    assert!(says_word("OfF", "off"));
    assert!(!says_word("of", "off"));
    assert!(!says_word("off ", "off"));
}

#[test]
fn only_open_senders_are_kept() {
    assert_eq!(
        retain_open(vec!['a', 'b', 'c', 'd'], &vec![true, false, false, true]),
        vec!['a', 'd']
    );
    assert_eq!(retain_open(vec![1, 2, 3], &vec![true, true, true]), vec![1, 2, 3]);
    assert_eq!(retain_open(vec![1, 2, 3], &vec![false, false, false]), Vec::<i32>::new());
    assert_eq!(retain_open(Vec::<u8>::new(), &vec![]), Vec::<u8>::new());
}

#[test]
fn records_reach_the_subscribers_of_their_scenario() {
    let mut logger = Logger::new();
    let (first_tx, mut first_rx) = unbounded::<LogLine>();
    let (second_tx, mut second_rx) = unbounded::<LogLine>();
    let (other_tx, mut other_rx) = unbounded::<LogLine>();
    logger.subscribe(Ident::from("st"), first_tx);
    logger.subscribe(Ident::from("other"), other_tx);
    logger.subscribe(Ident::from("st"), second_tx);
    assert_eq!(logger.subscriptions.len(), 2);
    assert_eq!(logger.subscriptions[0].senders.len(), 2);

    assert_eq!(logger.log(&Ident::from("st"), Level::Info, "Ready to go"), vec![true, true]);
    for receiver in [&mut first_rx, &mut second_rx] {
        let (ident, line) = receiver.try_next().unwrap().unwrap();
        assert_eq!(ident, Ident::from("st"));
        assert!(line.ends_with("  INFO  Ready to go"));
        assert_eq!(line.len(), "2024-01-02 03:04:05  INFO  Ready to go".len());
    }
    assert!(other_rx.try_next().is_err());
    assert_eq!(logger.log(&Ident::from("nobody"), Level::Info, "lost"), Vec::<bool>::new());
}

#[test]
fn closed_subscribers_are_removed() {
    let mut logger = Logger::new();
    let (first_tx, first_rx) = unbounded::<LogLine>();
    let (second_tx, mut second_rx) = unbounded::<LogLine>();
    logger.subscribe(Ident::from("st"), first_tx);
    logger.subscribe(Ident::from("st"), second_tx);
    drop(first_rx);
    assert_eq!(logger.log(&Ident::from("st"), Level::Warn, "one"), vec![false, true]);
    assert_eq!(logger.subscriptions[0].senders.len(), 1);
    assert_eq!(logger.log(&Ident::from("st"), Level::Warn, "two"), vec![true]);
    assert!(second_rx.try_next().unwrap().unwrap().1.ends_with("  WARN  one"));
    assert!(second_rx.try_next().unwrap().unwrap().1.ends_with("  WARN  two"));
}

#[test]
fn every_sender_is_tried_in_turn() {
    let (open_tx, mut open_rx) = unbounded::<LogLine>();
    let (closed_tx, closed_rx) = unbounded::<LogLine>();
    drop(closed_rx);
    let (kept, taken) =
        send_to_all(vec![closed_tx, open_tx], &Ident::from("st"), &String::from("line"));
    assert_eq!(taken, vec![false, true]);
    assert_eq!(kept.len(), 1);
    assert_eq!(open_rx.try_next().unwrap().unwrap(), (Ident::from("st"), String::from("line")));
}

#[test]
fn records_below_the_level_are_not_let_through() {
    assert!(LevelFilter::Debug.allows(Level::Debug));
    assert!(!LevelFilter::Debug.allows(Level::Trace));
    assert!(LevelFilter::Trace.allows(Level::Trace));
    assert!(LevelFilter::Error.allows(Level::Error));
    assert!(!LevelFilter::Error.allows(Level::Warn));
    assert!(LevelFilter::Warn.allows(Level::Warn) && !LevelFilter::Warn.allows(Level::Info));
    assert!(LevelFilter::Info.allows(Level::Info) && !LevelFilter::Info.allows(Level::Debug));
    assert!(!LevelFilter::Off.allows(Level::Error));

    let mut logger = Logger::with_max_level(LevelFilter::Info);
    let (sender, mut receiver) = unbounded::<LogLine>();
    logger.subscribe(Ident::from("st"), sender);
    assert_eq!(logger.log(&Ident::from("st"), Level::Debug, "detail"), Vec::<bool>::new());
    assert!(receiver.try_next().is_err());
    assert_eq!(logger.log(&Ident::from("st"), Level::Info, "step"), vec![true]);
    assert!(receiver.try_next().unwrap().unwrap().1.ends_with("  INFO  step"));
    assert_eq!(Logger::new().max_level, LevelFilter::Debug);
}
