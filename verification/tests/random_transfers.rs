use traffic_maker::interval::Interval;
use traffic_maker::random_transfers::{
    delays_from_cuts, get_random_delays, pairs_for, Direction, RandomTransfers, TransferMode,
    TransferPlan,
};
use traffic_maker::scenario::ScenarioError;

#[test]
fn gen_random_vector_that_sum_up_to_target() {
    let random = get_random_delays(100, 10);

    assert_eq!(10, random.len());
    assert_eq!(100, random.into_iter().sum::<u128>());
}

#[test]
fn delays_are_the_stretches_between_the_cuts() {
    assert_eq!(delays_from_cuts(100, &vec![10, 10, 45, 99]), vec![10, 0, 35, 54, 1]);
    assert_eq!(delays_from_cuts(7, &vec![]), vec![7]);
}

#[test]
fn nothing_to_split_gives_delays_of_nothing() {
    assert_eq!(get_random_delays(0, 4), vec![0, 0, 0, 0]);
    assert_eq!(get_random_delays(5, 1), vec![5]);
}

#[test]
fn one_sender_pairs_with_every_other_account() {
    let pairs = pairs_for(Direction::OneToMany, 7);
    assert_eq!(pairs.len(), 99);
    assert_eq!(pairs[0], (7, 0));
    assert_eq!(pairs[6], (7, 6));
    assert_eq!(pairs[7], (7, 8));
    assert_eq!(pairs[98], (7, 99));
}

#[test]
fn one_receiver_pairs_with_every_other_account() {
    let pairs = pairs_for(Direction::ManyToOne, 0);
    assert_eq!(pairs.len(), 99);
    assert_eq!(pairs[0], (1, 0));
    assert_eq!(pairs[98], (99, 0));
}

#[test]
fn any_may_send_to_any_other() {
    let pairs = pairs_for(Direction::ManyToMany, 0);
    assert_eq!(pairs.len(), 9900);
    assert_eq!(pairs[0], (1, 0));
    assert_eq!(pairs[98], (99, 0));
    assert_eq!(pairs[99], (0, 1));
    assert!(pairs.iter().all(|(s, r)| s != r));
}

fn scenario(mode: TransferMode, transfers: usize) -> RandomTransfers {
    RandomTransfers {
        direction: Direction::ManyToMany,
        transfer_mode: mode,
        transfers,
        transfer_value: 2,
    }
}

#[test]
fn designated_pairs_are_distinct_and_possible() {
    let pairs = scenario(TransferMode::Sequential, 25).designate_pairs();
    assert_eq!(pairs.len(), 25);
    for (i, (s, r)) in pairs.iter().enumerate() {
        assert!(s != r && *s < 100 && *r < 100);
        assert!(!pairs[..i].contains(&(*s, *r)));
    }
    let few = RandomTransfers {
        direction: Direction::OneToMany,
        transfer_mode: TransferMode::Sequential,
        transfers: 500,
        transfer_value: 1,
    }
    .designate_pairs();
    assert_eq!(few.len(), 99);
}

#[test]
fn span_shorter_than_a_second_per_transfer_is_bad_config() {
    let pairs = vec![(0, 1), (1, 2), (2, 3)];
    let within = scenario(TransferMode::Span(Interval::from_millis(2999)), 3);
    assert_eq!(
        within.send_within_span(Interval::from_millis(2999), &pairs).err(),
        Some(ScenarioError::BadConfig)
    );
    assert!(matches!(within.send_transfers(&pairs), Err(ScenarioError::BadConfig)));
}

#[test]
fn span_is_filled_with_pauses_that_add_up() {
    let pairs = vec![(0, 1), (1, 2), (2, 3)];
    let within = scenario(TransferMode::Span(Interval::from_millis(4500)), 3);
    let transfers = within.send_within_span(Interval::from_millis(4500), &pairs).unwrap();
    assert_eq!(transfers.len(), 3);
    let pauses: u128 = transfers.iter().map(|t| t.delay.as_millis()).sum();
    assert_eq!(pauses, 1500);
    assert!(transfers.iter().all(|t| t.amount == 2_000_000_000_000));
    let exact = within.send_within_span(Interval::from_millis(3000), &pairs).unwrap();
    assert!(exact.iter().all(|t| t.delay.as_nanos() == 0));
}

#[test]
fn batch_is_paid_by_the_first_sender() {
    let pairs = vec![(5, 1), (1, 2)];
    match scenario(TransferMode::Batched, 2).send_transfers(&pairs) {
        Ok(TransferPlan::InBatch { transfers, payer, event_timeout, .. }) => {
            assert_eq!(payer, 5);
            assert_eq!(event_timeout, Interval::from_secs(1));
            assert_eq!(transfers.len(), 2);
            assert_eq!((transfers[1].sender, transfers[1].receiver), (1, 2));
        }
        _ => panic!("a batch was expected"),
    }
    assert!(matches!(
        scenario(TransferMode::Batched, 0).send_transfers(&vec![]),
        Err(ScenarioError::BadConfig)
    ));
}

#[test]
fn delay_follows_every_transfer() {
    let pairs = vec![(5, 1), (1, 2)];
    match scenario(TransferMode::WithDelay(Interval::from_millis(250)), 2).send_transfers(&pairs) {
        Ok(TransferPlan::InTurn(transfers)) => {
            assert!(transfers.iter().all(|t| t.delay == Interval::from_millis(250)));
        }
        _ => panic!("transfers in turn were expected"),
    }
    match scenario(TransferMode::Sequential, 2).send_transfers(&pairs) {
        Ok(TransferPlan::InTurn(transfers)) => {
            assert!(transfers.iter().all(|t| t.delay.as_nanos() == 0));
        }
        _ => panic!("transfers in turn were expected"),
    }
}

#[test]
fn more_transfers_than_pairs_take_every_pair_once() {
    let all = RandomTransfers {
        direction: Direction::ManyToOne,
        transfer_mode: TransferMode::Sequential,
        transfers: usize::MAX,
        transfer_value: 1,
    }
    .designate_pairs();
    assert_eq!(all.len(), 99);
    for (i, pair) in all.iter().enumerate() {
        assert!(!all[..i].contains(pair));
    }
    let none = scenario(TransferMode::Sequential, 0).designate_pairs();
    assert!(none.is_empty());
}

#[test]
fn long_lists_of_pairs_are_held_to_the_span_as_well() {
    let pairs: Vec<(usize, usize)> = (0..10_001).map(|i| (i % 100, (i + 1) % 100)).collect();
    let short = Interval::from_millis(10_000_999);
    let within = scenario(TransferMode::Span(short), 10_001);
    assert_eq!(within.send_within_span(short, &pairs).err(), Some(ScenarioError::BadConfig));
    assert!(matches!(within.send_transfers(&pairs), Err(ScenarioError::BadConfig)));
    let enough = Interval::from_millis(10_001_000);
    let transfers = within.send_within_span(enough, &pairs).unwrap();
    assert_eq!(transfers.len(), 10_001);
    assert!(transfers.iter().all(|t| t.delay.as_nanos() == 0));
}
