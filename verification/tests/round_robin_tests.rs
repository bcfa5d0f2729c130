use collab::round_robin::{list_round_ended, PollOutcome, PollRound, RoundStep};

fn first_index(seed: u64, n: usize) -> (usize, u64) {
    let mut rng = fastrand::Rng::with_seed(seed);
    let i = rng.usize(0..n);
    (i, rng.get_seed())
}

#[test]
fn empty_list_has_no_round() {
    let mut seed = 5;
    assert!(PollRound::start(0, &mut seed).is_none());
    assert_eq!(seed, 5);
}

#[test]
fn round_starts_where_fastrand_says() {
    for (seed, n) in [(0u64, 1usize), (1, 5), (99, 7), (u64::MAX, 3)] {
        let mut s = seed;
        let round = PollRound::start(n, &mut s).unwrap();
        let (i, next) = first_index(seed, n);
        assert_eq!(round.current(), i);
        assert_eq!(s, next);
        assert_ne!(s, seed);
    }
}

/// Simulates a round over streams (`true` if the stream ended), none of
/// which yields, and returns the streams polled and the ones left.
fn run_round(ended: Vec<bool>, seed: u64) -> (Vec<usize>, Vec<usize>) {
    let mut s = seed;
    let round = PollRound::start(ended.len(), &mut s).unwrap();
    run_from(ended, round)
}

fn run_from(ended: Vec<bool>, mut round: PollRound) -> (Vec<usize>, Vec<usize>) {
    let mut streams: Vec<(usize, bool)> = ended.into_iter().enumerate().collect();
    let mut polled = Vec::new();
    let mut idx = round.current();
    loop {
        let (name, is_ended) = streams[idx];
        polled.push(name);
        let outcome = if is_ended { PollOutcome::Ended } else { PollOutcome::Pending };
        match round.advance(outcome) {
            RoundStep::Yield => unreachable!(),
            RoundStep::Poll(i) => idx = i,
            RoundStep::RemoveThenPoll(at) => {
                streams.remove(at);
                idx = round.current();
            },
            RoundStep::EndOfRound(removed) => {
                if let Some(at) = removed {
                    streams.remove(at);
                }
                break;
            },
        }
    }
    (polled, streams.into_iter().map(|(n, _)| n).collect())
}

#[test]
fn pending_streams_are_each_polled_once() {
    for seed in 0..20u64 {
        let (mut polled, left) = run_round(vec![false; 4], seed);
        assert_eq!(polled.len(), 4);
        polled.sort();
        assert_eq!(polled, vec![0, 1, 2, 3]);
        assert_eq!(left.len(), 4);
        assert!(!list_round_ended(left.len()));
    }
}

#[test]
fn polled_ended_streams_leave_the_list() {
    let ended = [true, false, true, false, true];
    for seed in 0..20u64 {
        let (polled, left) = run_round(ended.to_vec(), seed);
        assert_eq!(polled.len(), 5);
        for name in 0..5 {
            let was_polled = polled.contains(&name);
            let is_left = left.contains(&name);
            assert!(was_polled);
            assert_eq!(is_left, !ended[name]);
        }
    }
}

#[test]
fn a_removal_skips_no_stream() {
    // With the list [ended, pending, ended, pending, ended] and the round
    // starting at position 3, every stream is polled once and every ended
    // one leaves the list.
    let (polled, left) = run_from(vec![true, false, true, false, true], PollRound::starting_at(5, 3));
    assert_eq!(polled, vec![3, 4, 0, 1, 2]);
    assert_eq!(left, vec![1, 3]);
}

#[test]
fn ended_stream_beside_a_pending_one_is_removed() {
    for seed in 0..50u64 {
        let (mut polled, left) = run_round(vec![true, false], seed);
        polled.sort();
        assert_eq!(polled, vec![0, 1]);
        assert_eq!(left, vec![1]);
        assert!(!list_round_ended(left.len()));
    }
}

#[test]
fn every_stream_is_polled_exactly_once_per_round() {
    for n in 1..8usize {
        for pattern in 0..(1u32 << n) {
            let ended: Vec<bool> = (0..n).map(|i| pattern & (1 << i) != 0).collect();
            for start in 0..n {
                let (mut polled, left) = run_from(ended.clone(), PollRound::starting_at(n, start));
                let expected_order: Vec<usize> = (start..n).chain(0..start).collect();
                assert_eq!(polled, expected_order);
                polled.sort();
                assert_eq!(polled, (0..n).collect::<Vec<_>>());
                let expected_left: Vec<usize> = (0..n).filter(|&i| !ended[i]).collect();
                assert_eq!(left, expected_left);
            }
        }
    }
}

#[test]
fn all_ended_ends_the_list() {
    for seed in 0..10u64 {
        let (_, left) = run_round(vec![true; 3], seed);
        assert!(left.is_empty());
        assert!(list_round_ended(left.len()));
    }
}

#[test]
fn item_is_yielded_at_once() {
    let mut s = 3;
    let mut round = PollRound::start(2, &mut s).unwrap();
    assert_eq!(round.advance(PollOutcome::Item), RoundStep::Yield);
}

#[test]
fn round_from_the_start_polls_in_order() {
    let (polled, left) = run_from(vec![false, false, false], PollRound::starting_at(3, 0));
    assert_eq!(polled, vec![0, 1, 2]);
    assert_eq!(left, vec![0, 1, 2]);
    let (polled, _) = run_from(vec![false, false, false], PollRound::starting_at(3, 2));
    assert_eq!(polled, vec![2, 0, 1]);
}

#[test]
fn rounds_from_the_same_seed_start_at_the_same_place() {
    for seed in [0u64, 7, 1234] {
        let (mut a, mut b) = (seed, seed);
        let ra = PollRound::start(9, &mut a).unwrap();
        let rb = PollRound::start(9, &mut b).unwrap();
        assert_eq!(ra.current(), rb.current());
        assert_eq!(a, b);
        assert_ne!(a, seed);
    }
}
