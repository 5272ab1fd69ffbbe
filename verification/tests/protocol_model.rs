use hurdles::protocol::RoundState;
use hurdles::protocol::arrive;

#[test]
fn ten_arrivals_exactly_one_leader() {
    let mut s = RoundState { capacity: 10, remaining: 10, sense: true };
    // every participant carries the flipped initial sense
    let lsense = false;
    let mut n_leaders: usize = 0;
    for k in 0..10usize {
        // no early release: while participants are missing, the sense flag
        // still holds the old value, so no waiter sees its release condition
        assert_eq!(s.sense, true);
        assert_eq!(s.remaining, 10 - k);
        let (next, leader) = arrive(s, lsense);
        if leader {
            n_leaders += 1;
            assert_eq!(k, 9);
        }
        s = next;
    }
    assert_eq!(n_leaders, 1);
    assert_eq!(s.remaining, 10);
    assert_eq!(s.sense, false);
}

#[test]
fn hundred_rounds_reusable() {
    let mut s = RoundState { capacity: 10, remaining: 10, sense: true };
    for _ in 0..100 {
        let lsense = !s.sense;
        let mut n_leaders: usize = 0;
        for _ in 0..10 {
            assert_eq!(s.sense, !lsense);
            let (next, leader) = arrive(s, lsense);
            if leader {
                n_leaders += 1;
            }
            s = next;
        }
        assert_eq!(n_leaders, 1);
        assert_eq!(s.remaining, 10);
        assert_eq!(s.sense, lsense);
    }
}

#[test]
fn arrive_decrements_and_keeps_sense() {
    let (s2, leader) = arrive(RoundState { capacity: 4, remaining: 4, sense: true }, false);
    assert!(!leader);
    assert_eq!(s2.capacity, 4);
    assert_eq!(s2.remaining, 3);
    assert!(s2.sense);
}

#[test]
fn last_arrival_resets_and_flips() {
    let (s2, leader) = arrive(RoundState { capacity: 4, remaining: 1, sense: true }, false);
    assert!(leader);
    assert_eq!(s2.capacity, 4);
    assert_eq!(s2.remaining, 4);
    assert!(!s2.sense);
}

#[test]
fn solo_round_never_waits() {
    // capacity 1: the sole arrival of every round is immediately the last
    let mut s = RoundState { capacity: 1, remaining: 1, sense: true };
    let mut lsense = false;
    for _ in 0..100 {
        let (next, leader) = arrive(s, lsense);
        assert!(leader);
        assert_eq!(next.remaining, 1);
        assert_eq!(next.sense, lsense);
        s = next;
        lsense = !lsense;
    }
}
