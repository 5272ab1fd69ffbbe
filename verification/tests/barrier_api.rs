use hurdles::Barrier;

#[test]
fn solo_checkpoint_is_leader() {
    // capacity 1: the sole participant is always the last to arrive, so the
    // call returns immediately with the leader result (it could not return
    // at all on a single thread if it spun)
    let mut b = Barrier::new(1);
    let r = b.wait();
    assert!(r.is_leader());
}

#[test]
fn solo_barrier_reusable_many_rounds() {
    let mut b = Barrier::new(1);
    for _ in 0..100 {
        assert!(b.wait().is_leader());
    }
}

#[test]
fn replicate_before_use_allowed() {
    let mut b = Barrier::new(1);
    let mut c = b.replicate();
    let mut d = c.try_replicate().expect("an unused handle can be replicated");
    // all three handles reference the same capacity-1 group: every call
    // empties the counter itself and returns at once as the leader
    assert!(b.wait().is_leader());
    assert!(c.wait().is_leader());
    assert!(d.wait().is_leader());
}

#[test]
fn replicate_after_use_is_rejected() {
    let mut b = Barrier::new(1);
    assert!(b.try_replicate().is_some());
    b.wait();
    assert!(b.try_replicate().is_none());
    // deterministically, every time
    b.wait();
    assert!(b.try_replicate().is_none());
}

#[test]
fn last_arrival_takes_leader_result() {
    let b = Barrier::new(5);
    // an arrival that observed the counter at 1 emptied it: leader
    let r = b.complete_arrival(1);
    assert!(r.is_leader());
}

#[test]
fn non_last_arrival_is_not_leader() {
    let b = Barrier::new(5);
    // on a fresh group the sense flag still equals this handle's unflipped
    // local sense, so completing a non-last arrival returns at once
    let r = b.complete_arrival(3);
    assert!(!r.is_leader());
}
