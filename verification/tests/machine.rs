// Fine-grained traces of the selection machine: one candidate, every
// directive checked step by step against the protocol's documented rounds.

use chan_select::{AttemptOutcome, Directive, HandleOp, Select};

#[test]
fn fresh_selection_is_not_terminal() {
    let s = Select::new();
    assert!(!s.timed_out());
    assert!(!s.disconnected());
    let t = Select::with_timeout(7, 50);
    assert!(!t.timed_out());
    assert!(!t.disconnected());
}

#[test]
fn first_offer_only_counts() {
    let mut s = Select::new();
    let d = s.step(5, 0, 0);
    assert_eq!(d, Directive::Skip);
    assert!(!s.timed_out());
    assert!(!s.disconnected());
}

#[test]
fn first_repeat_initializes_and_opens_a_try_round() {
    let mut s = Select::new();
    assert_eq!(s.step(5, 0, 0), Directive::Skip);
    // the repeat of the first id ends counting; with one candidate the live
    // window must open at position 0
    assert_eq!(s.step(5, 0, 0), Directive::Attempt);
    assert!(!s.resolve_attempt(AttemptOutcome::Busy));
}

#[test]
fn one_candidate_walks_the_whole_protocol() {
    let mut s = Select::new();
    assert_eq!(s.step(5, 0, 0), Directive::Skip);
    // Try round: one live position, one dormant position
    assert_eq!(s.step(5, 0, 0), Directive::Attempt);
    assert!(!s.resolve_attempt(AttemptOutcome::Busy));
    assert_eq!(s.step(5, 0, 0), Directive::Skip);
    // round boundary: clear the wake marker, then the registration round
    assert_eq!(s.step(5, 0, 0), Directive::Boundary(HandleOp::Clear));
    assert_eq!(s.step(5, 0, 0), Directive::Enroll);
    assert!(s.resolve_probe(false, true));
    assert_eq!(s.step(5, 0, 0), Directive::Skip);
    // boundary again: park (no closed registration, so no premark)
    assert_eq!(s.step(5, 0, 0), Directive::Boundary(HandleOp::Park { premark: false }));
    // woken by candidate 5: retraction round, then the final attempt
    assert_eq!(s.step(5, 0, 5), Directive::Withdraw);
    assert_eq!(s.step(5, 0, 5), Directive::Skip);
    assert_eq!(s.step(5, 0, 5), Directive::Complete { winner: true });
    assert!(!s.timed_out());
    assert!(!s.disconnected());
}

#[test]
fn final_attempt_needs_the_woken_id() {
    let mut s = Select::new();
    assert_eq!(s.step(5, 0, 0), Directive::Skip);
    assert_eq!(s.step(5, 0, 0), Directive::Attempt);
    assert!(!s.resolve_attempt(AttemptOutcome::Busy));
    assert_eq!(s.step(5, 0, 0), Directive::Skip);
    assert_eq!(s.step(5, 0, 0), Directive::Boundary(HandleOp::Clear));
    assert_eq!(s.step(5, 0, 0), Directive::Enroll);
    assert!(!s.resolve_probe(false, false));
    assert_eq!(s.step(5, 0, 0), Directive::Skip);
    assert_eq!(s.step(5, 0, 0), Directive::Boundary(HandleOp::Park { premark: false }));
    // woken with a foreign id: the candidate must not transfer
    assert_eq!(s.step(5, 0, 9), Directive::Withdraw);
    assert_eq!(s.step(5, 0, 9), Directive::Skip);
    assert_eq!(s.step(5, 0, 9), Directive::Complete { winner: false });
}

#[test]
fn closed_candidate_disconnects_the_selection() {
    let mut s = Select::new();
    assert_eq!(s.step(5, 0, 0), Directive::Skip);
    assert_eq!(s.step(5, 0, 0), Directive::Attempt);
    assert!(!s.resolve_attempt(AttemptOutcome::Closed));
    assert_eq!(s.step(5, 0, 0), Directive::Skip);
    // every candidate counted closed: terminal, and the offer is declined
    assert_eq!(s.step(5, 0, 0), Directive::Dead);
    assert!(s.disconnected());
    assert!(!s.timed_out());
    // terminal states absorb: later offers never block and never act
    for _ in 0..6 {
        let d = s.step(5, 0, 0);
        assert!(d == Directive::Dead || d == Directive::Skip);
    }
    assert!(s.disconnected());
}

#[test]
fn deadline_is_checked_at_the_final_try_edge() {
    // deadline at tick 150; the round that completes at tick 149 retries,
    // the round that completes at tick 150 times out
    let mut s = Select::with_timeout(100, 50);
    assert_eq!(s.step(5, 100, 0), Directive::Skip);
    assert_eq!(s.step(5, 100, 0), Directive::Attempt);
    assert!(!s.resolve_attempt(AttemptOutcome::Busy));
    assert_eq!(s.step(5, 100, 0), Directive::Skip);
    assert_eq!(s.step(5, 100, 0), Directive::Boundary(HandleOp::Clear));
    assert_eq!(s.step(5, 100, 0), Directive::Enroll);
    assert!(!s.resolve_probe(false, false));
    assert_eq!(s.step(5, 100, 0), Directive::Skip);
    assert_eq!(s.step(5, 149, 0), Directive::Boundary(HandleOp::Park { premark: false }));
    assert_eq!(s.step(5, 149, 0), Directive::Withdraw);
    assert_eq!(s.step(5, 149, 0), Directive::Skip);
    assert_eq!(s.step(5, 149, 0), Directive::Complete { winner: false });
    assert_eq!(s.step(5, 149, 0), Directive::Skip);
    // boundary reached one tick before the deadline: a fresh Try round
    assert_eq!(s.step(5, 149, 0), Directive::Attempt);
    assert!(!s.timed_out());
    assert!(!s.resolve_attempt(AttemptOutcome::Busy));
    assert_eq!(s.step(5, 150, 0), Directive::Skip);
    assert_eq!(s.step(5, 150, 0), Directive::Boundary(HandleOp::Clear));
    assert_eq!(s.step(5, 150, 0), Directive::Enroll);
    assert!(!s.resolve_probe(false, false));
    assert_eq!(s.step(5, 150, 0), Directive::Skip);
    assert_eq!(s.step(5, 150, 0), Directive::Boundary(HandleOp::Park { premark: false }));
    assert_eq!(s.step(5, 150, 0), Directive::Withdraw);
    assert_eq!(s.step(5, 150, 0), Directive::Skip);
    assert_eq!(s.step(5, 150, 0), Directive::Complete { winner: false });
    assert_eq!(s.step(5, 150, 0), Directive::Skip);
    // the round completed at the deadline: terminal
    assert_eq!(s.step(5, 150, 0), Directive::Dead);
    assert!(s.timed_out());
    assert!(!s.disconnected());
}

#[test]
fn counting_observes_every_candidate_once() {
    let mut s = Select::new();
    assert_eq!(s.step(10, 0, 0), Directive::Skip);
    assert_eq!(s.step(20, 0, 0), Directive::Skip);
    assert_eq!(s.step(30, 0, 0), Directive::Skip);
    // the repeat of the first id fixes candidate_count at 3: from here on,
    // each round must carry exactly 3 live positions over 6 offers
    let ids: [usize; 3] = [10, 20, 30];
    let mut attempts: u32 = 0;
    let mut offers: u32 = 0;
    let mut k: usize = 0;
    loop {
        let d = s.step(ids[k], 0, 0);
        match d {
            Directive::Boundary(g) => {
                // first boundary: the Try round is over
                assert_eq!(g, HandleOp::Clear);
                assert_eq!(offers, 6);
                break;
            }
            Directive::Attempt => {
                attempts += 1;
                offers += 1;
                assert!(!s.resolve_attempt(AttemptOutcome::Busy));
                k = (k + 1) % 3;
            }
            Directive::Skip => {
                offers += 1;
                k = (k + 1) % 3;
            }
            other => panic!("unexpected directive {:?}", other),
        }
    }
    assert_eq!(attempts, 3);
}
