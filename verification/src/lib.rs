//! A multi-way synchronous selection core: given several send or receive
//! candidates on different channels, attempt exactly one of them, blocking
//! only when none can proceed, honoring an optional deadline, and telling
//! "every candidate permanently closed" apart from "timed out".
//!
//! The crate holds the selection state machine alone. The channel endpoints,
//! the thread-parking handle, the spin backoff and the clock are the driver's:
//! the driver offers one candidate at a time, performs the directive the
//! machine hands back, and reports what the outside world answered.

mod machine;
mod select;
mod laws;

pub use machine::{
    AttemptOutcome, Directive, HandleOp, Machine, Pending, State, attempt_applied, draw_spec,
    fresh_machine, handle_op_spec, lemma_live_count_closed, live_at, live_count, machine_inv,
    offer_directive, offer_pending, probe_applied, sel_next, transition_spec, xorshift_spec,
};
pub use laws::{
    candidate_at, lemma_all_closed_disconnects, lemma_at_most_one_winner,
    lemma_counting_accumulates, lemma_deadline_reached_times_out, lemma_each_candidate_live_once,
    lemma_round_live_positions, lemma_terminal_absorbing, lemma_winner_identified, run_counting,
    theorem_counting_finds_size, winner_of,
};
pub use select::{START_SEED, Select};
