use vstd::prelude::*;

verus! {

use crate::machine::{
    Directive, Machine, State, fresh_machine, lemma_live_count_closed, live_at, live_count,
    sel_next,
};

/// The candidate index offered at position `p` of a round, for a caller that
/// offers its `len` candidates twice per round in a fixed order.
pub open spec fn candidate_at(len: usize, p: int) -> int {
    if p < len {
        p
    } else {
        p - len
    }
}

/// Replays one offer per element of `ids` on a machine that is still
/// counting; the clock and the parking handle are never consulted there.
pub open spec fn run_counting(m: Machine, rng: u32, ids: Seq<usize>) -> (Machine, u32)
    decreases ids.len(),
{
    if ids.len() == 0 {
        (m, rng)
    } else {
        let r = sel_next(m, rng, ids[0], 0, 0);
        run_counting(r.0, r.1, ids.subrange(1, ids.len() as int))
    }
}

/// While the first id does not come around again, every offer adds one to
/// the observed candidate count and changes nothing else.
pub proof fn lemma_counting_accumulates(m: Machine, rng: u32, ids: Seq<usize>)
    requires
        m is Counting,
        m->Counting_id_first != 0,
        m->Counting_len + ids.len() <= usize::MAX as int / 2,
        forall|i: int| 0 <= i < ids.len() ==> ids[i] != 0 && ids[i] != m->Counting_id_first,
    ensures
        run_counting(m, rng, ids) == ((
            Machine::Counting {
                len: (m->Counting_len + ids.len()) as usize,
                id_first: m->Counting_id_first,
                deadline: m->Counting_deadline,
            },
            rng,
        )),
    decreases ids.len(),
{
    if ids.len() > 0 {
        let r = sel_next(m, rng, ids[0], 0, 0);
        let rest = ids.subrange(1, ids.len() as int);
        assert(forall|i: int| 0 <= i < rest.len() ==> rest[i] == ids[i + 1]);
        lemma_counting_accumulates(r.0, r.1, rest);
    }
}

/// Exactly as many distinct ids as the caller offers before the first one
/// repeats become the candidate count: after `ids` (the first pass, first id
/// never repeated) the machine still counts, and the repeat of the first id
/// initializes it with `candidate_count == ids.len()`, a fresh `Try` round
/// and a random start below the candidate count.
pub proof fn theorem_counting_finds_size(deadline: Option<u64>, rng: u32, ids: Seq<usize>)
    requires
        1 <= ids.len(),
        ids.len() + 1 <= usize::MAX as int / 2,
        forall|i: int| 0 <= i < ids.len() ==> ids[i] != 0,
        forall|i: int| 1 <= i < ids.len() ==> #[trigger] ids[i] != ids[0],
    ensures
        run_counting(fresh_machine(deadline), rng, ids).0 == (Machine::Counting {
            len: ids.len() as usize,
            id_first: ids[0],
            deadline,
        }),
        run_counting(fresh_machine(deadline), rng, ids).1 == rng,
        ({
            let fin = sel_next(run_counting(fresh_machine(deadline), rng, ids).0, rng, ids[0], 0, 0);
            &&& fin.0 matches Machine::Initialized { pos, state, len, start, deadline: d2 }
            &&& fin.0->Initialized_pos == 1
            &&& fin.0->Initialized_state == (State::Try { closed_count: 0usize })
            &&& fin.0->Initialized_len == ids.len()
            &&& fin.0->Initialized_start < ids.len()
            &&& fin.0->Initialized_deadline == deadline
        }),
{
    let first = sel_next(fresh_machine(deadline), rng, ids[0], 0, 0);
    let rest = ids.subrange(1, ids.len() as int);
    assert(forall|i: int| 0 <= i < rest.len() ==> rest[i] == ids[i + 1]);
    lemma_counting_accumulates(first.0, first.1, rest);
    assert(run_counting(fresh_machine(deadline), rng, ids) == run_counting(
        first.0,
        first.1,
        rest,
    ));
}

/// Each round sweeps exactly `candidate_count` live positions, whatever the
/// random start.
pub proof fn lemma_round_live_positions(start: usize, len: usize)
    requires
        start < len,
    ensures
        live_count(start, len, 2 * (len as int)) == len as int,
{
    lemma_live_count_closed(start, len, 2 * (len as int));
}

/// In one round, each candidate owns exactly one live position: some live
/// position offers it, and no two live positions offer the same candidate.
pub proof fn lemma_each_candidate_live_once(start: usize, len: usize, i: int)
    requires
        start < len,
        0 <= i < len,
    ensures
        exists|p: int|
            #[trigger] live_at(start, len, p) && 0 <= p < 2 * len && candidate_at(len, p) == i,
        forall|p1: int, p2: int|
            #[trigger] live_at(start, len, p1) && #[trigger] live_at(start, len, p2) && 0 <= p1 < 2
                * len && 0 <= p2 < 2 * len && candidate_at(len, p1) == candidate_at(len, p2)
                ==> p1 == p2,
{
    let p = if i >= start {
        i
    } else {
        i + len
    };
    assert(live_at(start, len, p) && 0 <= p < 2 * len && candidate_at(len, p) == i);
}

/// The id a `Complete { winner: true }` directive would name: the round's
/// winner, or the id on the parking handle when the retraction round is just
/// completing.
pub open spec fn winner_of(m: Machine, selected: usize) -> Option<usize> {
    match m {
        Machine::Initialized { pos, state, len, .. } => {
            if pos < 2 * len {
                match state {
                    State::FinalTry { id } => Some(id),
                    _ => None,
                }
            } else {
                match state {
                    State::Unsubscribe => Some(selected),
                    _ => None,
                }
            }
        },
        _ => None,
    }
}

/// A `Complete` directive carries `winner` exactly when the offered id is
/// the round's winner.
pub proof fn lemma_winner_identified(m: Machine, rng: u32, id: usize, now: u64, selected: usize)
    ensures
        sel_next(m, rng, id, now, selected).3 matches Directive::Complete { winner } ==> (winner
            <==> winner_of(m, selected) == Some(id)),
{
}

/// Two offers of different ids, made against the same round winner, never
/// both complete the real transfer: per selection, at most one candidate
/// wins.
pub proof fn lemma_at_most_one_winner(
    m1: Machine,
    m2: Machine,
    rng1: u32,
    rng2: u32,
    id1: usize,
    id2: usize,
    now1: u64,
    now2: u64,
    selected: usize,
)
    requires
        id1 != id2,
        winner_of(m1, selected) == winner_of(m2, selected),
    ensures
        !(sel_next(m1, rng1, id1, now1, selected).3 == (Directive::Complete { winner: true })
            && sel_next(m2, rng2, id2, now2, selected).3 == (Directive::Complete { winner: true })),
{
    lemma_winner_identified(m1, rng1, id1, now1, selected);
    lemma_winner_identified(m2, rng2, id2, now2, selected);
}

/// When an optimistic round ends with every candidate counted as closed, the
/// machine settles into `Disconnected`.
pub proof fn lemma_all_closed_disconnects(m: Machine, rng: u32, id: usize, now: u64, selected: usize)
    requires
        m matches Machine::Initialized { pos, state: State::Try { closed_count }, len, .. } && pos
            >= 2 * len && closed_count == len,
    ensures
        sel_next(m, rng, id, now, selected).0 matches Machine::Initialized {
            state: State::Disconnected,
            ..
        },
{
}

/// Terminal states absorb: the state never changes again, every offer is
/// declined, and the machine never again asks the driver to block or to
/// touch an endpoint.
pub proof fn lemma_terminal_absorbing(m: Machine, rng: u32, id: usize, now: u64, selected: usize)
    requires
        m matches Machine::Initialized { state, .. } && (state is TimedOut || state is Disconnected),
    ensures
        sel_next(m, rng, id, now, selected).0 matches Machine::Initialized { state, .. } && state
            == m->Initialized_state,
        sel_next(m, rng, id, now, selected).3 == Directive::Skip || sel_next(m, rng, id, now, selected).3
            == Directive::Dead,
        sel_next(m, rng, id, now, selected).2 is Idle,
{
}

/// Once the deadline has passed, the next completed `FinalTry` round settles
/// the machine into `TimedOut`; with the lemma above, no later offer blocks.
pub proof fn lemma_deadline_reached_times_out(
    m: Machine,
    rng: u32,
    id: usize,
    now: u64,
    selected: usize,
)
    requires
        m matches Machine::Initialized {
            pos,
            state: State::FinalTry { .. },
            len,
            deadline: Some(end),
            ..
        } && pos >= 2 * len && now >= end,
    ensures
        sel_next(m, rng, id, now, selected).0 matches Machine::Initialized {
            state: State::TimedOut,
            ..
        },
{
}

} // verus!
