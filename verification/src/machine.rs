use vstd::prelude::*;

verus! {

/// Protocol state governing one round of offers.
///
/// `TimedOut` and `Disconnected` are terminal: once reached, no further
/// transition occurs and every later offer is declined.
#[derive(Clone, Copy, Debug)]
pub enum State {
    /// Optimistic pass: each live offer makes a bounded immediate attempt.
    /// `closed_count` counts the candidates found permanently closed.
    Try { closed_count: usize },
    /// Registration pass: each live offer announces intent on its endpoint.
    /// `closed_countdown` starts at the closed count carried over from `Try`
    /// and drops by one for each candidate found closed while registering.
    Subscribe { closed_countdown: isize },
    /// Retraction pass: each live offer withdraws the registration made above.
    Unsubscribe,
    /// One real transfer, restricted to the candidate whose id woke the thread.
    FinalTry { id: usize },
    /// The deadline passed; terminal.
    TimedOut,
    /// Every candidate was permanently closed; terminal.
    Disconnected,
}

/// The selection machine: first it counts the candidate set by watching the
/// offer pattern, then it steps rounds of `2 * len` positions under a
/// protocol state. The move from `Counting` to `Initialized` is one-way.
#[derive(Clone, Copy, Debug)]
pub enum Machine {
    Counting { len: usize, id_first: usize, deadline: Option<u64> },
    Initialized { pos: usize, state: State, len: usize, start: usize, deadline: Option<u64> },
}

/// What the machine still expects from the driver for the offer just issued.
#[derive(Clone, Copy, Debug)]
pub enum Pending {
    Idle,
    /// An `Attempt` directive is out; `resolve_attempt` must come next.
    AwaitAttempt,
    /// An `Enroll` directive is out; `resolve_probe` must come next.
    AwaitProbe,
}

/// An action on the thread's parking handle, due before the same candidate is
/// offered again.
#[derive(Clone, Copy, Debug, PartialEq, Eq, Structural)]
pub enum HandleOp {
    /// Clear the stale wake marker before the registration pass.
    Clear,
    /// Block until woken or until the deadline; with `premark`, mark the
    /// handle as already woken first (every registration was already closed).
    Park { premark: bool },
}

/// What the driver must do with the candidate it just offered.
#[derive(Clone, Copy, Debug, PartialEq, Eq, Structural)]
pub enum Directive {
    /// Dormant position, or still counting: decline the offer, do nothing.
    Skip,
    /// Round boundary: perform the handle action, then offer the same candidate
    /// again.
    Boundary(HandleOp),
    /// Make the bounded immediate attempt, then report it to
    /// `resolve_attempt`.
    Attempt,
    /// Register intent on the endpoint, then report the endpoint's closed and
    /// ready probes to `resolve_probe`.
    Enroll,
    /// Withdraw the registration; the offer is declined.
    Withdraw,
    /// Final pass: with `winner`, perform the one real transfer; without it,
    /// leave the endpoint alone and decline the offer.
    Complete { winner: bool },
    /// The machine is terminal: decline the offer.
    Dead,
}

/// Outcome of the bounded immediate attempt made for an `Attempt` directive.
#[derive(Clone, Copy, Debug, PartialEq, Eq, Structural)]
pub enum AttemptOutcome {
    /// The transfer happened.
    Done,
    /// The endpoint is permanently closed.
    Closed,
    /// Only transient failure before the attempt budget ran out.
    Busy,
}

/// One step of the xorshift generator that draws the random round start.
pub open spec fn xorshift_spec(x: u32) -> u32 {
    let a = x ^ (x << 13u32);
    let b = a ^ (a >> 17u32);
    b ^ (b << 5u32)
}

/// The draw of a round start below `ceil` from a generator state.
pub open spec fn draw_spec(x: u32, ceil: usize) -> usize {
    if ceil == 0 {
        0usize
    } else {
        ((x as int) % (ceil as int)) as usize
    }
}

/// Whether position `p` of a round is live: the live window covers the
/// `len` positions starting at `start`.
pub open spec fn live_at(start: usize, len: usize, p: int) -> bool {
    start <= p < start + len
}

/// How many of the positions before `pos` are live.
pub open spec fn live_count(start: usize, len: usize, pos: int) -> int
    decreases pos,
{
    if pos <= 0 {
        0
    } else {
        live_count(start, len, pos - 1) + if live_at(start, len, pos - 1) {
            1int
        } else {
            0int
        }
    }
}

/// The count of live positions in closed form: none before `start`, all
/// `len` once the window has been swept.
pub proof fn lemma_live_count_closed(start: usize, len: usize, pos: int)
    requires
        0 <= pos,
    ensures
        live_count(start, len, pos) == if pos <= start {
            0int
        } else if pos >= start + len {
            len as int
        } else {
            pos - start
        },
    decreases pos,
{
    if pos > 0 {
        lemma_live_count_closed(start, len, pos - 1);
    }
}

/// The protocol state reached when a round completes, given the clock `now`
/// and the id `selected` currently recorded on the parking handle.
pub open spec fn transition_spec(
    s: State,
    len: usize,
    deadline: Option<u64>,
    now: u64,
    selected: usize,
) -> State {
    match s {
        State::Try { closed_count } => if closed_count < len {
            State::Subscribe { closed_countdown: closed_count as isize }
        } else {
            State::Disconnected
        },
        State::Subscribe { .. } => State::Unsubscribe,
        State::Unsubscribe => State::FinalTry { id: selected },
        State::FinalTry { .. } => if deadline matches Some(end) && now >= end {
            State::TimedOut
        } else {
            State::Try { closed_count: 0 }
        },
        State::TimedOut => State::TimedOut,
        State::Disconnected => State::Disconnected,
    }
}

/// The parking-handle action owed when a round completes under `s`.
pub open spec fn handle_op_spec(s: State, len: usize) -> Option<HandleOp> {
    match s {
        State::Try { closed_count } => if closed_count < len {
            Some(HandleOp::Clear)
        } else {
            None
        },
        State::Subscribe { closed_countdown } => Some(
            HandleOp::Park { premark: closed_countdown < 0 },
        ),
        _ => None,
    }
}

/// The directive issued for an offer of candidate `id`, given the governing
/// state and whether the position is live.
pub open spec fn offer_directive(s: State, live: bool, id: usize) -> Directive {
    if !live {
        Directive::Skip
    } else {
        match s {
            State::Try { .. } => Directive::Attempt,
            State::Subscribe { .. } => Directive::Enroll,
            State::Unsubscribe => Directive::Withdraw,
            State::FinalTry { id: winner_id } => Directive::Complete { winner: id == winner_id },
            State::TimedOut => Directive::Dead,
            State::Disconnected => Directive::Dead,
        }
    }
}

/// What the machine awaits after issuing the directive above.
pub open spec fn offer_pending(s: State, live: bool) -> Pending {
    if !live {
        Pending::Idle
    } else {
        match s {
            State::Try { .. } => Pending::AwaitAttempt,
            State::Subscribe { .. } => Pending::AwaitProbe,
            _ => Pending::Idle,
        }
    }
}

/// The whole effect of one offer: the machine and generator afterwards, what
/// is awaited, and the directive handed to the driver.
pub open spec fn sel_next(m: Machine, rng: u32, id: usize, now: u64, selected: usize) -> (
    Machine,
    u32,
    Pending,
    Directive,
) {
    match m {
        Machine::Counting { len, id_first, deadline } => {
            if id_first == id {
                let r2 = xorshift_spec(rng);
                let start = draw_spec(r2, len);
                let st = State::Try { closed_count: 0 };
                let live = live_at(start, len, 0);
                (
                    Machine::Initialized { pos: 1, state: st, len, start, deadline },
                    r2,
                    offer_pending(st, live),
                    offer_directive(st, live, id),
                )
            } else {
                (
                    Machine::Counting {
                        len: (len + 1) as usize,
                        id_first: if id_first == 0 {
                            id
                        } else {
                            id_first
                        },
                        deadline,
                    },
                    rng,
                    Pending::Idle,
                    Directive::Skip,
                )
            }
        },
        Machine::Initialized { pos, state, len, start, deadline } => {
            if pos >= 2 * len {
                let st2 = transition_spec(state, len, deadline, now, selected);
                match handle_op_spec(state, len) {
                    Some(g) => (
                        Machine::Initialized { pos: 0, state: st2, len, start, deadline },
                        rng,
                        Pending::Idle,
                        Directive::Boundary(g),
                    ),
                    None => {
                        let live = live_at(start, len, 0);
                        (
                            Machine::Initialized { pos: 1, state: st2, len, start, deadline },
                            rng,
                            offer_pending(st2, live),
                            offer_directive(st2, live, id),
                        )
                    },
                }
            } else {
                let live = live_at(start, len, pos as int);
                (
                    Machine::Initialized {
                        pos: (pos + 1) as usize,
                        state,
                        len,
                        start,
                        deadline,
                    },
                    rng,
                    offer_pending(state, live),
                    offer_directive(state, live, id),
                )
            }
        },
    }
}

/// The machine applied to the outcome of a bounded immediate attempt: a
/// permanently closed endpoint is counted, anything else leaves the count.
pub open spec fn attempt_applied(m: Machine, outcome: AttemptOutcome) -> Machine {
    match m {
        Machine::Initialized { pos, state, len, start, deadline } => match state {
            State::Try { closed_count } => Machine::Initialized {
                pos,
                state: State::Try {
                    closed_count: if outcome is Closed {
                        (closed_count + 1) as usize
                    } else {
                        closed_count
                    },
                },
                len,
                start,
                deadline,
            },
            _ => m,
        },
        _ => m,
    }
}

/// The machine applied to a registration probe: a closed endpoint lowers the
/// countdown by one.
pub open spec fn probe_applied(m: Machine, endpoint_closed: bool) -> Machine {
    match m {
        Machine::Initialized { pos, state, len, start, deadline } => match state {
            State::Subscribe { closed_countdown } => Machine::Initialized {
                pos,
                state: State::Subscribe {
                    closed_countdown: if endpoint_closed {
                        (closed_countdown - 1) as isize
                    } else {
                        closed_countdown
                    },
                },
                len,
                start,
                deadline,
            },
            _ => m,
        },
        _ => m,
    }
}

/// Well-formedness of the machine together with what it awaits.
///
/// In a round, the closed count never exceeds the live positions already
/// swept (so it never exceeds the candidate count), and the countdown never
/// drops further than one per swept live position.
pub open spec fn machine_inv(m: Machine, pending: Pending) -> bool {
    match m {
        Machine::Counting { len, id_first, .. } => {
            &&& pending is Idle
            &&& (id_first == 0 ==> len == 0)
            &&& (id_first != 0 ==> len >= 1)
        },
        Machine::Initialized { pos, state, len, start, .. } => {
            &&& 1 <= len
            &&& len <= usize::MAX as int / 2
            &&& start < len
            &&& pos <= 2 * (len as int)
            &&& (pending is AwaitAttempt ==> state is Try)
            &&& (pending is AwaitProbe ==> state is Subscribe)
            &&& (state matches State::Try { closed_count } ==> closed_count + (
                if pending is AwaitAttempt {
                    1int
                } else {
                    0int
                }
            ) <= live_count(start, len, pos as int))
            &&& (state matches State::Subscribe { closed_countdown } ==> {
                &&& closed_countdown < len
                &&& closed_countdown + live_count(start, len, pos as int) - (
                    if pending is AwaitProbe {
                        1int
                    } else {
                        0int
                    }
                ) >= 0
            })
        },
    }
}

/// A machine that has not yet seen any offer.
pub open spec fn fresh_machine(deadline: Option<u64>) -> Machine {
    Machine::Counting { len: 0, id_first: 0, deadline }
}

/// Advances the generator and draws a value below `ceil` (0 when `ceil` is 0).
pub(crate) fn gen_random(rng: &mut u32, ceil: usize) -> (r: usize)
    ensures
        *final(rng) == xorshift_spec(*old(rng)),
        r == draw_spec(*final(rng), ceil),
        ceil > 0 ==> r < ceil,
{
    let mut x = *rng;
    x = x ^ (x << 13);
    x = x ^ (x >> 17);
    x = x ^ (x << 5);
    *rng = x;
    if ceil == 0 {
        0
    } else {
        (x as usize) % ceil
    }
}

} // verus!
