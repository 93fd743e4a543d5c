use vstd::prelude::*;

verus! {

use crate::machine::{
    AttemptOutcome, Directive, HandleOp, Machine, Pending, State, attempt_applied, handle_op_spec,
    gen_random, lemma_live_count_closed, live_at, live_count, machine_inv, offer_directive,
    offer_pending, probe_applied, sel_next, transition_spec,
};

/// The generator state every fresh selection starts from.
pub const START_SEED: u32 = 1;

/// One selection operation: a value the caller re-enters once per candidate,
/// in a fixed order, until one offer succeeds or the machine settles into a
/// terminal state.
pub struct Select {
    machine: Machine,
    rng: u32,
    pending: Pending,
}

impl Select {
    /// The machine as the contracts speak of it.
    pub closed spec fn mach(&self) -> Machine {
        self.machine
    }

    /// The random generator state.
    pub closed spec fn rng_val(&self) -> u32 {
        self.rng
    }

    /// What the machine awaits from the driver.
    pub closed spec fn pending_state(&self) -> Pending {
        self.pending
    }

    /// Well-formedness: established by the constructors, preserved by every
    /// operation.
    pub open spec fn inv(&self) -> bool {
        machine_inv(self.mach(), self.pending_state())
    }

    /// Room to count one more candidate without exceeding the machine limit
    /// on the candidate set.
    pub open spec fn counting_room(&self) -> bool {
        self.mach() matches Machine::Counting { len, .. } ==> len < usize::MAX as int / 2
    }

    /// The machine has settled into `TimedOut`.
    pub open spec fn spec_timed_out(&self) -> bool {
        self.mach() matches Machine::Initialized { state: State::TimedOut, .. }
    }

    /// The machine has settled into `Disconnected`.
    pub open spec fn spec_disconnected(&self) -> bool {
        self.mach() matches Machine::Initialized { state: State::Disconnected, .. }
    }

    /// A selection without a deadline: it blocks until some candidate
    /// succeeds or every candidate is permanently closed.
    pub fn new() -> (s: Select)
        ensures
            s.inv(),
            s.mach() == crate::machine::fresh_machine(None),
            s.pending_state() is Idle,
            s.rng_val() == START_SEED,
    {
        Select::with_deadline(None)
    }

    /// A selection whose deadline is `dur` ticks after `now`, both on the
    /// driver's monotonic clock.
    pub fn with_timeout(now: u64, dur: u64) -> (s: Select)
        requires
            now + dur <= u64::MAX,
        ensures
            s.inv(),
            s.mach() == crate::machine::fresh_machine(Some((now + dur) as u64)),
            s.pending_state() is Idle,
            s.rng_val() == START_SEED,
    {
        Select::with_deadline(Some(now + dur))
    }

    fn with_deadline(deadline: Option<u64>) -> (s: Select)
        ensures
            s.inv(),
            s.mach() == crate::machine::fresh_machine(deadline),
            s.pending_state() is Idle,
            s.rng_val() == START_SEED,
    {
        Select {
            machine: Machine::Counting { len: 0, id_first: 0, deadline },
            rng: START_SEED,
            pending: Pending::Idle,
        }
    }

    /// Whether the deadline passed: every later offer is declined and the
    /// machine never asks to block again.
    pub fn timed_out(&self) -> (r: bool)
        ensures
            r == self.spec_timed_out(),
    {
        match self.machine {
            Machine::Initialized { state: State::TimedOut, .. } => true,
            _ => false,
        }
    }

    /// Whether every candidate was found permanently closed: every later
    /// offer is declined and the machine never asks to block again.
    pub fn disconnected(&self) -> (r: bool)
        ensures
            r == self.spec_disconnected(),
    {
        match self.machine {
            Machine::Initialized { state: State::Disconnected, .. } => true,
            _ => false,
        }
    }

    /// Offers the candidate with endpoint id `id` (ids are non-zero and the
    /// offer order is fixed for the life of the selection). `now` is the
    /// driver's clock and `selected` the id currently recorded on the
    /// parking handle. The directive says what the driver owes before the
    /// next offer.
    pub fn step(&mut self, id: usize, now: u64, selected: usize) -> (d: Directive)
        requires
            old(self).inv(),
            old(self).pending_state() is Idle,
            old(self).counting_room(),
            id != 0,
        ensures
            final(self).inv(),
            ({
                let r = sel_next(old(self).mach(), old(self).rng_val(), id, now, selected);
                &&& final(self).mach() == r.0
                &&& final(self).rng_val() == r.1
                &&& final(self).pending_state() == r.2
                &&& d == r.3
            }),
    {
        match self.machine {
            Machine::Counting { len, id_first, deadline } => {
                if id_first == id {
                    let start = gen_random(&mut self.rng, len);
                    let st = State::Try { closed_count: 0 };
                    self.machine = Machine::Initialized { pos: 1, state: st, len, start, deadline };
                    proof {
                        assert(live_count(start, len, 0) == 0);
                    }
                    let live = start == 0;
                    proof {
                        assert(live == live_at(start, len, 0));
                    }
                    self.issue(st, live, id)
                } else {
                    self.machine = Machine::Counting {
                        len: len + 1,
                        id_first: if id_first == 0 {
                            id
                        } else {
                            id_first
                        },
                        deadline,
                    };
                    Directive::Skip
                }
            },
            Machine::Initialized { pos, state, len, start, deadline } => {
                if pos >= 2 * len {
                    proof {
                        lemma_live_count_closed(start, len, pos as int);
                        assert(live_count(start, len, 0) == 0);
                    }
                    let st2 = transition_step(state, len, deadline, now, selected);
                    match handle_op_step(state, len) {
                        Some(g) => {
                            self.machine = Machine::Initialized {
                                pos: 0,
                                state: st2,
                                len,
                                start,
                                deadline,
                            };
                            Directive::Boundary(g)
                        },
                        None => {
                            self.machine = Machine::Initialized {
                                pos: 1,
                                state: st2,
                                len,
                                start,
                                deadline,
                            };
                            let live = start == 0;
                            proof {
                                assert(live == live_at(start, len, 0));
                            }
                            self.issue(st2, live, id)
                        },
                    }
                } else {
                    self.machine = Machine::Initialized {
                        pos: pos + 1,
                        state,
                        len,
                        start,
                        deadline,
                    };
                    let live = start <= pos && pos < start + len;
                    self.issue(state, live, id)
                }
            },
        }
    }

    /// Records the directive's follow-up duty and hands the directive out.
    fn issue(&mut self, state: State, live: bool, id: usize) -> (d: Directive)
        ensures
            final(self).machine == old(self).machine,
            final(self).rng == old(self).rng,
            final(self).pending == offer_pending(state, live),
            d == offer_directive(state, live, id),
    {
        if !live {
            self.pending = Pending::Idle;
            Directive::Skip
        } else {
            match state {
                State::Try { .. } => {
                    self.pending = Pending::AwaitAttempt;
                    Directive::Attempt
                },
                State::Subscribe { .. } => {
                    self.pending = Pending::AwaitProbe;
                    Directive::Enroll
                },
                State::Unsubscribe => {
                    self.pending = Pending::Idle;
                    Directive::Withdraw
                },
                State::FinalTry { id: winner_id } => {
                    self.pending = Pending::Idle;
                    Directive::Complete { winner: id == winner_id }
                },
                State::TimedOut => {
                    self.pending = Pending::Idle;
                    Directive::Dead
                },
                State::Disconnected => {
                    self.pending = Pending::Idle;
                    Directive::Dead
                },
            }
        }
    }

    /// Reports the outcome of the bounded immediate attempt asked for by an
    /// `Attempt` directive. Returns whether the transfer happened; a closed
    /// endpoint is counted towards the round's closed count.
    pub fn resolve_attempt(&mut self, outcome: AttemptOutcome) -> (done: bool)
        requires
            old(self).inv(),
            old(self).pending_state() is AwaitAttempt,
        ensures
            final(self).inv(),
            final(self).pending_state() is Idle,
            final(self).mach() == attempt_applied(old(self).mach(), outcome),
            final(self).rng_val() == old(self).rng_val(),
            done == (outcome is Done),
    {
        self.pending = Pending::Idle;
        match self.machine {
            Machine::Initialized { pos, state: State::Try { closed_count }, len, start, deadline } => {
                proof {
                    lemma_live_count_closed(start, len, pos as int);
                }
                if matches!(outcome, AttemptOutcome::Closed) {
                    self.machine = Machine::Initialized {
                        pos,
                        state: State::Try { closed_count: closed_count + 1 },
                        len,
                        start,
                        deadline,
                    };
                }
            },
            _ => {},
        }
        matches!(outcome, AttemptOutcome::Done)
    }

    /// Reports the endpoint probes made right after the registration asked
    /// for by an `Enroll` directive: whether the endpoint is permanently
    /// closed, and whether it looks immediately ready. Returns whether the
    /// driver should mark its parking handle as already woken by this
    /// candidate.
    pub fn resolve_probe(&mut self, endpoint_closed: bool, endpoint_ready: bool) -> (wake: bool)
        requires
            old(self).inv(),
            old(self).pending_state() is AwaitProbe,
        ensures
            final(self).inv(),
            final(self).pending_state() is Idle,
            final(self).mach() == probe_applied(old(self).mach(), endpoint_closed),
            final(self).rng_val() == old(self).rng_val(),
            wake == endpoint_ready,
    {
        self.pending = Pending::Idle;
        match self.machine {
            Machine::Initialized {
                pos,
                state: State::Subscribe { closed_countdown },
                len,
                start,
                deadline,
            } => {
                proof {
                    lemma_live_count_closed(start, len, pos as int);
                }
                if endpoint_closed {
                    self.machine = Machine::Initialized {
                        pos,
                        state: State::Subscribe { closed_countdown: closed_countdown - 1 },
                        len,
                        start,
                        deadline,
                    };
                }
            },
            _ => {},
        }
        endpoint_ready
    }
}

/// The round transition of the protocol state, as `transition_spec` states it.
fn transition_step(state: State, len: usize, deadline: Option<u64>, now: u64, selected: usize) -> (s:
    State)
    requires
        state matches State::Try { closed_count } ==> closed_count <= usize::MAX as int / 2,
    ensures
        s == transition_spec(state, len, deadline, now, selected),
{
    match state {
        State::Try { closed_count } => {
            if closed_count < len {
                State::Subscribe { closed_countdown: closed_count as isize }
            } else {
                State::Disconnected
            }
        },
        State::Subscribe { .. } => State::Unsubscribe,
        State::Unsubscribe => State::FinalTry { id: selected },
        State::FinalTry { .. } => {
            let timed_out = match deadline {
                Some(end) => now >= end,
                None => false,
            };
            if timed_out {
                State::TimedOut
            } else {
                State::Try { closed_count: 0 }
            }
        },
        State::TimedOut => State::TimedOut,
        State::Disconnected => State::Disconnected,
    }
}

/// The parking-handle action owed at a round boundary, as `handle_op_spec` states
/// it.
fn handle_op_step(state: State, len: usize) -> (g: Option<HandleOp>)
    ensures
        g == handle_op_spec(state, len),
{
    match state {
        State::Try { closed_count } => {
            if closed_count < len {
                Some(HandleOp::Clear)
            } else {
                None
            }
        },
        State::Subscribe { closed_countdown } => Some(
            HandleOp::Park { premark: closed_countdown < 0 },
        ),
        _ => None,
    }
}

} // verus!
