//! The decisions of the game loop: a fixed-timestep clock and the two tick phases.
//!
//! The loop itself runs outside: it measures the time, polls input, runs the tick
//! tasks on a worker pool and draws. After each of those it hands the outcome to
//! `GameLoop::on_event`, which answers with what to do next.
use vstd::prelude::*;

verus! {

/// Nanoseconds per tick at the nominal rate of sixty ticks a second.
pub const TICK_NS: u64 = 16_666_667;

/// Where the loop stands.
#[derive(Copy, Clone, Debug, PartialEq, Eq, Structural)]
pub enum LoopPhase {
    /// Waiting for the time to be measured.
    Idle,
    /// A tick is due; input is being polled for it.
    Polling,
    /// The prep tasks of the tick have been dispatched.
    TickPhase1,
    /// Some prep tasks have reported, not all.
    Barrier,
    /// Every prep task finished; the tick tasks have been dispatched.
    TickPhase2,
    /// No tick is due; the frame is being drawn.
    Rendering,
    Terminated,
}

/// What the outside loop reports.
#[derive(Copy, Clone, Debug, PartialEq, Eq, Structural)]
pub enum LoopEvent {
    /// The clock reads `now_ns`.
    Frame { now_ns: u64 },
    /// Input was polled; `beings` prep tasks and as many tick tasks make up this tick.
    InputPolled { beings: u64 },
    /// `count` more prep tasks have finished.
    PrepFinished { count: u64 },
    /// `count` more tick tasks have finished.
    TickFinished { count: u64 },
    /// The frame was drawn.
    Rendered,
    /// The window was closed.
    Closed,
}

/// What the outside loop is to do next.
#[derive(Copy, Clone, Debug, PartialEq, Eq, Structural)]
pub enum LoopAction {
    /// Read the clock and report `Frame`.
    Measure,
    /// Poll input, tagging button transitions with `tick_number`.
    PollInput { tick_number: u64 },
    /// Dispatch one prep task per being.
    RunPrep,
    /// Wait for the remaining prep tasks.
    AwaitPrep,
    /// Dispatch one tick task per being.
    RunTick,
    /// Wait for the remaining tick tasks.
    AwaitTick,
    /// Draw the frame.
    Render,
    Stop,
    /// The event does not fit the current phase; nothing changed.
    Nothing,
}

/// The whole state of the loop.
#[derive(Copy, Clone, Debug, PartialEq, Eq, Structural)]
pub struct LoopState {
    pub phase: LoopPhase,
    /// Length of one tick.
    pub step_ns: u64,
    /// Clock reading at the last measurement.
    pub last_ns: u64,
    /// Measured time not yet consumed by ticks.
    pub accumulated_ns: u64,
    /// Number of the current (or next) tick.
    pub tick_number: u64,
    /// Tasks per phase in the current tick.
    pub beings: u64,
    /// Prep tasks of the current tick that have finished.
    pub prepared: u64,
    /// Tick tasks of the current tick that have finished.
    pub ticked: u64,
}

impl LoopState {
    pub open spec fn wf(self) -> bool {
        &&& self.step_ns > 0
        &&& self.prepared <= self.beings
        &&& self.ticked <= self.beings
        &&& (self.phase == LoopPhase::TickPhase1 || self.phase == LoopPhase::Barrier) ==> self.ticked
            == 0
        &&& self.phase == LoopPhase::TickPhase2 ==> self.prepared == self.beings
        &&& (self.phase == LoopPhase::Polling || self.phase == LoopPhase::TickPhase1 || self.phase
            == LoopPhase::Barrier || self.phase == LoopPhase::TickPhase2) ==> self.tick_number
            < u64::MAX
    }
}

/// The state of a loop started at clock reading `start_ns`.
pub open spec fn initial(step_ns: u64, start_ns: u64) -> LoopState {
    LoopState {
        phase: LoopPhase::Idle,
        step_ns,
        last_ns: start_ns,
        accumulated_ns: 0,
        tick_number: 0,
        beings: 0,
        prepared: 0,
        ticked: 0,
    }
}

/// Whether a whole step of measured time is waiting to be ticked.
pub open spec fn tick_due(s: LoopState) -> bool {
    s.accumulated_ns >= s.step_ns && s.tick_number < u64::MAX
}

/// Starts the next tick if one is due, else draws.
pub open spec fn tick_or_render(s: LoopState) -> (LoopState, LoopAction) {
    if tick_due(s) {
        (
            LoopState {
                phase: LoopPhase::Polling,
                accumulated_ns: (s.accumulated_ns - s.step_ns) as u64,
                beings: 0,
                prepared: 0,
                ticked: 0,
                ..s
            },
            LoopAction::PollInput { tick_number: s.tick_number },
        )
    } else {
        (LoopState { phase: LoopPhase::Rendering, ..s }, LoopAction::Render)
    }
}

/// Adds the time elapsed since the last reading; a clock that went back adds nothing.
pub open spec fn measured(s: LoopState, now_ns: u64) -> LoopState {
    if now_ns > s.last_ns {
        let total = s.accumulated_ns + (now_ns - s.last_ns);
        LoopState {
            last_ns: now_ns,
            accumulated_ns: if total > u64::MAX {
                u64::MAX
            } else {
                total as u64
            },
            ..s
        }
    } else {
        s
    }
}

/// One step of the loop.
pub open spec fn next(s: LoopState, e: LoopEvent) -> (LoopState, LoopAction) {
    if s.phase == LoopPhase::Terminated {
        (s, LoopAction::Stop)
    } else {
        match e {
            LoopEvent::Closed => (LoopState { phase: LoopPhase::Terminated, ..s }, LoopAction::Stop),
            LoopEvent::Frame { now_ns } => if s.phase == LoopPhase::Idle {
                tick_or_render(measured(s, now_ns))
            } else {
                (s, LoopAction::Nothing)
            },
            LoopEvent::InputPolled { beings } => if s.phase == LoopPhase::Polling {
                (
                    LoopState { phase: LoopPhase::TickPhase1, beings, prepared: 0, ticked: 0, ..s },
                    LoopAction::RunPrep,
                )
            } else {
                (s, LoopAction::Nothing)
            },
            LoopEvent::PrepFinished { count } => if (s.phase == LoopPhase::TickPhase1 || s.phase
                == LoopPhase::Barrier) && count <= s.beings - s.prepared {
                let prepared = (s.prepared + count) as u64;
                if prepared == s.beings {
                    (
                        LoopState { phase: LoopPhase::TickPhase2, prepared, ..s },
                        LoopAction::RunTick,
                    )
                } else {
                    (LoopState { phase: LoopPhase::Barrier, prepared, ..s }, LoopAction::AwaitPrep)
                }
            } else {
                (s, LoopAction::Nothing)
            },
            LoopEvent::TickFinished { count } => if s.phase == LoopPhase::TickPhase2 && count
                <= s.beings - s.ticked {
                let ticked = (s.ticked + count) as u64;
                if ticked == s.beings {
                    tick_or_render(
                        LoopState { ticked, tick_number: (s.tick_number + 1) as u64, ..s },
                    )
                } else {
                    (LoopState { ticked, ..s }, LoopAction::AwaitTick)
                }
            } else {
                (s, LoopAction::Nothing)
            },
            LoopEvent::Rendered => if s.phase == LoopPhase::Rendering {
                (LoopState { phase: LoopPhase::Idle, ..s }, LoopAction::Measure)
            } else {
                (s, LoopAction::Nothing)
            },
        }
    }
}

/// The loop's state machine.
pub struct GameLoop {
    state: LoopState,
}

impl GameLoop {
    pub closed spec fn view(&self) -> LoopState {
        self.state
    }

    #[verifier::type_invariant]
    spec fn inv(&self) -> bool {
        self.state.wf()
    }

    /// A loop that ticks every `step_ns` nanoseconds, started at clock reading `start_ns`.
    pub fn new(step_ns: u64, start_ns: u64) -> (r: GameLoop)
        requires
            step_ns > 0,
        ensures
            r@ == initial(step_ns, start_ns),
            r@.wf(),
    {
        GameLoop {
            state: LoopState {
                phase: LoopPhase::Idle,
                step_ns,
                last_ns: start_ns,
                accumulated_ns: 0,
                tick_number: 0,
                beings: 0,
                prepared: 0,
                ticked: 0,
            },
        }
    }

    pub fn state(&self) -> (r: LoopState)
        ensures
            r == self@,
            r.wf(),
    {
        proof {
            use_type_invariant(self);
        }
        self.state
    }

    fn tick_or_render(s: LoopState) -> (r: (LoopState, LoopAction))
        ensures
            r == tick_or_render(s),
    {
        if s.accumulated_ns >= s.step_ns && s.tick_number < u64::MAX {
            (
                LoopState {
                    phase: LoopPhase::Polling,
                    accumulated_ns: s.accumulated_ns - s.step_ns,
                    beings: 0,
                    prepared: 0,
                    ticked: 0,
                    ..s
                },
                LoopAction::PollInput { tick_number: s.tick_number },
            )
        } else {
            (LoopState { phase: LoopPhase::Rendering, ..s }, LoopAction::Render)
        }
    }

    /// Takes in what the outside loop reports and says what it is to do next.
    pub fn on_event(&mut self, event: LoopEvent) -> (r: LoopAction)
        ensures
            (final(self)@, r) == next(old(self)@, event),
            final(self)@.wf(),
    {
        proof {
            use_type_invariant(&*self);
        }
        let s = self.state;
        proof {
            lemma_next_keeps_wf(s, event);
        }
        if s.phase == LoopPhase::Terminated {
            return LoopAction::Stop;
        }
        match event {
            LoopEvent::Closed => {
                self.state = LoopState { phase: LoopPhase::Terminated, ..s };
                LoopAction::Stop
            },
            LoopEvent::Frame { now_ns } => {
                if s.phase == LoopPhase::Idle {
                    let measured = if now_ns > s.last_ns {
                        let elapsed = now_ns - s.last_ns;
                        let accumulated_ns = s.accumulated_ns.saturating_add(elapsed);
                        LoopState { last_ns: now_ns, accumulated_ns, ..s }
                    } else {
                        s
                    };
                    let (state, action) = GameLoop::tick_or_render(measured);
                    self.state = state;
                    action
                } else {
                    LoopAction::Nothing
                }
            },
            LoopEvent::InputPolled { beings } => {
                if s.phase == LoopPhase::Polling {
                    self.state = LoopState {
                        phase: LoopPhase::TickPhase1,
                        beings,
                        prepared: 0,
                        ticked: 0,
                        ..s
                    };
                    LoopAction::RunPrep
                } else {
                    LoopAction::Nothing
                }
            },
            LoopEvent::PrepFinished { count } => {
                if (s.phase == LoopPhase::TickPhase1 || s.phase == LoopPhase::Barrier) && count
                    <= s.beings - s.prepared {
                    let prepared = s.prepared + count;
                    if prepared == s.beings {
                        self.state = LoopState { phase: LoopPhase::TickPhase2, prepared, ..s };
                        LoopAction::RunTick
                    } else {
                        self.state = LoopState { phase: LoopPhase::Barrier, prepared, ..s };
                        LoopAction::AwaitPrep
                    }
                } else {
                    LoopAction::Nothing
                }
            },
            LoopEvent::TickFinished { count } => {
                if s.phase == LoopPhase::TickPhase2 && count <= s.beings - s.ticked {
                    let ticked = s.ticked + count;
                    if ticked == s.beings {
                        let (state, action) = GameLoop::tick_or_render(
                            LoopState { ticked, tick_number: s.tick_number + 1, ..s },
                        );
                        self.state = state;
                        action
                    } else {
                        self.state = LoopState { ticked, ..s };
                        LoopAction::AwaitTick
                    }
                } else {
                    LoopAction::Nothing
                }
            },
            LoopEvent::Rendered => {
                if s.phase == LoopPhase::Rendering {
                    self.state = LoopState { phase: LoopPhase::Idle, ..s };
                    LoopAction::Measure
                } else {
                    LoopAction::Nothing
                }
            },
        }
    }
}

/// Every step keeps the loop's state well formed.
pub proof fn lemma_next_keeps_wf(s: LoopState, e: LoopEvent)
    requires
        s.wf(),
    ensures
        next(s, e).0.wf(),
{
}

/// A tick task is never dispatched before every prep task of its tick has finished:
/// the loop asks to run the tick tasks only on leaving the prep phase, and whenever it
/// stands in the tick phase all prep tasks of that tick have reported.
pub proof fn lemma_tick_waits_for_prep(s: LoopState, e: LoopEvent)
    requires
        s.wf(),
    ensures
        next(s, e).1 == LoopAction::RunTick ==> (s.phase == LoopPhase::TickPhase1 || s.phase
            == LoopPhase::Barrier) && next(s, e).0.phase == LoopPhase::TickPhase2,
        next(s, e).0.phase == LoopPhase::TickPhase2 ==> next(s, e).0.prepared == next(s, e).0.beings,
{
}

/// One tick run along the ordinary path: input polled, then all `beings` prep tasks
/// and all `beings` tick tasks finished.
pub open spec fn complete_tick(s: LoopState, beings: u64) -> LoopState {
    let polled = next(s, LoopEvent::InputPolled { beings }).0;
    let prepared = next(polled, LoopEvent::PrepFinished { count: beings }).0;
    next(prepared, LoopEvent::TickFinished { count: beings }).0
}

/// The state after `n` ticks run along the ordinary path.
pub open spec fn after_ticks(s: LoopState, beings: u64, n: nat) -> LoopState
    decreases n,
{
    if n == 0 {
        s
    } else {
        complete_tick(after_ticks(s, beings, (n - 1) as nat), beings)
    }
}

proof fn lemma_steps_left(j: int, step: int, r: int)
    requires
        j >= 1,
        step > 0,
        r >= 0,
    ensures
        j * step + r >= step,
        j * step + r - step == (j - 1) * step + r,
{
    assert(j * step + r >= step) by (nonlinear_arith)
        requires
            j >= 1,
            step > 0,
            r >= 0,
    ;
    assert(j * step + r - step == (j - 1) * step + r) by (nonlinear_arith);
}

proof fn lemma_ticks_run(s: LoopState, beings: u64, k: nat, r: nat, i: nat)
    requires
        s.wf(),
        s.phase == LoopPhase::Polling,
        i < k,
        r < s.step_ns,
        s.accumulated_ns == (k - 1) * s.step_ns + r,
        s.tick_number + k < u64::MAX,
    ensures
        after_ticks(s, beings, i).wf(),
        after_ticks(s, beings, i).phase == LoopPhase::Polling,
        after_ticks(s, beings, i).step_ns == s.step_ns,
        after_ticks(s, beings, i).accumulated_ns == (k - 1 - i) * s.step_ns + r,
        after_ticks(s, beings, i).tick_number == s.tick_number + i,
    decreases i,
{
    if i > 0 {
        lemma_ticks_run(s, beings, k, r, (i - 1) as nat);
        let prev = after_ticks(s, beings, (i - 1) as nat);
        lemma_steps_left(k - i, s.step_ns as int, r as int);
        assert(k - 1 - (i - 1) == k - i);
        lemma_next_keeps_wf(prev, LoopEvent::InputPolled { beings });
        let polled = next(prev, LoopEvent::InputPolled { beings }).0;
        lemma_next_keeps_wf(polled, LoopEvent::PrepFinished { count: beings });
        let prepared = next(polled, LoopEvent::PrepFinished { count: beings }).0;
        lemma_next_keeps_wf(prepared, LoopEvent::TickFinished { count: beings });
    }
}

/// Fixed timestep: when `k` whole steps and a remainder `r` shorter than a step have
/// elapsed since the last reading, and no time was left over, the loop runs exactly `k`
/// ticks, numbered on from the current tick number, and then draws.
pub proof fn lemma_fixed_timestep(s: LoopState, now_ns: u64, beings: u64, k: nat, r: nat)
    requires
        s.wf(),
        s.phase == LoopPhase::Idle,
        s.accumulated_ns == 0,
        r < s.step_ns,
        now_ns == s.last_ns + k * s.step_ns + r,
        s.tick_number + k < u64::MAX,
    ensures
        k > 0 ==> next(s, LoopEvent::Frame { now_ns }).1 == (LoopAction::PollInput {
            tick_number: s.tick_number,
        }),
        forall|i: nat|
            i < k ==> (#[trigger] after_ticks(next(s, LoopEvent::Frame { now_ns }).0, beings, i)).phase
                == LoopPhase::Polling && after_ticks(
                next(s, LoopEvent::Frame { now_ns }).0,
                beings,
                i,
            ).tick_number == s.tick_number + i,
        after_ticks(next(s, LoopEvent::Frame { now_ns }).0, beings, k).phase == LoopPhase::Rendering,
{
    let s1 = next(s, LoopEvent::Frame { now_ns }).0;
    let st = s.step_ns as int;
    assert(k * st >= 0) by (nonlinear_arith)
        requires
            st > 0,
    ;
    assert(measured(s, now_ns).accumulated_ns == k * st + r);
    if k == 0 {
        assert(k * st == 0);
    } else {
        lemma_steps_left(k as int, st, r as int);
        assert(s1.phase == LoopPhase::Polling);
        assert forall|i: nat| i < k implies (#[trigger] after_ticks(s1, beings, i)).phase
            == LoopPhase::Polling && after_ticks(s1, beings, i).tick_number == s.tick_number
            + i by {
            lemma_ticks_run(s1, beings, k, r, i);
        }
        lemma_ticks_run(s1, beings, k, r, (k - 1) as nat);
        let last = after_ticks(s1, beings, (k - 1) as nat);
        assert((k - 1 - (k - 1)) * st == 0);
        lemma_next_keeps_wf(last, LoopEvent::InputPolled { beings });
        let polled = next(last, LoopEvent::InputPolled { beings }).0;
        lemma_next_keeps_wf(polled, LoopEvent::PrepFinished { count: beings });
    }
}

} // verus!
