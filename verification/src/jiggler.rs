//! The jiggle scheduler.
//!
//! The scheduler owns the run loop's decisions as a state machine: each
//! call of [`Jiggler::step`] takes the outcome of the previous action
//! (a sleep elapsed, a move succeeded or failed, a clock reading) and
//! returns the next action to perform (sleep, move the cursor, read the
//! clock, or finish).  A thin driver performs the actions; every
//! decision — when to act, for how long, and when to stop — is decided
//! here and stated by [`spec_step`].
//!
//! A run goes `Idle → InitialDelay → (Moving | StepSleep)* → CycleSleep
//! → AwaitDeadline → … → Finished`, the anchor instant being captured
//! once, right after the initial delay.  The run terminates at or after
//! the deadline (a `>=` comparison), and an unbounded total duration is
//! never compared against the clock at all.

use vstd::arithmetic::div_mod::lemma_fundamental_div_mod_converse;
use vstd::prelude::*;

use crate::cli::CustomDuration;
use crate::error::JigglerError;

verus! {

/// The per-cycle action parameters.
#[derive(Clone, Copy, Debug)]
pub struct JiggleConfig {
    /// The time to sleep in between the moves of a single jiggle.
    pub sleep: CustomDuration,
    /// The number of back-and-forths in a single jiggle.
    pub repetitions: usize,
    /// The displacement of each move, in pixels.
    pub half_size: u16,
}

impl JiggleConfig {
    /// Bundle the per-cycle action parameters.
    pub fn new(sleep: CustomDuration, repetitions: usize, half_size: u16) -> (r: JiggleConfig)
        ensures
            r.sleep == sleep,
            r.repetitions == repetitions,
            r.half_size == half_size,
    {
        JiggleConfig { sleep, repetitions, half_size }
    }
}

/// Where the scheduler stands between two actions.
#[derive(Clone, Copy, Debug, PartialEq, Eq, Structural)]
pub enum Phase {
    /// Not yet started.
    Idle,
    /// The start delay is being slept.
    InitialDelay,
    /// Waiting for the clock reading that anchors the deadline.
    AwaitAnchor,
    /// A cursor move has been requested and has not reported back.
    Moving,
    /// The inter-step sleep after a move is in progress.
    StepSleep,
    /// The inter-cycle sleep is in progress.
    CycleSleep,
    /// Waiting for the clock reading of the deadline check.
    AwaitDeadline,
    /// The deadline elapsed; the run is over.
    Finished,
    /// The injection capability failed; no further moves are issued.
    Failed,
}

/// What the driver reports back to the scheduler.
#[derive(Clone, Copy, Debug, PartialEq, Eq, Structural)]
pub enum Event {
    /// Start the run.
    Begin,
    /// The requested sleep elapsed.
    Slept,
    /// The requested cursor move succeeded.
    MoveOk,
    /// The requested cursor move failed.
    MoveFailed,
    /// The clock reads `now_nanos` nanoseconds, on a monotonic clock.
    Clock { now_nanos: u128 },
}

/// What the driver is asked to do next.
#[derive(Clone, Copy, Debug, PartialEq, Eq, Structural)]
pub enum Action {
    /// Block for the given span, then report `Slept`.
    Sleep { span: CustomDuration },
    /// Move the cursor by `(dx, dy)` relative to its position, then
    /// report `MoveOk` or `MoveFailed`.
    MoveCursor { dx: i32, dy: i32 },
    /// Read the monotonic clock, then report `Clock`.
    ReadClock,
    /// The run completed; nothing more to do.
    Finish,
}

/// The jiggle scheduler: the schedule, and the run's current state.
#[derive(Clone, Copy, Debug)]
pub struct Jiggler {
    /// Delay before the first jiggle.
    pub start_in: CustomDuration,
    /// How long to run, measured from the anchor instant.
    pub run_for: CustomDuration,
    /// The time to wait in between jiggles.
    pub jiggle_every: CustomDuration,
    /// The per-cycle action parameters.
    pub jiggle_config: JiggleConfig,
    /// Where the run stands.
    pub phase: Phase,
    /// The clock reading captured once, right after the initial delay.
    pub anchor_nanos: u128,
    /// The repetition the current jiggle action is at.
    pub rep_idx: usize,
    /// Whether the current move is the second (returning) half of a
    /// back-and-forth.
    pub second_half: bool,
    /// Completed jiggle actions, saturating.
    pub cycles: u64,
}

/// The move a jiggle action issues: `+half_size` pixels on the x axis
/// for the first half of a back-and-forth, `-half_size` for the second.
pub open spec fn current_move(cfg: JiggleConfig, second_half: bool) -> (i32, i32) {
    if second_half {
        ((-(cfg.half_size as int)) as i32, 0i32)
    } else {
        (cfg.half_size as i32, 0i32)
    }
}

/// Whether a run with total duration `run_for` is over once `elapsed`
/// nanoseconds have passed since the anchor: never for the unbounded
/// span, and at or after the deadline (`>=`) for a finite one.
pub open spec fn deadline_reached(run_for: CustomDuration, elapsed: int) -> bool {
    match run_for {
        CustomDuration::Unbounded => false,
        CustomDuration::Finite { nanos } => elapsed >= nanos,
    }
}

/// Nanoseconds since the anchor, by a monotonic clock; a reading that
/// went backwards counts as no time elapsed.
pub open spec fn spec_elapsed(anchor: u128, now: u128) -> int {
    if now >= anchor {
        now - anchor
    } else {
        0
    }
}

/// The event each phase waits for.
pub open spec fn event_matches(p: Phase, e: Event) -> bool {
    match p {
        Phase::Idle => e == Event::Begin,
        Phase::InitialDelay => e == Event::Slept,
        Phase::AwaitAnchor => e is Clock,
        Phase::Moving => e == Event::MoveOk || e == Event::MoveFailed,
        Phase::StepSleep => e == Event::Slept,
        Phase::CycleSleep => e == Event::Slept,
        Phase::AwaitDeadline => e is Clock,
        Phase::Finished => true,
        Phase::Failed => true,
    }
}

/// The scheduler's well-formedness: while a jiggle action is under
/// way, its repetition index is within the configured count.
pub open spec fn wf(s: Jiggler) -> bool {
    (s.phase is Moving || s.phase is StepSleep) ==> s.rep_idx < s.jiggle_config.repetitions
}

/// Begin one jiggle action: issue the first move, or — with zero
/// repetitions — fall straight through to the inter-cycle sleep.
pub open spec fn spec_begin_action(pre: Jiggler) -> (Jiggler, Result<Action, JigglerError>) {
    if pre.jiggle_config.repetitions == 0 {
        let m = Jiggler { phase: Phase::CycleSleep, cycles: saturating_inc(pre.cycles), ..pre };
        (m, Ok(Action::Sleep { span: pre.jiggle_every }))
    } else {
        let m = Jiggler { phase: Phase::Moving, rep_idx: 0usize, second_half: false, ..pre };
        let mv = current_move(pre.jiggle_config, false);
        (m, Ok(Action::MoveCursor { dx: mv.0, dy: mv.1 }))
    }
}

pub open spec fn saturating_inc(c: u64) -> u64 {
    if c == u64::MAX {
        c
    } else {
        (c + 1) as u64
    }
}

/// The scheduler's whole behaviour, one transition at a time.
pub open spec fn spec_step(pre: Jiggler, e: Event) -> (Jiggler, Result<Action, JigglerError>) {
    match pre.phase {
        Phase::Idle => (
            Jiggler { phase: Phase::InitialDelay, ..pre },
            Ok(Action::Sleep { span: pre.start_in }),
        ),
        Phase::InitialDelay => (Jiggler { phase: Phase::AwaitAnchor, ..pre }, Ok(Action::ReadClock)),
        Phase::AwaitAnchor => {
            if let Event::Clock { now_nanos } = e {
                spec_begin_action(Jiggler { anchor_nanos: now_nanos, ..pre })
            } else {
                (pre, Ok(Action::ReadClock))
            }
        },
        Phase::Moving => {
            if e == Event::MoveOk {
                (
                    Jiggler { phase: Phase::StepSleep, ..pre },
                    Ok(Action::Sleep { span: pre.jiggle_config.sleep }),
                )
            } else {
                (Jiggler { phase: Phase::Failed, ..pre }, Err(JigglerError::InjectionFailure))
            }
        },
        Phase::StepSleep => {
            if !pre.second_half {
                let m = Jiggler { phase: Phase::Moving, second_half: true, ..pre };
                let mv = current_move(pre.jiggle_config, true);
                (m, Ok(Action::MoveCursor { dx: mv.0, dy: mv.1 }))
            } else if pre.rep_idx + 1 == pre.jiggle_config.repetitions {
                let m = Jiggler {
                    phase: Phase::CycleSleep,
                    cycles: saturating_inc(pre.cycles),
                    ..pre
                };
                (m, Ok(Action::Sleep { span: pre.jiggle_every }))
            } else {
                let m = Jiggler {
                    phase: Phase::Moving,
                    rep_idx: (pre.rep_idx + 1) as usize,
                    second_half: false,
                    ..pre
                };
                let mv = current_move(pre.jiggle_config, false);
                (m, Ok(Action::MoveCursor { dx: mv.0, dy: mv.1 }))
            }
        },
        Phase::CycleSleep => {
            if pre.run_for is Unbounded {
                spec_begin_action(pre)
            } else {
                (Jiggler { phase: Phase::AwaitDeadline, ..pre }, Ok(Action::ReadClock))
            }
        },
        Phase::AwaitDeadline => {
            if let Event::Clock { now_nanos } = e {
                if deadline_reached(pre.run_for, spec_elapsed(pre.anchor_nanos, now_nanos)) {
                    (Jiggler { phase: Phase::Finished, ..pre }, Ok(Action::Finish))
                } else {
                    spec_begin_action(pre)
                }
            } else {
                (pre, Ok(Action::ReadClock))
            }
        },
        Phase::Finished => (pre, Ok(Action::Finish)),
        Phase::Failed => (pre, Err(JigglerError::InjectionFailure)),
    }
}

/// The state a freshly built scheduler starts in.
pub open spec fn initial_spec(
    start_in: CustomDuration,
    run_for: CustomDuration,
    jiggle_every: CustomDuration,
    jiggle_config: JiggleConfig,
) -> Jiggler {
    Jiggler {
        start_in,
        run_for,
        jiggle_every,
        jiggle_config,
        phase: Phase::Idle,
        anchor_nanos: 0u128,
        rep_idx: 0usize,
        second_half: false,
        cycles: 0u64,
    }
}

impl Jiggler {
    /// A scheduler for the given schedule, ready to be driven.
    pub fn new(
        start_in: CustomDuration,
        run_for: CustomDuration,
        jiggle_every: CustomDuration,
        jiggle_config: JiggleConfig,
    ) -> (r: Jiggler)
        ensures
            r.start_in == start_in,
            r.run_for == run_for,
            r.jiggle_every == jiggle_every,
            r.jiggle_config == jiggle_config,
            r.phase == Phase::Idle,
            r.anchor_nanos == 0u128,
            r.rep_idx == 0usize,
            r.second_half == false,
            r.cycles == 0u64,
            r == initial_spec(start_in, run_for, jiggle_every, jiggle_config),
            wf(r),
    {
        Jiggler {
            start_in,
            run_for,
            jiggle_every,
            jiggle_config,
            phase: Phase::Idle,
            anchor_nanos: 0,
            rep_idx: 0,
            second_half: false,
            cycles: 0,
        }
    }

    /// Feed the outcome of the previous action in; get the next action
    /// out.  Does exactly what [`spec_step`] says.
    pub fn step(&mut self, e: Event) -> (r: Result<Action, JigglerError>)
        requires
            wf(*old(self)),
            event_matches(old(self).phase, e),
        ensures
            *final(self) == spec_step(*old(self), e).0,
            r == spec_step(*old(self), e).1,
            wf(*final(self)),
    {
        match self.phase {
            Phase::Idle => {
                self.phase = Phase::InitialDelay;
                Ok(Action::Sleep { span: self.start_in })
            },
            Phase::InitialDelay => {
                self.phase = Phase::AwaitAnchor;
                Ok(Action::ReadClock)
            },
            Phase::AwaitAnchor => {
                if let Event::Clock { now_nanos } = e {
                    self.anchor_nanos = now_nanos;
                    self.begin_action()
                } else {
                    Ok(Action::ReadClock)
                }
            },
            Phase::Moving => {
                if let Event::MoveOk = e {
                    self.phase = Phase::StepSleep;
                    Ok(Action::Sleep { span: self.jiggle_config.sleep })
                } else {
                    self.phase = Phase::Failed;
                    Err(JigglerError::InjectionFailure)
                }
            },
            Phase::StepSleep => {
                if !self.second_half {
                    self.phase = Phase::Moving;
                    self.second_half = true;
                    Ok(
                        Action::MoveCursor {
                            dx: -(self.jiggle_config.half_size as i32),
                            dy: 0,
                        },
                    )
                } else if self.rep_idx + 1 == self.jiggle_config.repetitions {
                    self.phase = Phase::CycleSleep;
                    self.cycles = if self.cycles == u64::MAX {
                        self.cycles
                    } else {
                        self.cycles + 1
                    };
                    Ok(Action::Sleep { span: self.jiggle_every })
                } else {
                    self.phase = Phase::Moving;
                    self.rep_idx = self.rep_idx + 1;
                    self.second_half = false;
                    Ok(
                        Action::MoveCursor {
                            dx: self.jiggle_config.half_size as i32,
                            dy: 0,
                        },
                    )
                }
            },
            Phase::CycleSleep => {
                if self.run_for.is_unbounded() {
                    self.begin_action()
                } else {
                    self.phase = Phase::AwaitDeadline;
                    Ok(Action::ReadClock)
                }
            },
            Phase::AwaitDeadline => {
                if let Event::Clock { now_nanos } = e {
                    let elapsed: u128 = if now_nanos >= self.anchor_nanos {
                        now_nanos - self.anchor_nanos
                    } else {
                        0
                    };
                    let over = match self.run_for {
                        CustomDuration::Unbounded => false,
                        CustomDuration::Finite { nanos } => elapsed >= nanos,
                    };
                    if over {
                        self.phase = Phase::Finished;
                        Ok(Action::Finish)
                    } else {
                        self.begin_action()
                    }
                } else {
                    Ok(Action::ReadClock)
                }
            },
            Phase::Finished => Ok(Action::Finish),
            Phase::Failed => Err(JigglerError::InjectionFailure),
        }
    }

    /// Start one jiggle action, as [`spec_begin_action`] says.
    fn begin_action(&mut self) -> (r: Result<Action, JigglerError>)
        ensures
            *final(self) == spec_begin_action(*old(self)).0,
            r == spec_begin_action(*old(self)).1,
            wf(*final(self)),
    {
        if self.jiggle_config.repetitions == 0 {
            self.phase = Phase::CycleSleep;
            self.cycles = if self.cycles == u64::MAX {
                self.cycles
            } else {
                self.cycles + 1
            };
            Ok(Action::Sleep { span: self.jiggle_every })
        } else {
            self.phase = Phase::Moving;
            self.rep_idx = 0;
            self.second_half = false;
            Ok(
                Action::MoveCursor {
                    dx: self.jiggle_config.half_size as i32,
                    dy: 0,
                },
            )
        }
    }
}

/// The moves one full jiggle action issues, in order: for each of the
/// `repetitions` back-and-forths, `+half_size` then `-half_size` on
/// the x axis.
pub open spec fn action_moves(cfg: JiggleConfig) -> Seq<(int, int)> {
    alt_moves(cfg.half_size as int, cfg.repetitions as int)
}

pub open spec fn alt_moves(p: int, n: int) -> Seq<(int, int)> {
    Seq::new(
        (2 * n) as nat,
        |i: int|
            (
                if i % 2 == 0 {
                    p
                } else {
                    -p
                },
                0int,
            ),
    )
}

/// The total x displacement of a move sequence.
pub open spec fn sum_dx(s: Seq<(int, int)>) -> int
    decreases s.len(),
{
    if s.len() == 0 {
        0
    } else {
        sum_dx(s.drop_last()) + s.last().0
    }
}

proof fn lemma_alt_moves_sum(p: int, n: int)
    requires
        n >= 0,
    ensures
        sum_dx(alt_moves(p, n)) == 0,
    decreases n,
{
    if n > 0 {
        lemma_alt_moves_sum(p, n - 1);
        let s = alt_moves(p, n);
        assert(s.len() == 2 * n);
        assert(s.drop_last().drop_last() =~= alt_moves(p, n - 1));
        assert((2 * n - 1) % 2 == 1);
        assert((2 * n - 2) % 2 == 0);
        assert(s.last() == s[2 * n - 1]);
        assert(s.last().0 == -p);
        assert(s.drop_last().last() == s[2 * n - 2]);
        assert(s.drop_last().last().0 == p);
        assert(sum_dx(s) == sum_dx(s.drop_last()) + s.last().0);
        assert(sum_dx(s.drop_last()) == sum_dx(s.drop_last().drop_last()) + s.drop_last().last().0);
    }
}

/// A single jiggle action issues exactly `2 * repetitions` relative
/// moves, alternating `+half_size` and `-half_size` on the x axis,
/// each with no y component, and their displacements sum to zero: the
/// cursor ends where it began.
pub proof fn action_moves_law(cfg: JiggleConfig)
    ensures
        action_moves(cfg).len() == 2 * cfg.repetitions,
        forall|i: int|
            0 <= i < action_moves(cfg).len() ==> #[trigger] action_moves(cfg)[i] == (
            if i % 2 == 0 {
                cfg.half_size as int
            } else {
                -(cfg.half_size as int)
            },
            0int,
            ),
        sum_dx(action_moves(cfg)) == 0,
{
    lemma_alt_moves_sum(cfg.half_size as int, cfg.repetitions as int);
}

/// The move the scheduler issues while at repetition `rep`, first or
/// second half, is exactly the corresponding element of the planned
/// move sequence of one action.
pub proof fn machine_moves_follow_plan(cfg: JiggleConfig, rep: int, second: bool)
    requires
        0 <= rep < cfg.repetitions,
    ensures
        ({
            let mv = current_move(cfg, second);
            let i = 2 * rep + if second {
                1int
            } else {
                0int
            };
            action_moves(cfg)[i] == (mv.0 as int, mv.1 as int)
        }),
{
}

/// No reachable state of a run with an unbounded total duration awaits
/// a deadline check or has finished.
pub open spec fn never_deadline(s: Jiggler) -> bool {
    s.run_for is Unbounded ==> !(s.phase is AwaitDeadline) && !(s.phase is Finished)
}

/// A freshly built scheduler satisfies [`never_deadline`].
pub proof fn initial_never_deadline(s: Jiggler)
    requires
        s.phase is Idle,
    ensures
        never_deadline(s),
{
}

/// With an unbounded total duration the termination check never
/// evaluates true — for any elapsed time at all — and the scheduler
/// never answers `Finish`: each step preserves [`never_deadline`], so
/// by induction from the initial state a run never terminates via
/// deadline.  No instant is ever added to the unbounded span.
pub proof fn unbounded_never_finishes(s: Jiggler, e: Event)
    requires
        s.run_for is Unbounded,
        never_deadline(s),
    ensures
        never_deadline(spec_step(s, e).0),
        spec_step(s, e).1 != Ok::<Action, JigglerError>(Action::Finish),
        forall|elapsed: int| !deadline_reached(s.run_for, elapsed),
{
}

/// A failed cursor move immediately stops the run: the step that sees
/// the failure answers `InjectionFailure` and moves to `Failed`.
pub proof fn failure_stops_run(s: Jiggler, e: Event)
    requires
        s.phase is Moving,
        e == Event::MoveFailed,
    ensures
        spec_step(s, e).0.phase is Failed,
        spec_step(s, e).1 == Err::<Action, JigglerError>(JigglerError::InjectionFailure),
{
}

/// Failure is absorbing and not retried: once failed, every further
/// step leaves the state unchanged and answers `InjectionFailure`
/// again — in particular no further move is ever requested.
pub proof fn failed_is_absorbing(s: Jiggler, e: Event)
    requires
        s.phase is Failed,
    ensures
        spec_step(s, e).0 == s,
        spec_step(s, e).1 == Err::<Action, JigglerError>(JigglerError::InjectionFailure),
{
}

/// The number of jiggle actions a run with finite total duration `d`
/// and inter-cycle wait `w` completes: the least `k >= 1` such that
/// the check at elapsed time `k * w` stops the run.
pub open spec fn cycle_count(d: nat, w: nat) -> nat
    decreases d,
    when w >= 1
{
    if d <= w {
        1
    } else {
        1 + cycle_count((d - w) as nat, w)
    }
}

/// Under the terminate-at-or-after policy, an action runs at each of
/// the elapsed instants `0, w, 2*w, ...` and the deadline check after
/// the `k`-th action sees elapsed time `k * w`: the check stops the
/// run exactly from the `cycle_count(d, w)`-th action on, so exactly
/// `cycle_count(d, w)` actions complete.
pub proof fn cycle_count_law(d: u128, w: u128, k: nat)
    requires
        w >= 1,
        k >= 1,
    ensures
        deadline_reached(CustomDuration::Finite { nanos: d }, k * (w as int)) <==> k >= cycle_count(
            d as nat,
            w as nat,
        ),
    decreases d,
{
    if d <= w {
        assert(k * (w as int) >= 1 * (w as int)) by (nonlinear_arith)
            requires
                k >= 1,
                w >= 1,
        ;
    } else {
        if k == 1 {
            assert(cycle_count(((d - w) as u128) as nat, w as nat) >= 1);
            assert(1 * (w as int) == w);
        } else {
            cycle_count_law((d - w) as u128, w, (k - 1) as nat);
            assert((k - 1) * (w as int) == k * (w as int) - w) by (nonlinear_arith);
        }
    }
}

/// The completed-action count in closed form: one action for a zero
/// duration, and `floor((d - 1) / w) + 1` — that is, `ceil(d / w)` —
/// otherwise.
pub proof fn cycle_count_closed_form(d: u128, w: u128)
    requires
        w >= 1,
    ensures
        d == 0 ==> cycle_count(d as nat, w as nat) == 1,
        d >= 1 ==> cycle_count(d as nat, w as nat) == ((d - 1) as int) / (w as int) + 1,
{
    if d >= 1 {
        let c = cycle_count(d as nat, w as nat) as int;
        assert(c >= 1);
        cycle_count_law(d, w, c as nat);
        assert(c * (w as int) >= d);
        if c >= 2 {
            cycle_count_law(d, w, (c - 1) as nat);
            assert((c - 1) * (w as int) < d);
        } else {
            assert((c - 1) * (w as int) == 0) by (nonlinear_arith)
                requires
                    c == 1,
            ;
        }
        let q = c - 1;
        let r = (d - 1) - q * (w as int);
        assert(r < w) by (nonlinear_arith)
            requires
                c * (w as int) >= d,
                q == c - 1,
                r == (d - 1) - q * (w as int),
                w >= 1,
        ;
        lemma_fundamental_div_mod_converse((d - 1) as int, w as int, q, r);
    }
}

/// The machine after one full jiggle action that began at `s` (whose
/// repetition count is positive): back at the inter-cycle sleep, one
/// more action completed.
pub open spec fn after_action(s: Jiggler) -> Jiggler {
    Jiggler {
        phase: Phase::CycleSleep,
        rep_idx: (s.jiggle_config.repetitions - 1) as usize,
        second_half: true,
        cycles: saturating_inc(s.cycles),
        ..s
    }
}

/// An idealized drive of the scheduler: each sleep advances the clock
/// by exactly its span, each move succeeds instantly, and each clock
/// read sees the idealized time.  The result is the machine state at
/// `Finish`, or `None` where `fuel` steps do not reach it, a span is
/// unbounded, a sleep would overflow the clock, or the run fails.
pub open spec fn ideal_run(s: Jiggler, t: u128, e: Event, fuel: nat) -> Option<Jiggler>
    decreases fuel,
{
    if fuel == 0 {
        None
    } else {
        let stepped = spec_step(s, e);
        match stepped.1 {
            Ok(Action::Finish) => Some(stepped.0),
            Ok(Action::Sleep { span }) => match span {
                CustomDuration::Finite { nanos } => if t + nanos <= u128::MAX {
                    ideal_run(stepped.0, (t + nanos) as u128, Event::Slept, (fuel - 1) as nat)
                } else {
                    None
                },
                CustomDuration::Unbounded => None,
            },
            Ok(Action::ReadClock) => ideal_run(
                stepped.0,
                t,
                Event::Clock { now_nanos: t },
                (fuel - 1) as nat,
            ),
            Ok(Action::MoveCursor { .. }) => ideal_run(stepped.0, t, Event::MoveOk, (fuel - 1) as nat),
            Err(_) => None,
        }
    }
}

proof fn lemma_action_completes(s: Jiggler, t: u128, w: u128, f0: nat, fin: Jiggler)
    requires
        s.phase is Moving,
        !s.second_half,
        wf(s),
        s.jiggle_config.sleep == (CustomDuration::Finite { nanos: 0u128 }),
        s.jiggle_every == (CustomDuration::Finite { nanos: w }),
        t + w <= u128::MAX,
        ideal_run(after_action(s), (t + w) as u128, Event::Slept, f0) == Some(fin),
    ensures
        exists|f: nat| ideal_run(s, t, Event::MoveOk, f) == Some(fin),
    decreases s.jiggle_config.repetitions - s.rep_idx,
{
    let reps = s.jiggle_config.repetitions;
    let r = s.rep_idx;
    let s1 = Jiggler { phase: Phase::StepSleep, ..s };
    let s2 = Jiggler { phase: Phase::Moving, second_half: true, ..s };
    let s3 = Jiggler { phase: Phase::StepSleep, second_half: true, ..s };
    assert(spec_step(s, Event::MoveOk).0 == s1);
    assert(spec_step(s1, Event::Slept).0 == s2);
    assert(spec_step(s2, Event::MoveOk).0 == s3);
    if r + 1 == reps {
        let f = (f0 + 4) as nat;
        assert(spec_step(s3, Event::Slept).0 == after_action(s));
        assert(spec_step(s3, Event::Slept).1 == Ok::<Action, JigglerError>(
            Action::Sleep { span: s.jiggle_every },
        ));
        assert(ideal_run(s3, t, Event::Slept, (f0 + 1) as nat) == ideal_run(
            after_action(s),
            (t + w) as u128,
            Event::Slept,
            f0,
        ));
        assert(ideal_run(s2, t, Event::MoveOk, (f0 + 2) as nat) == ideal_run(
            s3,
            (t + 0) as u128,
            Event::Slept,
            (f0 + 1) as nat,
        ));
        assert(ideal_run(s1, t, Event::Slept, (f0 + 3) as nat) == ideal_run(
            s2,
            t,
            Event::MoveOk,
            (f0 + 2) as nat,
        ));
        assert(ideal_run(s, t, Event::MoveOk, f) == ideal_run(
            s1,
            (t + 0) as u128,
            Event::Slept,
            (f0 + 3) as nat,
        ));
        assert(ideal_run(s, t, Event::MoveOk, f) == Some(fin));
    } else {
        let s4 = Jiggler { phase: Phase::Moving, rep_idx: (r + 1) as usize, second_half: false, ..s };
        assert(spec_step(s3, Event::Slept).0 == s4);
        assert(after_action(s4) == after_action(s));
        lemma_action_completes(s4, t, w, f0, fin);
        let f1 = choose|f1: nat| ideal_run(s4, t, Event::MoveOk, f1) == Some(fin);
        assert(ideal_run(s3, t, Event::Slept, (f1 + 1) as nat) == ideal_run(
            s4,
            t,
            Event::MoveOk,
            f1,
        ));
        assert(ideal_run(s2, t, Event::MoveOk, (f1 + 2) as nat) == ideal_run(
            s3,
            (t + 0) as u128,
            Event::Slept,
            (f1 + 1) as nat,
        ));
        assert(ideal_run(s1, t, Event::Slept, (f1 + 3) as nat) == ideal_run(
            s2,
            t,
            Event::MoveOk,
            (f1 + 2) as nat,
        ));
        assert(ideal_run(s, t, Event::MoveOk, (f1 + 4) as nat) == ideal_run(
            s1,
            (t + 0) as u128,
            Event::Slept,
            (f1 + 3) as nat,
        ));
        assert(ideal_run(s, t, Event::MoveOk, (f1 + 4) as nat) == Some(fin));
    }
}

proof fn lemma_cycles_complete(s: Jiggler, t: u128, d: u128, w: u128)
    requires
        s.phase is CycleSleep,
        s.run_for == (CustomDuration::Finite { nanos: d }),
        s.jiggle_every == (CustomDuration::Finite { nanos: w }),
        s.jiggle_config.sleep == (CustomDuration::Finite { nanos: 0u128 }),
        w >= 1,
        1 <= s.cycles,
        s.cycles <= cycle_count(d as nat, w as nat),
        cycle_count(d as nat, w as nat) <= u64::MAX,
        t == s.anchor_nanos + s.cycles * w,
        s.anchor_nanos + cycle_count(d as nat, w as nat) * w <= u128::MAX,
    ensures
        exists|f: nat, fin: Jiggler|
            ideal_run(s, t, Event::Slept, f) == Some(fin) && fin.phase is Finished && fin.cycles
                == cycle_count(d as nat, w as nat),
    decreases cycle_count(d as nat, w as nat) - s.cycles,
{
    let c = cycle_count(d as nat, w as nat);
    let k = s.cycles as nat;
    let s1 = Jiggler { phase: Phase::AwaitDeadline, ..s };
    assert(spec_step(s, Event::Slept).0 == s1);
    assert(k * w >= 0) by (nonlinear_arith);
    assert(spec_elapsed(s.anchor_nanos, t) == k * w);
    cycle_count_law(d, w, k);
    let e1 = Event::Clock { now_nanos: t };
    if k >= c {
        let fin = Jiggler { phase: Phase::Finished, ..s1 };
        assert(deadline_reached(s.run_for, spec_elapsed(s1.anchor_nanos, t)));
        assert(spec_step(s1, e1) == (fin, Ok::<Action, JigglerError>(Action::Finish)));
        assert(ideal_run(s1, t, e1, 1nat) == Some(fin));
        assert(ideal_run(s, t, Event::Slept, 2nat) == ideal_run(s1, t, e1, 1nat));
        assert(fin.cycles == c);
        assert(fin.phase is Finished);
    } else {
        assert(!deadline_reached(s.run_for, spec_elapsed(s1.anchor_nanos, t)));
        assert((k + 1) * w == k * w + w) by (nonlinear_arith);
        assert((k + 1) * w <= c * w) by (nonlinear_arith)
            requires
                k + 1 <= c,
                w >= 0,
        ;
        assert(saturating_inc(s.cycles) == s.cycles + 1);
        let t2 = (t + w) as u128;
        if s.jiggle_config.repetitions == 0 {
            let s2 = Jiggler { phase: Phase::CycleSleep, cycles: (s.cycles + 1) as u64, ..s1 };
            assert(spec_begin_action(s1) == (s2, Ok::<Action, JigglerError>(
                Action::Sleep { span: s.jiggle_every },
            )));
            lemma_cycles_complete(s2, t2, d, w);
            let (f1, fin) = choose|f1: nat, fin: Jiggler|
                ideal_run(s2, t2, Event::Slept, f1) == Some(fin) && fin.phase is Finished
                    && fin.cycles == c;
            assert(ideal_run(s1, t, e1, (f1 + 1) as nat) == ideal_run(
                s2,
                t2,
                Event::Slept,
                f1,
            ));
            assert(ideal_run(s, t, Event::Slept, (f1 + 2) as nat) == ideal_run(
                s1,
                t,
                e1,
                (f1 + 1) as nat,
            ));
            assert(ideal_run(s, t, Event::Slept, (f1 + 2) as nat) == Some(fin));
        } else {
            let s2 = Jiggler { phase: Phase::Moving, rep_idx: 0usize, second_half: false, ..s1 };
            assert(spec_begin_action(s1).0 == s2);
            let s3 = after_action(s2);
            assert(s3.phase is CycleSleep);
            assert(s3.cycles == s.cycles + 1);
            assert(s3.anchor_nanos == s.anchor_nanos);
            lemma_cycles_complete(s3, t2, d, w);
            let (f1, fin) = choose|f1: nat, fin: Jiggler|
                ideal_run(s3, t2, Event::Slept, f1) == Some(fin) && fin.phase is Finished
                    && fin.cycles == c;
            lemma_action_completes(s2, t, w, f1, fin);
            let f2 = choose|f2: nat| ideal_run(s2, t, Event::MoveOk, f2) == Some(fin);
            assert(ideal_run(s1, t, e1, (f2 + 1) as nat) == ideal_run(
                s2,
                t,
                Event::MoveOk,
                f2,
            ));
            assert(ideal_run(s, t, Event::Slept, (f2 + 2) as nat) == ideal_run(
                s1,
                t,
                e1,
                (f2 + 1) as nat,
            ));
            assert(ideal_run(s, t, Event::Slept, (f2 + 2) as nat) == Some(fin));
        }
    }
}

/// Driven under an idealized clock — each sleep takes exactly its
/// span, each move succeeds instantly, the inter-step sleep is zero —
/// a schedule with a finite total duration `d` and an inter-cycle
/// wait `w >= 1` always finishes, and it completes exactly
/// `cycle_count(d, w)` jiggle actions: one action, then one more for
/// each further wait that fits before the deadline.
pub proof fn ideal_run_counts_actions(start_ns: u128, d: u128, w: u128, reps: usize, size: u16)
    requires
        w >= 1,
        cycle_count(d as nat, w as nat) <= u64::MAX,
        start_ns + cycle_count(d as nat, w as nat) * w <= u128::MAX,
    ensures
        exists|f: nat, fin: Jiggler|
            ideal_run(
                initial_spec(
                    CustomDuration::Finite { nanos: start_ns },
                    CustomDuration::Finite { nanos: d },
                    CustomDuration::Finite { nanos: w },
                    JiggleConfig {
                        sleep: CustomDuration::Finite { nanos: 0u128 },
                        repetitions: reps,
                        half_size: size,
                    },
                ),
                0u128,
                Event::Begin,
                f,
            ) == Some(fin) && fin.phase is Finished && fin.cycles == cycle_count(
                d as nat,
                w as nat,
            ),
{
    let c = cycle_count(d as nat, w as nat);
    assert(c >= 1);
    assert(1 * w == w) by (nonlinear_arith);
    assert(1 * w <= c * w) by (nonlinear_arith)
        requires
            1 <= c,
            w >= 0,
    ;
    let cfg = JiggleConfig {
        sleep: CustomDuration::Finite { nanos: 0u128 },
        repetitions: reps,
        half_size: size,
    };
    let s0 = initial_spec(
        CustomDuration::Finite { nanos: start_ns },
        CustomDuration::Finite { nanos: d },
        CustomDuration::Finite { nanos: w },
        cfg,
    );
    let s1 = Jiggler { phase: Phase::InitialDelay, ..s0 };
    let s2 = Jiggler { phase: Phase::AwaitAnchor, ..s1 };
    let s3 = Jiggler { anchor_nanos: start_ns, ..s2 };
    assert(spec_step(s0, Event::Begin) == (s1, Ok::<Action, JigglerError>(
        Action::Sleep { span: CustomDuration::Finite { nanos: start_ns } },
    )));
    assert(spec_step(s1, Event::Slept) == (s2, Ok::<Action, JigglerError>(Action::ReadClock)));
    let e2 = Event::Clock { now_nanos: start_ns };
    let t3 = (start_ns + w) as u128;
    if reps == 0 {
        let s4 = Jiggler { phase: Phase::CycleSleep, cycles: 1u64, ..s3 };
        assert(spec_begin_action(s3) == (s4, Ok::<Action, JigglerError>(
            Action::Sleep { span: CustomDuration::Finite { nanos: w } },
        )));
        lemma_cycles_complete(s4, t3, d, w);
        let (f1, fin) = choose|f1: nat, fin: Jiggler|
            ideal_run(s4, t3, Event::Slept, f1) == Some(fin) && fin.phase is Finished
                && fin.cycles == c;
        assert(ideal_run(s2, start_ns, e2, (f1 + 1) as nat) == ideal_run(
            s4,
            t3,
            Event::Slept,
            f1,
        ));
        assert(ideal_run(s1, start_ns, Event::Slept, (f1 + 2) as nat) == ideal_run(
            s2,
            start_ns,
            e2,
            (f1 + 1) as nat,
        ));
        assert(ideal_run(s0, 0u128, Event::Begin, (f1 + 3) as nat) == ideal_run(
            s1,
            (0 + start_ns) as u128,
            Event::Slept,
            (f1 + 2) as nat,
        ));
        assert(ideal_run(s0, 0u128, Event::Begin, (f1 + 3) as nat) == Some(fin));
    } else {
        let s4 = Jiggler { phase: Phase::Moving, rep_idx: 0usize, second_half: false, ..s3 };
        assert(spec_begin_action(s3).0 == s4);
        let s5 = after_action(s4);
        assert(s5.phase is CycleSleep);
        assert(s5.cycles == 1);
        assert(s5.anchor_nanos == start_ns);
        lemma_cycles_complete(s5, t3, d, w);
        let (f1, fin) = choose|f1: nat, fin: Jiggler|
            ideal_run(s5, t3, Event::Slept, f1) == Some(fin) && fin.phase is Finished
                && fin.cycles == c;
        lemma_action_completes(s4, start_ns, w, f1, fin);
        let f2 = choose|f2: nat| ideal_run(s4, start_ns, Event::MoveOk, f2) == Some(fin);
        assert(ideal_run(s2, start_ns, e2, (f2 + 1) as nat) == ideal_run(
            s4,
            start_ns,
            Event::MoveOk,
            f2,
        ));
        assert(ideal_run(s1, start_ns, Event::Slept, (f2 + 2) as nat) == ideal_run(
            s2,
            start_ns,
            e2,
            (f2 + 1) as nat,
        ));
        assert(ideal_run(s0, 0u128, Event::Begin, (f2 + 3) as nat) == ideal_run(
            s1,
            (0 + start_ns) as u128,
            Event::Slept,
            (f2 + 2) as nat,
        ));
        assert(ideal_run(s0, 0u128, Event::Begin, (f2 + 3) as nat) == Some(fin));
    }
}

} // verus!
