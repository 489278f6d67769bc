use jiggler::Action;
use jiggler::CustomDuration;
use jiggler::Event;
use jiggler::JiggleConfig;
use jiggler::Jiggler;
use jiggler::JigglerError;
use jiggler::Phase;

fn finite(nanos: u128) -> CustomDuration {
    CustomDuration::Finite { nanos }
}

/// Drive a scheduler under an idealized clock: sleeps advance the
/// clock by exactly their span, moves succeed instantly.  Returns the
/// issued moves, the completed-cycle count, and whether the run
/// finished within `max_steps` steps.
fn run_ideal(
    start: CustomDuration,
    end: CustomDuration,
    wait: CustomDuration,
    sleep: CustomDuration,
    reps: usize,
    size: u16,
    max_steps: usize,
) -> (Vec<(i32, i32)>, u64, bool) {
    let config = JiggleConfig::new(sleep, reps, size);
    let mut machine = Jiggler::new(start, end, wait, config);
    let mut now: u128 = 0;
    let mut event = Event::Begin;
    let mut moves: Vec<(i32, i32)> = Vec::new();
    let mut steps: usize = 0;
    loop {
        steps += 1;
        if steps > max_steps {
            return (moves, machine.cycles, false);
        }
        match machine.step(event) {
            Ok(Action::Sleep { span }) => {
                if let CustomDuration::Finite { nanos } = span {
                    now += nanos;
                }
                event = Event::Slept;
            }
            Ok(Action::ReadClock) => {
                event = Event::Clock { now_nanos: now };
            }
            Ok(Action::MoveCursor { dx, dy }) => {
                moves.push((dx, dy));
                event = Event::MoveOk;
            }
            Ok(Action::Finish) => {
                return (moves, machine.cycles, true);
            }
            Err(e) => panic!("unexpected scheduler error: {:?}", e),
        }
    }
}

/// The action count of a finite run, under an inter-step sleep of
/// zero so the clock advances only by the inter-cycle wait.
fn count_actions(end_nanos: u128, wait_nanos: u128) -> u64 {
    let (_, cycles, finished) =
        run_ideal(finite(0), finite(end_nanos), finite(wait_nanos), finite(0), 1, 1, 100_000);
    assert!(finished);
    cycles
}

#[test]
fn single_action_moves_alternate_and_cancel() {
    // One full action: 2 * 3 moves of +/-10 on the x axis, net zero.
    let (moves, cycles, finished) =
        run_ideal(finite(0), finite(1), finite(100), finite(5), 3, 10, 100_000);
    assert!(finished);
    assert_eq!(cycles, 1);
    assert_eq!(
        moves,
        vec![(10, 0), (-10, 0), (10, 0), (-10, 0), (10, 0), (-10, 0)]
    );
    assert_eq!(moves.iter().map(|m| m.0 as i64).sum::<i64>(), 0);
    assert_eq!(moves.len(), 2 * 3);
}

#[test]
fn end_to_end_one_second_run() {
    // start=0:seconds, end=1:seconds, wait=1:seconds, repetitions=1,
    // displacement=5: exactly one action of two moves, then the
    // deadline check terminates the run.
    let start = CustomDuration::from_str("0:seconds").unwrap();
    let end = CustomDuration::from_str("1:seconds").unwrap();
    let wait = CustomDuration::from_str("1:seconds").unwrap();
    let (moves, cycles, finished) = run_ideal(start, end, wait, finite(0), 1, 5, 100_000);
    assert!(finished);
    assert_eq!(moves, vec![(5, 0), (-5, 0)]);
    assert_eq!(cycles, 1);
}

#[test]
fn action_counts_follow_the_deadline_policy() {
    // With checks at multiples of the wait, the count is
    // max(1, ceil(end / wait)).
    assert_eq!(count_actions(10_000_000_000, 3_000_000_000), 4);
    assert_eq!(count_actions(9_000_000_000, 3_000_000_000), 3);
    assert_eq!(count_actions(10_000_000_000, 4_000_000_000), 3);
    assert_eq!(count_actions(1_000_000_000, 1_000_000_000), 1);
    assert_eq!(count_actions(0, 5_000_000_000), 1);
    assert_eq!(count_actions(7, 2), 4);
}

#[test]
fn unbounded_run_does_not_finish() {
    let (moves, cycles, finished) = run_ideal(
        finite(0),
        CustomDuration::Unbounded,
        finite(1),
        finite(0),
        1,
        2,
        1_000,
    );
    assert!(!finished);
    assert!(cycles > 100);
    assert_eq!(moves[0], (2, 0));
}

#[test]
fn unbounded_run_survives_a_far_future_clock() {
    // Mock the clock far forward: the anchor reading is huge, and an
    // unbounded run must keep going without any overflow.
    let config = JiggleConfig::new(finite(0), 1, 1);
    let mut machine = Jiggler::new(finite(0), CustomDuration::Unbounded, finite(1), config);
    assert!(matches!(machine.step(Event::Begin), Ok(Action::Sleep { .. })));
    assert!(matches!(machine.step(Event::Slept), Ok(Action::ReadClock)));
    let far = u128::MAX;
    assert!(matches!(
        machine.step(Event::Clock { now_nanos: far }),
        Ok(Action::MoveCursor { dx: 1, dy: 0 })
    ));
    assert!(matches!(machine.step(Event::MoveOk), Ok(Action::Sleep { .. })));
    assert!(matches!(
        machine.step(Event::Slept),
        Ok(Action::MoveCursor { dx: -1, dy: 0 })
    ));
    assert!(matches!(machine.step(Event::MoveOk), Ok(Action::Sleep { .. })));
    // End of the action; the inter-cycle sleep, then straight into the
    // next action: no deadline check, no clock read.
    assert!(matches!(machine.step(Event::Slept), Ok(Action::Sleep { .. })));
    assert!(matches!(
        machine.step(Event::Slept),
        Ok(Action::MoveCursor { dx: 1, dy: 0 })
    ));
    assert_eq!(machine.phase, Phase::Moving);
}

#[test]
fn injection_failure_stops_the_run() {
    let config = JiggleConfig::new(finite(0), 3, 10);
    let mut machine = Jiggler::new(finite(0), CustomDuration::Unbounded, finite(1), config);
    assert!(matches!(machine.step(Event::Begin), Ok(Action::Sleep { .. })));
    assert!(matches!(machine.step(Event::Slept), Ok(Action::ReadClock)));
    assert!(matches!(
        machine.step(Event::Clock { now_nanos: 0 }),
        Ok(Action::MoveCursor { .. })
    ));
    // The first move fails: the error is fatal and immediate.
    assert_eq!(
        machine.step(Event::MoveFailed),
        Err(JigglerError::InjectionFailure)
    );
    assert_eq!(machine.phase, Phase::Failed);
    // No retry, no further move: every later step reports the same
    // failure and requests nothing.
    assert_eq!(machine.step(Event::Slept), Err(JigglerError::InjectionFailure));
    assert_eq!(machine.step(Event::MoveOk), Err(JigglerError::InjectionFailure));
    assert_eq!(machine.phase, Phase::Failed);
}

#[test]
fn failure_mid_action_stops_immediately() {
    let config = JiggleConfig::new(finite(0), 2, 4);
    let mut machine = Jiggler::new(finite(0), finite(1_000), finite(1), config);
    assert!(matches!(machine.step(Event::Begin), Ok(Action::Sleep { .. })));
    assert!(matches!(machine.step(Event::Slept), Ok(Action::ReadClock)));
    assert!(matches!(
        machine.step(Event::Clock { now_nanos: 7 }),
        Ok(Action::MoveCursor { dx: 4, dy: 0 })
    ));
    assert!(matches!(machine.step(Event::MoveOk), Ok(Action::Sleep { .. })));
    assert!(matches!(
        machine.step(Event::Slept),
        Ok(Action::MoveCursor { dx: -4, dy: 0 })
    ));
    // The second move of the first repetition fails.
    assert_eq!(
        machine.step(Event::MoveFailed),
        Err(JigglerError::InjectionFailure)
    );
    assert_eq!(machine.cycles, 0);
}

#[test]
fn zero_repetitions_issue_no_moves() {
    let (moves, cycles, finished) =
        run_ideal(finite(0), finite(10), finite(4), finite(0), 0, 10, 100_000);
    assert!(finished);
    assert!(moves.is_empty());
    assert_eq!(cycles, 3);
}

#[test]
fn start_delay_is_slept_first() {
    let config = JiggleConfig::new(finite(0), 1, 1);
    let mut machine = Jiggler::new(finite(42), finite(1), finite(1), config);
    assert_eq!(machine.phase, Phase::Idle);
    let first = machine.step(Event::Begin);
    assert_eq!(first, Ok(Action::Sleep { span: finite(42) }));
    assert_eq!(machine.phase, Phase::InitialDelay);
}

#[test]
fn anchor_is_captured_once_after_the_initial_delay() {
    // The deadline is measured from the anchor reading, not from zero:
    // an anchor of 100 with a run of 10 stops once the clock reads 110.
    let config = JiggleConfig::new(finite(0), 0, 1);
    let mut machine = Jiggler::new(finite(0), finite(10), finite(3), config);
    assert!(matches!(machine.step(Event::Begin), Ok(Action::Sleep { .. })));
    assert!(matches!(machine.step(Event::Slept), Ok(Action::ReadClock)));
    assert!(matches!(
        machine.step(Event::Clock { now_nanos: 100 }),
        Ok(Action::Sleep { .. })
    ));
    assert!(matches!(machine.step(Event::Slept), Ok(Action::ReadClock)));
    assert!(matches!(
        machine.step(Event::Clock { now_nanos: 109 }),
        Ok(Action::Sleep { .. })
    ));
    assert!(matches!(machine.step(Event::Slept), Ok(Action::ReadClock)));
    assert_eq!(machine.step(Event::Clock { now_nanos: 110 }), Ok(Action::Finish));
    assert_eq!(machine.phase, Phase::Finished);
}

#[test]
fn config_constructor_keeps_fields() {
    let c = JiggleConfig::new(finite(9), 5, 7);
    assert_eq!(c.sleep, finite(9));
    assert_eq!(c.repetitions, 5);
    assert_eq!(c.half_size, 7);
}
