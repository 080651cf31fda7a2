use porp::{GameLoop, LoopAction, LoopEvent, LoopPhase, TICK_NS};

/// Runs one frame along the ordinary path and returns how many ticks it ran.
fn run_frame(game: &mut GameLoop, now_ns: u64, beings: u64) -> u64 {
    let mut ticks = 0;
    let mut action = game.on_event(LoopEvent::Frame { now_ns });
    loop {
        match action {
            LoopAction::PollInput { tick_number } => {
                assert_eq!(tick_number, game.state().tick_number);
                action = game.on_event(LoopEvent::InputPolled { beings });
            }
            LoopAction::RunPrep => {
                action = game.on_event(LoopEvent::PrepFinished { count: beings });
            }
            LoopAction::RunTick => {
                ticks += 1;
                action = game.on_event(LoopEvent::TickFinished { count: beings });
            }
            LoopAction::Render => {
                assert_eq!(game.on_event(LoopEvent::Rendered), LoopAction::Measure);
                return ticks;
            }
            other => panic!("unexpected action {:?}", other),
        }
    }
}

#[test]
fn fixed_timestep_runs_whole_steps_only() {
    let mut game = GameLoop::new(10, 1000);
    assert_eq!(run_frame(&mut game, 1000 + 3 * 10 + 7, 4), 3);
    assert_eq!(game.state().tick_number, 3);
    assert_eq!(game.state().accumulated_ns, 7);
    assert_eq!(run_frame(&mut game, 1037 + 2, 4), 0);
    assert_eq!(run_frame(&mut game, 1039 + 1, 4), 1);
    assert_eq!(game.state().accumulated_ns, 0);
}

#[test]
fn fixed_timestep_nominal_rate() {
    let mut game = GameLoop::new(TICK_NS, 0);
    assert_eq!(run_frame(&mut game, 5 * TICK_NS + TICK_NS - 1, 2), 5);
    assert_eq!(run_frame(&mut game, 5 * TICK_NS + TICK_NS - 1, 2), 0);
}

#[test]
fn fixed_timestep_no_beings_still_ticks() {
    let mut game = GameLoop::new(10, 0);
    assert_eq!(run_frame(&mut game, 20, 0), 2);
}

#[test]
fn tick_phase_waits_for_every_prep_task() {
    let mut game = GameLoop::new(10, 0);
    assert_eq!(
        game.on_event(LoopEvent::Frame { now_ns: 10 }),
        LoopAction::PollInput { tick_number: 0 }
    );
    assert_eq!(game.on_event(LoopEvent::InputPolled { beings: 3 }), LoopAction::RunPrep);
    assert_eq!(game.on_event(LoopEvent::TickFinished { count: 3 }), LoopAction::Nothing);
    assert_eq!(game.on_event(LoopEvent::PrepFinished { count: 2 }), LoopAction::AwaitPrep);
    assert_eq!(game.state().phase, LoopPhase::Barrier);
    assert_eq!(game.on_event(LoopEvent::PrepFinished { count: 2 }), LoopAction::Nothing);
    assert_eq!(game.on_event(LoopEvent::PrepFinished { count: 1 }), LoopAction::RunTick);
    assert_eq!(game.state().prepared, 3);
    assert_eq!(game.on_event(LoopEvent::TickFinished { count: 1 }), LoopAction::AwaitTick);
    assert_eq!(game.on_event(LoopEvent::TickFinished { count: 2 }), LoopAction::Render);
    assert_eq!(game.state().tick_number, 1);
}

#[test]
fn closing_stops_the_loop() {
    let mut game = GameLoop::new(10, 0);
    game.on_event(LoopEvent::Frame { now_ns: 10 });
    assert_eq!(game.on_event(LoopEvent::Closed), LoopAction::Stop);
    assert_eq!(game.state().phase, LoopPhase::Terminated);
    assert_eq!(game.on_event(LoopEvent::InputPolled { beings: 1 }), LoopAction::Stop);
}

#[test]
fn clock_going_back_adds_no_time() {
    let mut game = GameLoop::new(10, 100);
    assert_eq!(run_frame(&mut game, 50, 1), 0);
    assert_eq!(game.state().last_ns, 100);
    assert_eq!(run_frame(&mut game, 110, 1), 1);
}
