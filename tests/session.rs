use striker_ball::collection::{PlayTeamInputCollector, SingleSource};
use striker_ball::events::{GamepadAxis, GamepadButton, GamepadEvent, KeyCode, KeyboardEvent, MouseButtonEvent};
use striker_ball::play_input::PlayTeamInputs;
use striker_ball::scene::{offline_session_runner, PlayersInfo};
use striker_ball::dense::PlayTeamInputDense;
use striker_ball::play_input::PlayTeamInput;
use striker_ball::session::{apply_confirmed, OfflineRunner, OnlineRunner, SessionRunner, StepDecision, STEP};

fn idle_runner() -> OfflineRunner {
    OfflineRunner::new(
        PlayTeamInputCollector::new(SingleSource::KeyboardMouse, SingleSource::Gamepad(1)),
        PlayTeamInputCollector::new(SingleSource::Gamepad(2), SingleSource::Gamepad(3)),
    )
}

fn no_events() -> (Vec<MouseButtonEvent>, Vec<KeyboardEvent>, Vec<GamepadEvent>) {
    (Vec::new(), Vec::new(), Vec::new())
}

/// Runs one host frame at `now` nanoseconds; returns the steps run and
/// whether the frame was cut short.
fn frame(runner: &mut OfflineRunner, now: u64, loop_elapsed: u64, inputs: &mut PlayTeamInputs) -> (u32, bool) {
    let (m, k, g) = no_events();
    runner.begin_frame(now, &PlayTeamInputs::default(), &m, &k, &g);
    let mut steps = 0;
    loop {
        match runner.next_step(loop_elapsed, inputs) {
            StepDecision::Advance => steps += 1,
            StepDecision::Slowdown => return (steps, true),
            StepDecision::Done => return (steps, false),
        }
    }
}

#[test]
fn runner_one_step_from_33ms() {
    let mut runner = idle_runner();
    let mut inputs = PlayTeamInputs::default();
    assert_eq!(frame(&mut runner, 1_000_000_000, 0, &mut inputs), (0, false));
    assert_eq!(runner.accumulator, 0);
    assert_eq!(frame(&mut runner, 1_033_000_000, 0, &mut inputs), (1, false));
    // 0.033 s - 1/60 s = 0.0163333 s, in sixtieths of a nanosecond
    assert_eq!(runner.accumulator, 33_000_000 * 60 - STEP);
    assert_eq!(runner.accumulator / 60, 16_333_333);
}

#[test]
fn runner_counts_floor_of_total() {
    let mut runner = idle_runner();
    let mut inputs = PlayTeamInputs::default();
    let mut now: u64 = 5_000_000;
    frame(&mut runner, now, 0, &mut inputs);
    let deltas: [u64; 6] = [7_000_000, 40_000_000, 1_000_000, 16_000_000, 90_000_000, 3_000_000];
    let mut total_steps = 0;
    let mut total: u64 = 0;
    for d in deltas {
        now += d;
        total += d;
        total_steps += frame(&mut runner, now, 0, &mut inputs).0;
    }
    assert_eq!(total_steps as u64, total * 60 / STEP);
}

#[test]
fn runner_slowdown_drops_bank() {
    let mut runner = idle_runner();
    let mut inputs = PlayTeamInputs::default();
    frame(&mut runner, 0, 0, &mut inputs);
    let (steps, cut) = frame(&mut runner, 100_000_000, 20_000_000, &mut inputs);
    assert_eq!(steps, 0);
    assert!(cut);
    assert_eq!(runner.accumulator, 0);
    assert!(steps < 6);
}

#[test]
fn runner_snapshot_and_disable() {
    let mut runner = idle_runner();
    let mut inputs = PlayTeamInputs::default();
    let keys = vec![KeyboardEvent { key_code: Some(KeyCode::D), pressed: true }, KeyboardEvent {
        key_code: Some(KeyCode::J),
        pressed: true,
    }];
    runner.begin_frame(0, &PlayTeamInputs::default(), &Vec::new(), &keys, &Vec::new());
    runner.begin_frame(17_000_000, &PlayTeamInputs::default(), &Vec::new(), &Vec::new(), &Vec::new());
    assert_eq!(runner.next_step(0, &mut inputs), StepDecision::Advance);
    assert_eq!(inputs.clients[0].p1.x, 1000);
    assert!(inputs.clients[0].p1.shoot.just_pressed());
    assert_eq!(runner.next_step(0, &mut inputs), StepDecision::Done);
    runner.disable_local_input(true);
    runner.begin_frame(34_000_000, &PlayTeamInputs::default(), &Vec::new(), &Vec::new(), &Vec::new());
    assert_eq!(runner.next_step(0, &mut inputs), StepDecision::Advance);
    assert_eq!(inputs.clients[0].p1.x, 0);
    assert!(!inputs.clients[0].p1.shoot.pressed());
    runner.restart_session();
    assert_eq!(runner.accumulator, 0);
    assert!(runner.last_run.is_none());
}

#[test]
fn offline_runner_binds_players() {
    let runner = offline_session_runner(PlayersInfo::default());
    assert_eq!(runner.collectors[0].p1_source, SingleSource::Gamepad(0));
    assert_eq!(runner.collectors[0].p2_source, SingleSource::Gamepad(0));
    assert_eq!(runner.collectors[1].p1_source, SingleSource::Gamepad(0));
}

#[test]
fn collector_shared_gamepad_splits_sticks() {
    let mut c = PlayTeamInputCollector::new(SingleSource::Gamepad(4), SingleSource::Gamepad(4));
    let pads = vec![
        GamepadEvent::Axis { gamepad: 4, axis: GamepadAxis::LeftStickX, value: 600 },
        GamepadEvent::Axis { gamepad: 4, axis: GamepadAxis::LeftStickY, value: -300 },
    ];
    c.apply_inputs(&Vec::new(), &Vec::new(), &pads);
    assert_eq!((c.current.p1.x, c.current.p1.y), (600, -300));
    assert_eq!((c.current.p2.x, c.current.p2.y), (0, 0));
    let pads = vec![
        GamepadEvent::Axis { gamepad: 4, axis: GamepadAxis::RightStickX, value: -1200 },
        GamepadEvent::Axis { gamepad: 4, axis: GamepadAxis::RightStickY, value: 250 },
        GamepadEvent::Button { gamepad: 4, button: GamepadButton::South, pressed: true },
    ];
    c.apply_inputs(&Vec::new(), &Vec::new(), &pads);
    assert_eq!((c.current.p1.x, c.current.p1.y), (600, -300));
    assert_eq!((c.current.p2.x, c.current.p2.y), (-1000, 250));
    assert!(c.current.p1.shoot.pressed());
    assert!(c.current.p2.shoot.pressed());
}

#[test]
fn collector_separate_gamepads_read_left_sticks() {
    let mut c = PlayTeamInputCollector::new(SingleSource::Gamepad(1), SingleSource::Gamepad(2));
    let pads = vec![
        GamepadEvent::Axis { gamepad: 2, axis: GamepadAxis::LeftStickX, value: 400 },
        GamepadEvent::Axis { gamepad: 1, axis: GamepadAxis::RightStickX, value: 900 },
        GamepadEvent::Button { gamepad: 2, button: GamepadButton::LeftTrigger, pressed: true },
    ];
    c.apply_inputs(&Vec::new(), &Vec::new(), &pads);
    assert_eq!(c.current.p1.x, 0);
    assert_eq!(c.current.p2.x, 400);
    assert!(c.current.p2.pass.pressed());
}

#[test]
fn collector_cpu_slot_ignores_devices() {
    let mut c = PlayTeamInputCollector::new(SingleSource::CPU(striker_ball::slot::PlayerSlot::A1), SingleSource::KeyboardMouse);
    let mut cpu = PlayTeamInputs::default();
    cpu.clients[0].p1.x = -500;
    let keys = vec![KeyboardEvent { key_code: Some(KeyCode::W), pressed: true }];
    let mouse = vec![MouseButtonEvent { button: striker_ball::events::MouseButton::Right, pressed: true }];
    c.offline_apply_inputs(&cpu.clients[0], &mouse, &keys, &Vec::new());
    assert_eq!((c.current.p1.x, c.current.p1.y), (-500, 0));
    assert_eq!(c.current.p2.y, 1000);
    assert!(c.current.p2.pass.pressed());
}

#[test]
fn online_runner_publishes_and_applies() {
    let collector = PlayTeamInputCollector::new(SingleSource::KeyboardMouse, SingleSource::KeyboardMouse);
    let mut online = OnlineRunner::new(collector);
    let keys = vec![KeyboardEvent { key_code: Some(KeyCode::S), pressed: true }];
    let (frame, dense) = online.collect(&Vec::new(), &keys, &Vec::new());
    assert_eq!(frame, 0);
    let (frame, _) = online.collect(&Vec::new(), &Vec::new(), &Vec::new());
    assert_eq!(frame, 1);
    let mut snapshot = PlayTeamInputs::default();
    apply_confirmed(&mut snapshot, &[PlayTeamInputDense::default(), dense]);
    assert_eq!((snapshot.clients[1].p1.x, snapshot.clients[1].p1.y), (0, -1000));
    assert_eq!((snapshot.clients[0].p1.x, snapshot.clients[0].p1.y), (0, 0));
    online.disable_local_input(true);
    let (_, quiet) = online.collect(&Vec::new(), &Vec::new(), &Vec::new());
    assert_eq!(quiet, PlayTeamInput::default().get_dense_input());
    let mut runner = SessionRunner::Online(online);
    runner.disable_local_input(false);
    assert!(matches!(runner, SessionRunner::Online(r) if !r.disable_local_input));
}
