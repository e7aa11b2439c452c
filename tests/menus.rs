use striker_ball::collection::SingleSource;
use striker_ball::local_input::{LocalInput, LocalInputs};
use striker_ball::events::{GamepadAxis, GamepadButton, GamepadEvent, KeyCode, KeyboardEvent};
use striker_ball::menus::{
    allowed_character, HowToPlay, LanSelect, LanSelectOutput, LanSelection, LanUIState, MatchDone, MatchDoneState,
    NetworkQuit, NetworkQuitOutput, NetworkQuitState, Pause, PauseOutput, ServiceType, Settings, SettingsState,
    SfxVolumeSetting, MusicVolumeSetting, SplashState,
};
use striker_ball::play_flow::{PinScore, Score};
use striker_ball::slot::Team;

fn with(f: impl Fn(&mut LocalInput)) -> Vec<(SingleSource, LocalInput)> {
    let mut input = LocalInput::default();
    f(&mut input);
    vec![(SingleSource::Gamepad(0), input)]
}

#[test]
fn pause_cycles_and_outputs() {
    let mut p = Pause::Hidden;
    assert_eq!(p.process_input(&with(|i| i.pause.press())), Some(PauseOutput::Show));
    assert_eq!(p, Pause::Continue);
    p.cycle();
    assert_eq!(p, Pause::Restart);
    assert_eq!(p.process_input(&with(|i| i.menu_select.press())), Some(PauseOutput::Restart));
    assert_eq!(p, Pause::Disabled);
    assert_eq!(p.process_input(&with(|i| i.pause.press())), None);
    let mut q = Pause::Continue;
    q.process_input(&with(|i| i.menu_up.press()));
    assert_eq!(q, Pause::Quit);
}

#[test]
fn network_quit_prompt() {
    let mut q = NetworkQuit::default();
    let esc = vec![KeyboardEvent { key_code: Some(KeyCode::Escape), pressed: true }];
    assert_eq!(q.process_input(&esc, &Vec::new()), Some(NetworkQuitOutput::Show));
    assert!(q.visible);
    assert_eq!(q.process_input(&Vec::new(), &with(|i| i.menu_left.press())), None);
    assert_eq!(q.state, NetworkQuitState::Yes);
    assert_eq!(q.process_input(&Vec::new(), &with(|i| i.south.press())), Some(NetworkQuitOutput::Quit));
    assert!(!q.visible);
    assert_eq!(q.output_hide(), None);
}

#[test]
fn match_done_menu() {
    let mut m = MatchDone { visible: true, state: MatchDoneState::PlayAgain, output: None };
    m.cycle_up();
    assert_eq!(m.state, MatchDoneState::Quit);
    m.cycle_down();
    m.cycle_down();
    assert_eq!(m.state, MatchDoneState::TeamSelect);
    assert_eq!(m.process_input(&with(|i| i.menu_select.press())), Some(MatchDoneState::TeamSelect));
    assert!(!m.visible);
    assert_eq!(m.process_input(&with(|i| i.menu_select.press())), None);
}

#[test]
fn splash_and_settings_cycles() {
    let mut s = SplashState::Offline;
    s.cycle_up();
    assert_eq!(s, SplashState::HowToPlay);
    s.cycle_down();
    assert_eq!(s, SplashState::Offline);
    let mut g = SplashState::PressGamepad;
    g.cycle_down();
    assert_eq!(g, SplashState::PressGamepad);
    let mut st = Settings {
        state: SettingsState::SFX,
        visible: true,
        sfx: SfxVolumeSetting::default(),
        music: MusicVolumeSetting(0),
    };
    st.process_input(&with(|i| i.menu_right.press()));
    assert_eq!(st.sfx.0, 7);
    st.process_input(&with(|i| i.menu_left.press()));
    assert_eq!(st.sfx.0, 6);
    st.process_input(&with(|i| {
        i.menu_down.press();
        i.menu_left.press();
    }));
    assert_eq!(st.state, SettingsState::Music);
    assert_eq!(st.music.0, 0);
    assert!(st.process_input(&with(|i| i.menu_back.press())).is_some());
}

#[test]
fn how_to_play_pages() {
    let mut h = HowToPlay::GameOverview;
    h.left();
    assert_eq!(h, HowToPlay::GameOverview);
    h.right();
    h.right();
    h.right();
    h.right();
    assert_eq!(h, HowToPlay::KeyboardControls);
    assert!(h.process_input(&with(|i| i.menu_left.press())).is_none());
    assert_eq!(h, HowToPlay::TwinStickControls);
    assert!(h.process_input(&with(|i| i.menu_back.press())).is_some());
}

#[test]
fn lan_select_two_players() {
    let mut l = LanSelect { visible: true, selection: LanSelection::TwoPlayer };
    let mut a = LocalInput::default();
    a.menu_select.press();
    let first = vec![(SingleSource::Gamepad(3), a)];
    assert!(l.process_input(&first).is_none());
    assert_eq!(l.selection, LanSelection::TwoPlayerBind { player1: SingleSource::Gamepad(3) });
    let second = vec![(SingleSource::KeyboardMouse, a)];
    assert_eq!(
        l.process_input(&second),
        Some(LanSelectOutput::ServiceType(ServiceType::TwoPlayer(SingleSource::Gamepad(3), SingleSource::KeyboardMouse)))
    );
    assert_eq!(ServiceType::OnePlayer(2).service_name(), "sb1player");
    assert_eq!(ServiceType::TwoPlayer(SingleSource::KeyboardMouse, SingleSource::Gamepad(1)).service_name(), "sb2player");
}

#[test]
fn lan_lobby_cycles_and_characters() {
    let mut s = LanUIState::Host;
    s.cycle_up();
    assert_eq!(s, LanUIState::Host);
    s.cycle_down();
    assert_eq!(s, LanUIState::Server(0));
    s.cycle_down();
    assert_eq!(s, LanUIState::Server(1));
    s.cycle_up();
    s.cycle_up();
    assert_eq!(s, LanUIState::Host);
    assert!(allowed_character(&'a'));
    assert!(allowed_character(&'Z'));
    assert!(allowed_character(&'_'));
    assert!(!allowed_character(&'x'));
    assert!(!allowed_character(&' '));
}

#[test]
fn local_inputs_track_devices() {
    let mut inputs = LocalInputs::new();
    let pads = vec![
        GamepadEvent::Axis { gamepad: 5, axis: GamepadAxis::LeftStickX, value: 800 },
        GamepadEvent::Button { gamepad: 6, button: GamepadButton::South, pressed: true },
    ];
    let keys = vec![KeyboardEvent { key_code: Some(KeyCode::Escape), pressed: true }];
    inputs.update(&pads, &keys);
    assert_eq!(inputs.sources.len(), 3);
    assert!(inputs.get_input(SingleSource::Gamepad(5)).menu_right.just_pressed());
    assert!(inputs.get_input(SingleSource::Gamepad(6)).menu_select.pressed());
    assert!(inputs.get_input(SingleSource::KeyboardMouse).pause.just_pressed());
    inputs.advance();
    assert!(!inputs.get_input(SingleSource::KeyboardMouse).pause.just_pressed());
    assert!(inputs.get_input(SingleSource::Gamepad(9)) == LocalInput::default());
    assert_eq!(inputs.sources.len(), 4);
}

#[test]
fn score_scorer_and_winner() {
    let mut s = Score { target: 7, current: PinScore { a: 0, b: 0 }, previous: PinScore { a: 0, b: 0 } };
    assert_eq!(s.scorer(), None);
    s.update_current(PinScore { a: 0, b: 1 });
    assert_eq!(s.scorer(), Some(Team::B));
    s.update_previous();
    assert_eq!(s.scorer(), None);
    s.update_current(PinScore { a: 7, b: 1 });
    assert_eq!(s.winner(), Some(Team::A));
}
