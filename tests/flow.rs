use striker_ball::collection::SingleSource;
use striker_ball::menus::{MatchDone, MatchDoneState};
use striker_ball::play_flow::{handle_disconnections, match_done_update, podium_update, score_display_update, Score};
use striker_ball::events::{KeyCode, KeyboardEvent};
use striker_ball::local_input::KeyboardState;
use striker_ball::matchmaking::MatchmakerPlugin;
use striker_ball::local_input::LocalInput;
use striker_ball::menu_flow::{
    fade_transition, play_leave, start_fade, update_menu, FadeEvents, FadeTransition, MenuAction, MenuCommand,
    MenuPlugin, MenuState,
};
use striker_ball::menus::{HowToPlay, Pause, ShowHide, Splash, SplashState};
use striker_ball::play_flow::{
    countdown_update, fade_in_update, set_player_states_scored_b, wait_for_score_update, FlowPlugin, PinScore,
    PlayCommand, PlayState, PlayerState,
};
use striker_ball::scene::{fix_camera_size, get_cpu_input, hide_debug_lines, toggle_debug_lines, CameraSize, PlayMode};
use striker_ball::menus::CreditsUi;
use striker_ball::play_input::PlayInput;
use striker_ball::slot::Team;

fn south() -> Vec<(SingleSource, LocalInput)> {
    let mut input = LocalInput::default();
    input.south.press();
    vec![(SingleSource::Gamepad(0), input)]
}

#[test]
fn flow_splash_to_team_select() {
    let mut world = MenuPlugin.install();
    let mut commands = Vec::new();
    world.splash.state = SplashState::Offline;
    let none = FadeEvents { out_finished: false, in_finished: false };
    update_menu(&mut world, &south(), &Vec::new(), none, None, 20, &mut commands);
    assert_eq!(world.menu_state, MenuState::FadeTransition);
    assert_eq!(commands, vec![MenuCommand::RestartFade]);
    let out = FadeEvents { out_finished: true, in_finished: false };
    update_menu(&mut world, &Vec::new(), &Vec::new(), out, None, 20, &mut commands);
    assert!(!world.splash.visible);
    assert!(world.team_select.visible);
    assert_eq!(world.menu_state, MenuState::FadeTransition);
    let back = FadeEvents { out_finished: false, in_finished: true };
    update_menu(&mut world, &Vec::new(), &Vec::new(), back, None, 20, &mut commands);
    assert_eq!(world.menu_state, MenuState::TeamSelect);
}

#[test]
fn flow_offline_prep_and_leave() {
    let mut world = MenuPlugin.install();
    let mut commands = Vec::new();
    start_fade(
        &mut world,
        FadeTransition { hide: MenuAction::TeamSelectHide, prep: MenuAction::PlayOfflinePrep, finish: MenuAction::Nothing },
        &mut commands,
    );
    fade_transition(&mut world, FadeEvents { out_finished: true, in_finished: true }, &mut commands);
    assert_eq!(world.menu_state, MenuState::InGame);
    assert_eq!(world.pause, Pause::Hidden);
    assert!(matches!(commands[1], MenuCommand::CreatePlay(PlayMode::Offline(_))));
    play_leave(&mut world, &mut commands);
    assert_eq!(world.pause, Pause::Disabled);
    assert_eq!(commands.last(), Some(&MenuCommand::DeletePlay));
}

#[test]
fn flow_match_phases() {
    let (mut state, mut score) = FlowPlugin.install();
    let mut commands = Vec::new();
    let mut players = vec![(Team::A, PlayerState::Wait), (Team::B, PlayerState::Wait)];
    fade_in_update(&mut state, false, &mut commands);
    assert_eq!(state, PlayState::FadeIn);
    fade_in_update(&mut state, true, &mut commands);
    assert_eq!(state, PlayState::Countdown);
    countdown_update(&mut state, true, &mut players);
    assert_eq!(state, PlayState::WaitForScore);
    assert_eq!(players[0].1, PlayerState::Free);
    wait_for_score_update(&mut state, &mut score, PinScore { a: 1, b: 0 }, &mut players, &mut commands);
    assert_eq!(state, PlayState::ScoreDisplay);
    assert_eq!(players, vec![(Team::A, PlayerState::Win), (Team::B, PlayerState::Lose)]);
    assert_eq!(commands, vec![PlayCommand::RestartCountdown, PlayCommand::RestartScoreDisplay, PlayCommand::RestartFade]);
    set_player_states_scored_b(&mut players);
    assert_eq!(players[1].1, PlayerState::Win);
}

#[test]
fn camera_fit_and_cpu_input() {
    assert_eq!(fix_camera_size((160, 90), (1920, 1080)), CameraSize::FixedWidth(160));
    assert_eq!(fix_camera_size((160, 90), (2560, 1080)), CameraSize::FixedHeight(90));
    assert_eq!(fix_camera_size((160, 90), (1080, 1080)), CameraSize::FixedWidth(160));
    assert_eq!(get_cpu_input(None).0, 0);
    let i = PlayInput { x: -1000, ..PlayInput::default() };
    assert_eq!(get_cpu_input(Some(i)), i.get_dense_input());
}

#[test]
fn screens_show_and_close() {
    let mut h = HowToPlay::Hidden;
    h.show();
    assert_eq!(h, HowToPlay::GameOverview);
    h.close();
    assert_eq!(h, HowToPlay::Hidden);
    let mut s = Splash { state: SplashState::PressGamepad, interact: None, visible: false };
    s.show();
    assert!(s.visible);
    s.close();
    assert!(!s.visible);
}

#[test]
fn flow_score_display_and_podium() {
    let mut state = PlayState::ScoreDisplay;
    let mut score = Score { target: 2, current: PinScore { a: 1, b: 0 }, previous: PinScore { a: 0, b: 0 } };
    let mut players = vec![(Team::A, PlayerState::Win), (Team::B, PlayerState::Lose)];
    let mut commands = Vec::new();
    score_display_update(&mut state, &mut score, PinScore { a: 1, b: 0 }, true, false, &mut players, &mut commands);
    assert_eq!(players[0].1, PlayerState::Wait);
    assert_eq!(commands, vec![PlayCommand::ResetPositions]);
    score_display_update(&mut state, &mut score, PinScore { a: 1, b: 0 }, false, true, &mut players, &mut commands);
    assert_eq!(state, PlayState::Countdown);
    assert_eq!(score.previous, PinScore { a: 1, b: 0 });
    let mut state = PlayState::ScoreDisplay;
    score_display_update(&mut state, &mut score, PinScore { a: 2, b: 0 }, true, true, &mut players, &mut commands);
    assert_eq!(state, PlayState::Podium);
    assert_eq!(commands.last(), Some(&PlayCommand::ShowWinner(Team::A)));

    let mut ui = MenuPlugin.install();
    let mut menu_commands = Vec::new();
    let mut done = MatchDone { visible: false, state: MatchDoneState::PlayAgain, output: None };
    podium_update(&mut state, true, false, &mut done, &mut ui, &mut menu_commands);
    assert_eq!(state, PlayState::MatchDone);
    assert!(done.visible);
    assert!(menu_commands.is_empty());
    done.output = Some(MatchDoneState::Quit);
    match_done_update(&done, &mut ui, &mut menu_commands);
    assert_eq!(ui.menu_state, MenuState::FadeTransition);
    assert_eq!(ui.transition.hide, MenuAction::PlayLeave);
    assert!(!handle_disconnections(0, &mut ui, &mut menu_commands));
    assert!(handle_disconnections(1, &mut ui, &mut menu_commands));
    assert_eq!(ui.transition.prep, MenuAction::LanUiPrep);
}

#[test]
fn keyboard_state_tracks_keys() {
    let mut k = KeyboardState::new();
    assert!(!k.is_pressed(&KeyCode::W));
    k.apply_keyboard_events(&vec![
        KeyboardEvent { key_code: Some(KeyCode::W), pressed: true },
        KeyboardEvent { key_code: None, pressed: true },
        KeyboardEvent { key_code: Some(KeyCode::A), pressed: true },
        KeyboardEvent { key_code: Some(KeyCode::W), pressed: false },
    ]);
    assert!(!k.is_pressed(&KeyCode::W));
    assert!(k.is_pressed(&KeyCode::A));
    assert_eq!(k.current.len(), 2);
}

#[test]
fn matchmaker_lan_search_names_service() {
    let mut m = MatchmakerPlugin::new("sb2player").build();
    assert_eq!(m.lan_search(), "_sb2player._udp.local.");
    assert!(m.discovering);
}

#[test]
fn debug_lines_toggle_per_f3_press() {
    let mut hidden = vec![false, true];
    hide_debug_lines(&mut hidden);
    assert_eq!(hidden, vec![true, true]);
    let f3 = KeyboardEvent { key_code: Some(KeyCode::F3), pressed: true };
    let up = KeyboardEvent { key_code: Some(KeyCode::F3), pressed: false };
    toggle_debug_lines(&vec![f3, up], &mut hidden);
    assert_eq!(hidden, vec![false, false]);
    toggle_debug_lines(&vec![f3, f3], &mut hidden);
    assert_eq!(hidden, vec![false, false]);
}

#[test]
fn credits_scroll_one_step_per_cycle() {
    let mut c = CreditsUi { visible: true, scroll: 0 };
    let mut up = LocalInput::default();
    up.menu_up.press();
    let inputs = vec![(SingleSource::Gamepad(0), up), (SingleSource::Gamepad(1), up)];
    assert!(c.process_input(&inputs).is_none());
    assert_eq!(c.scroll, 1);
    let mut back = LocalInput::default();
    back.menu_back.press();
    back.menu_down.press();
    assert!(c.process_input(&vec![(SingleSource::KeyboardMouse, back)]).is_some());
    assert_eq!(c.scroll, 0);
}
