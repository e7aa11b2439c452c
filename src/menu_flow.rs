//! The menu flow: which screen has control, fades between screens, and the
//! requests that the flow makes of the match session and the network.
use vstd::prelude::*;

use crate::collection::SingleSource;
use crate::local_input::LocalInput;
use crate::matchmaking::{CancelAction, Matchmaker, MatchmakerPlugin};
use crate::menus::{
    CreditsOutput, HowToPlay, HowToPlayOutput, LanSelect, LanSelectOutput, LanSelection, LanUI, LanUIOutput,
    LanUIState, MusicVolumeSetting, NetworkQuit, NetworkQuitOutput, Pause, PauseOutput,
    ServiceType, Settings, SettingsOutput, SettingsState, SfxVolumeSetting, Splash, SplashState,
    MATCHMAKER_SERVICE_NAME_ONEPLAYER, SLIDER_INCREMENTS,
};
use crate::scene::{default_players, PlayMode, PlayersInfo};
use crate::team_select::{signs_spec, Join, TeamSelect, TeamSelectOutput};

verus! {

/// Which screen has control of the menu input.
#[derive(Clone, Copy, Debug, PartialEq, Eq, Structural)]
pub enum MenuState {
    Splash,
    Settings,
    Credits,
    HowToPlay,
    FadeTransition,
    TeamSelect,
    InGame,
    LanSelect,
    Lan,
    InNetworkGame,
}

/// A step of a fade between screens.
#[derive(Clone, Copy, Debug, PartialEq, Eq, Structural)]
pub enum MenuAction {
    Nothing,
    SplashHide,
    SplashPrep,
    SplashFinish,
    TeamSelectHide,
    TeamSelectPrep,
    TeamSelectFinish,
    HowToPlayHide,
    HowToPlayPrep,
    HowToPlayFinish,
    SettingsHide,
    SettingsPrep,
    SettingsFinish,
    CreditsHide,
    CreditsPrep,
    CreditsFinish,
    PlayLeave,
    PlayReset,
    PlayOfflinePrep,
    PlayOnlinePrep,
    LanSelectHide,
    LanSelectPrep,
    LanSelectFinish,
    LanUiHide,
    LanUiLeave,
    LanUiPrep,
    LanUiFinish,
}

/// A fade between screens: while the screen is blank the old screen is
/// hidden and the new one prepared; once it is back, control passes on.
#[derive(Clone, Copy, Debug, PartialEq, Eq, Structural)]
pub struct FadeTransition {
    pub hide: MenuAction,
    pub prep: MenuAction,
    pub finish: MenuAction,
}

impl Default for FadeTransition {
    fn default() -> (r: Self)
        ensures
            r == (FadeTransition { hide: MenuAction::Nothing, prep: MenuAction::Nothing, finish: MenuAction::Nothing }),
    {
        FadeTransition { hide: MenuAction::Nothing, prep: MenuAction::Nothing, finish: MenuAction::Nothing }
    }
}

/// What the fade animation did this tick.
#[derive(Clone, Copy, Debug, PartialEq, Eq, Structural)]
pub struct FadeEvents {
    /// The screen just went blank.
    pub out_finished: bool,
    /// The screen just came back.
    pub in_finished: bool,
}

/// A request of the flow to the host.
#[derive(Clone, Copy, Debug, PartialEq, Eq, Structural)]
pub enum MenuCommand {
    /// Restart the fade animation.
    RestartFade,
    /// Drop the screens' running animations.
    ClearAnimations,
    /// Start a match session.
    CreatePlay(PlayMode),
    /// End the match session.
    DeletePlay,
    /// Reset the match session's world.
    ResetPlay,
    /// Hide the match's overlays and pause it.
    PausePlay,
    /// Show the match's overlays again and resume it.
    ResumePlay,
    /// Hide the match's overlays while the quit prompt shows.
    HideOverlays,
    /// Show the match's overlays again.
    ShowOverlays,
    /// Tear down the matchmaker's network posture.
    Cancel(CancelAction),
    /// Create (when `true`) or keep the local server and wait for players.
    Host(bool),
    /// Join the discovered server at this index.
    JoinServer(usize),
}

/// Everything the menu flow reads and changes.
#[derive(Clone, Debug)]
pub struct MenuWorld {
    pub menu_state: MenuState,
    pub transition: FadeTransition,
    pub splash: Splash,
    pub how_to_play: HowToPlay,
    pub settings: Settings,
    pub credits_visible: bool,
    pub team_select: TeamSelect,
    pub pause: Pause,
    pub lan_select: LanSelect,
    pub lan_ui: LanUI,
    pub network_quit: NetworkQuit,
    pub matchmaker: Matchmaker,
    /// The service type of the network match being started.
    pub service_type: ServiceType,
}

pub open spec fn cancel_of(m: Matchmaker) -> CancelAction {
    if m.hosting_spec() {
        CancelAction::StopServer
    } else {
        CancelAction::LeaveServer
    }
}

/// The menu's resources at start-up: the title screen shows, the
/// matchmaker looks for one-player matches.
pub struct MenuPlugin;

impl MenuPlugin {
    pub fn install(self) -> (r: MenuWorld)
        ensures
            r.menu_state == MenuState::Splash,
            r.splash.visible,
            r.pause == Pause::Disabled,
            r.matchmaker.wf(),
            r.matchmaker.is_idle(),
            r.matchmaker.service_name_spec() == MATCHMAKER_SERVICE_NAME_ONEPLAYER@,
    {
        let matchmaker = MatchmakerPlugin::new(MATCHMAKER_SERVICE_NAME_ONEPLAYER).refresh(1_000_000_000).player_count(
            2,
        ).build();
        MenuWorld {
            menu_state: MenuState::Splash,
            transition: FadeTransition::default(),
            splash: Splash { state: SplashState::PressGamepad, interact: None, visible: true },
            how_to_play: HowToPlay::Hidden,
            settings: Settings {
                state: SettingsState::SFX,
                visible: false,
                sfx: SfxVolumeSetting(SLIDER_INCREMENTS),
                music: MusicVolumeSetting(SLIDER_INCREMENTS),
            },
            credits_visible: false,
            team_select: TeamSelect::new(),
            pause: Pause::Disabled,
            lan_select: LanSelect { visible: false, selection: LanSelection::OnePlayer },
            lan_ui: LanUI { visible: false, service: ServiceType::OnePlayer(0), state: LanUIState::Host, output: None },
            network_quit: NetworkQuit::default(),
            matchmaker,
            service_type: ServiceType::OnePlayer(0),
        }
    }
}

pub fn splash_hide(world: &mut MenuWorld)
    ensures
        *final(world) == (MenuWorld { splash: Splash { visible: false, ..old(world).splash }, ..*old(world) }),
{
    world.splash.visible = false;
}

pub fn splash_prep(world: &mut MenuWorld)
    ensures
        *final(world) == (MenuWorld { splash: Splash { visible: true, ..old(world).splash }, ..*old(world) }),
{
    world.splash.visible = true;
}

pub fn splash_finish(world: &mut MenuWorld)
    ensures
        *final(world) == (MenuWorld { menu_state: MenuState::Splash, ..*old(world) }),
{
    world.menu_state = MenuState::Splash;
}

pub fn team_select_hide(world: &mut MenuWorld)
    ensures
        *final(world) == (MenuWorld { team_select: TeamSelect { visible: false, ..old(world).team_select }, ..*old(world) }),
{
    world.team_select.visible = false;
}

/// Shows a fresh team-select screen: nobody joined.
pub fn team_select_prep(world: &mut MenuWorld, commands: &mut Vec<MenuCommand>)
    ensures
        *final(world) == (MenuWorld { team_select: final(world).team_select, ..*old(world) }),
        final(world).team_select.visible,
        forall|k: int| 0 <= k < 4 ==> final(world).team_select.joins@[k] == Join::Empty,
        final(commands)@ == old(commands)@.push(MenuCommand::ClearAnimations),
{
    let mut t = TeamSelect::new();
    t.visible = true;
    world.team_select = t;
    commands.push(MenuCommand::ClearAnimations);
}

pub fn team_select_finish(world: &mut MenuWorld)
    ensures
        *final(world) == (MenuWorld { menu_state: MenuState::TeamSelect, ..*old(world) }),
{
    world.menu_state = MenuState::TeamSelect;
}

pub fn how_to_play_hide(world: &mut MenuWorld)
    ensures
        *final(world) == (MenuWorld { how_to_play: HowToPlay::Hidden, ..*old(world) }),
{
    world.how_to_play = HowToPlay::Hidden;
}

pub fn how_to_play_prep(world: &mut MenuWorld, commands: &mut Vec<MenuCommand>)
    ensures
        *final(world) == (MenuWorld { how_to_play: HowToPlay::GameOverview, ..*old(world) }),
        final(commands)@ == old(commands)@.push(MenuCommand::ClearAnimations),
{
    world.how_to_play = HowToPlay::GameOverview;
    commands.push(MenuCommand::ClearAnimations);
}

pub fn how_to_play_finish(world: &mut MenuWorld)
    ensures
        *final(world) == (MenuWorld { menu_state: MenuState::HowToPlay, ..*old(world) }),
{
    world.menu_state = MenuState::HowToPlay;
}

pub fn settings_hide(world: &mut MenuWorld)
    ensures
        *final(world) == (MenuWorld { settings: Settings { visible: false, ..old(world).settings }, ..*old(world) }),
{
    world.settings.visible = false;
}

pub fn settings_prep(world: &mut MenuWorld)
    ensures
        *final(world) == (MenuWorld { settings: Settings { visible: true, ..old(world).settings }, ..*old(world) }),
{
    world.settings.visible = true;
}

pub fn settings_finish(world: &mut MenuWorld)
    ensures
        *final(world) == (MenuWorld { menu_state: MenuState::Settings, ..*old(world) }),
{
    world.menu_state = MenuState::Settings;
}

pub fn credits_hide(world: &mut MenuWorld)
    ensures
        *final(world) == (MenuWorld { credits_visible: false, ..*old(world) }),
{
    world.credits_visible = false;
}

pub fn credits_prep(world: &mut MenuWorld)
    ensures
        *final(world) == (MenuWorld { credits_visible: true, ..*old(world) }),
{
    world.credits_visible = true;
}

pub fn credits_finish(world: &mut MenuWorld)
    ensures
        *final(world) == (MenuWorld { menu_state: MenuState::Credits, ..*old(world) }),
{
    world.menu_state = MenuState::Credits;
}

pub fn lan_select_hide(world: &mut MenuWorld)
    ensures
        *final(world) == (MenuWorld { lan_select: LanSelect { visible: false, ..old(world).lan_select }, ..*old(world) }),
{
    world.lan_select.visible = false;
}

pub fn lan_select_prep(world: &mut MenuWorld)
    ensures
        *final(world) == (MenuWorld { lan_select: LanSelect { visible: true, ..old(world).lan_select }, ..*old(world) }),
{
    world.lan_select.visible = true;
}

pub fn lan_select_finish(world: &mut MenuWorld)
    ensures
        *final(world) == (MenuWorld { menu_state: MenuState::LanSelect, ..*old(world) }),
{
    world.menu_state = MenuState::LanSelect;
}

/// Leaves the LAN lobby for a match: searching stops.
pub fn lan_ui_hide(world: &mut MenuWorld)
    ensures
        *final(world) == (MenuWorld {
            lan_ui: LanUI { visible: false, ..old(world).lan_ui },
            matchmaker: final(world).matchmaker,
            ..*old(world)
        }),
        !final(world).matchmaker.search_enabled,
        final(world).matchmaker.wf() == old(world).matchmaker.wf(),
        final(world).matchmaker.socket_spec() == old(world).matchmaker.socket_spec(),
        final(world).matchmaker.hosting_spec() == old(world).matchmaker.hosting_spec(),
{
    world.matchmaker.disable_search();
    world.lan_ui.visible = false;
}

/// Leaves the LAN lobby for the menus: the matchmaker goes idle and stops
/// searching.
pub fn lan_ui_leave(world: &mut MenuWorld, commands: &mut Vec<MenuCommand>)
    ensures
        *final(world) == (MenuWorld {
            lan_ui: LanUI { visible: false, ..old(world).lan_ui },
            matchmaker: final(world).matchmaker,
            ..*old(world)
        }),
        final(world).matchmaker.wf(),
        final(world).matchmaker.is_idle(),
        !final(world).matchmaker.search_enabled,
        final(commands)@ == old(commands)@.push(MenuCommand::Cancel(cancel_of(old(world).matchmaker))),
{
    let c = world.matchmaker.lan_cancel();
    commands.push(MenuCommand::Cancel(c));
    world.matchmaker.disable_search();
    world.lan_ui.visible = false;
}

/// Opens the LAN lobby: searching starts.
pub fn lan_ui_prep(world: &mut MenuWorld)
    ensures
        *final(world) == (MenuWorld {
            lan_ui: LanUI { visible: true, ..old(world).lan_ui },
            matchmaker: final(world).matchmaker,
            ..*old(world)
        }),
        final(world).matchmaker.search_enabled,
        final(world).matchmaker.wf() == old(world).matchmaker.wf(),
        final(world).matchmaker.socket_spec() == old(world).matchmaker.socket_spec(),
        final(world).matchmaker.hosting_spec() == old(world).matchmaker.hosting_spec(),
        final(world).matchmaker.is_idle() == old(world).matchmaker.is_idle(),
{
    world.matchmaker.enable_search();
    world.lan_ui.visible = true;
}

pub fn lan_ui_finish(world: &mut MenuWorld)
    ensures
        *final(world) == (MenuWorld { menu_state: MenuState::Lan, ..*old(world) }),
{
    world.menu_state = MenuState::Lan;
}

/// Ends the match: the pause menu is disabled, the quit prompt hidden, the
/// matchmaker idle, and the session deleted.
pub fn play_leave(world: &mut MenuWorld, commands: &mut Vec<MenuCommand>)
    ensures
        *final(world) == (MenuWorld {
            pause: Pause::Disabled,
            network_quit: NetworkQuit { visible: false, ..old(world).network_quit },
            matchmaker: final(world).matchmaker,
            ..*old(world)
        }),
        final(world).matchmaker.wf(),
        final(world).matchmaker.is_idle(),
        final(world).matchmaker.search_enabled == old(world).matchmaker.search_enabled,
        final(commands)@ == old(commands)@.push(MenuCommand::Cancel(cancel_of(old(world).matchmaker))).push(
            MenuCommand::DeletePlay,
        ),
{
    world.pause = Pause::Disabled;
    let c = world.matchmaker.lan_cancel();
    commands.push(MenuCommand::Cancel(c));
    world.network_quit.visible = false;
    commands.push(MenuCommand::DeletePlay);
}

/// Resets the running match; the pause menu is disabled meanwhile.
pub fn play_reset(world: &mut MenuWorld, commands: &mut Vec<MenuCommand>)
    ensures
        *final(world) == (MenuWorld { pause: Pause::Disabled, ..*old(world) }),
        final(commands)@ == old(commands)@.push(MenuCommand::ResetPlay),
{
    world.pause = Pause::Disabled;
    commands.push(MenuCommand::ResetPlay);
}

/// Starts a local match with the team-select screen's players, or, when
/// it is not settled, with gamepad 0 driving both teams.
pub fn play_offline_prep(world: &mut MenuWorld, commands: &mut Vec<MenuCommand>)
    ensures
        *final(world) == (MenuWorld { menu_state: MenuState::InGame, pause: Pause::Hidden, ..*old(world) }),
        final(commands)@ == old(commands)@.push(
            MenuCommand::CreatePlay(
                PlayMode::Offline(
                    match signs_spec(old(world).team_select.joins@) {
                        Some(p) => p,
                        None => default_players(),
                    },
                ),
            ),
        ),
{
    let players = match world.team_select.get_player_signs() {
        Some(p) => p,
        None => PlayersInfo::default(),
    };
    commands.push(MenuCommand::CreatePlay(PlayMode::Offline(players)));
    world.menu_state = MenuState::InGame;
    world.pause = Pause::Hidden;
}

/// Starts a network match on the established socket; without one there is
/// nothing to start.
pub fn play_online_prep(world: &mut MenuWorld, commands: &mut Vec<MenuCommand>)
    ensures
        old(world).matchmaker.socket_spec() is None ==> *final(world) == *old(world) && final(commands)@ == old(commands)@,
        old(world).matchmaker.socket_spec() is Some ==> *final(world) == (MenuWorld {
            menu_state: MenuState::InNetworkGame,
            ..*old(world)
        }) && final(commands)@ == old(commands)@.push(
            MenuCommand::CreatePlay(
                PlayMode::Online {
                    socket: old(world).matchmaker.socket_spec().unwrap(),
                    service_type: old(world).service_type,
                },
            ),
        ),
{
    if let Some(socket) = world.matchmaker.network_match_socket() {
        commands.push(MenuCommand::CreatePlay(PlayMode::Online { socket, service_type: world.service_type }));
        world.menu_state = MenuState::InNetworkGame;
    }
}

/// `(w2, c2)` is what running the fade step `a` on `(w, c)` gives.
pub open spec fn action_effect(w: MenuWorld, c: Seq<MenuCommand>, a: MenuAction, w2: MenuWorld, c2: Seq<MenuCommand>) -> bool {
    match a {
        MenuAction::Nothing => w2 == w && c2 == c,
        MenuAction::SplashHide => w2 == (MenuWorld { splash: Splash { visible: false, ..w.splash }, ..w }) && c2 == c,
        MenuAction::SplashPrep => w2 == (MenuWorld { splash: Splash { visible: true, ..w.splash }, ..w }) && c2 == c,
        MenuAction::SplashFinish => w2 == (MenuWorld { menu_state: MenuState::Splash, ..w }) && c2 == c,
        MenuAction::TeamSelectHide => w2 == (MenuWorld { team_select: TeamSelect { visible: false, ..w.team_select }, ..w })
            && c2 == c,
        MenuAction::TeamSelectPrep => w2 == (MenuWorld { team_select: w2.team_select, ..w }) && w2.team_select.visible
            && (forall|k: int| 0 <= k < 4 ==> w2.team_select.joins@[k] == Join::Empty) && c2 == c.push(
            MenuCommand::ClearAnimations,
        ),
        MenuAction::TeamSelectFinish => w2 == (MenuWorld { menu_state: MenuState::TeamSelect, ..w }) && c2 == c,
        MenuAction::HowToPlayHide => w2 == (MenuWorld { how_to_play: HowToPlay::Hidden, ..w }) && c2 == c,
        MenuAction::HowToPlayPrep => w2 == (MenuWorld { how_to_play: HowToPlay::GameOverview, ..w }) && c2 == c.push(
            MenuCommand::ClearAnimations,
        ),
        MenuAction::HowToPlayFinish => w2 == (MenuWorld { menu_state: MenuState::HowToPlay, ..w }) && c2 == c,
        MenuAction::SettingsHide => w2 == (MenuWorld { settings: Settings { visible: false, ..w.settings }, ..w }) && c2
            == c,
        MenuAction::SettingsPrep => w2 == (MenuWorld { settings: Settings { visible: true, ..w.settings }, ..w }) && c2
            == c,
        MenuAction::SettingsFinish => w2 == (MenuWorld { menu_state: MenuState::Settings, ..w }) && c2 == c,
        MenuAction::CreditsHide => w2 == (MenuWorld { credits_visible: false, ..w }) && c2 == c,
        MenuAction::CreditsPrep => w2 == (MenuWorld { credits_visible: true, ..w }) && c2 == c,
        MenuAction::CreditsFinish => w2 == (MenuWorld { menu_state: MenuState::Credits, ..w }) && c2 == c,
        MenuAction::PlayLeave => w2 == (MenuWorld {
            pause: Pause::Disabled,
            network_quit: NetworkQuit { visible: false, ..w.network_quit },
            matchmaker: w2.matchmaker,
            ..w
        }) && w2.matchmaker.wf() && w2.matchmaker.is_idle() && w2.matchmaker.search_enabled == w.matchmaker.search_enabled
            && c2 == c.push(MenuCommand::Cancel(cancel_of(w.matchmaker))).push(MenuCommand::DeletePlay),
        MenuAction::PlayReset => w2 == (MenuWorld { pause: Pause::Disabled, ..w }) && c2 == c.push(MenuCommand::ResetPlay),
        MenuAction::PlayOfflinePrep => w2 == (MenuWorld { menu_state: MenuState::InGame, pause: Pause::Hidden, ..w }) && c2
            == c.push(
            MenuCommand::CreatePlay(
                PlayMode::Offline(
                    match signs_spec(w.team_select.joins@) {
                        Some(p) => p,
                        None => default_players(),
                    },
                ),
            ),
        ),
        MenuAction::PlayOnlinePrep => match w.matchmaker.socket_spec() {
            None => w2 == w && c2 == c,
            Some(socket) => w2 == (MenuWorld { menu_state: MenuState::InNetworkGame, ..w }) && c2 == c.push(
                MenuCommand::CreatePlay(PlayMode::Online { socket, service_type: w.service_type }),
            ),
        },
        MenuAction::LanSelectHide => w2 == (MenuWorld { lan_select: LanSelect { visible: false, ..w.lan_select }, ..w })
            && c2 == c,
        MenuAction::LanSelectPrep => w2 == (MenuWorld { lan_select: LanSelect { visible: true, ..w.lan_select }, ..w })
            && c2 == c,
        MenuAction::LanSelectFinish => w2 == (MenuWorld { menu_state: MenuState::LanSelect, ..w }) && c2 == c,
        MenuAction::LanUiHide => w2 == (MenuWorld {
            lan_ui: LanUI { visible: false, ..w.lan_ui },
            matchmaker: w2.matchmaker,
            ..w
        }) && !w2.matchmaker.search_enabled && w2.matchmaker.wf() == w.matchmaker.wf()
            && w2.matchmaker.socket_spec() == w.matchmaker.socket_spec() && w2.matchmaker.hosting_spec()
            == w.matchmaker.hosting_spec() && c2 == c,
        MenuAction::LanUiLeave => w2 == (MenuWorld {
            lan_ui: LanUI { visible: false, ..w.lan_ui },
            matchmaker: w2.matchmaker,
            ..w
        }) && w2.matchmaker.wf() && w2.matchmaker.is_idle() && !w2.matchmaker.search_enabled && c2 == c.push(
            MenuCommand::Cancel(cancel_of(w.matchmaker)),
        ),
        MenuAction::LanUiPrep => w2 == (MenuWorld {
            lan_ui: LanUI { visible: true, ..w.lan_ui },
            matchmaker: w2.matchmaker,
            ..w
        }) && w2.matchmaker.search_enabled && w2.matchmaker.wf() == w.matchmaker.wf()
            && w2.matchmaker.socket_spec() == w.matchmaker.socket_spec() && w2.matchmaker.hosting_spec()
            == w.matchmaker.hosting_spec() && w2.matchmaker.is_idle() == w.matchmaker.is_idle() && c2 == c,
        MenuAction::LanUiFinish => w2 == (MenuWorld { menu_state: MenuState::Lan, ..w }) && c2 == c,
    }
}

proof fn lemma_action_keeps_wf(w: MenuWorld, c: Seq<MenuCommand>, a: MenuAction, w2: MenuWorld, c2: Seq<MenuCommand>)
    requires
        w.matchmaker.wf(),
        action_effect(w, c, a, w2, c2),
    ensures
        w2.matchmaker.wf(),
{
}

/// Runs one fade step.
pub fn run_action(world: &mut MenuWorld, action: MenuAction, commands: &mut Vec<MenuCommand>)
    ensures
        action_effect(*old(world), old(commands)@, action, *final(world), final(commands)@),
{
    match action {
        MenuAction::Nothing => {},
        MenuAction::SplashHide => splash_hide(world),
        MenuAction::SplashPrep => splash_prep(world),
        MenuAction::SplashFinish => splash_finish(world),
        MenuAction::TeamSelectHide => team_select_hide(world),
        MenuAction::TeamSelectPrep => team_select_prep(world, commands),
        MenuAction::TeamSelectFinish => team_select_finish(world),
        MenuAction::HowToPlayHide => how_to_play_hide(world),
        MenuAction::HowToPlayPrep => how_to_play_prep(world, commands),
        MenuAction::HowToPlayFinish => how_to_play_finish(world),
        MenuAction::SettingsHide => settings_hide(world),
        MenuAction::SettingsPrep => settings_prep(world),
        MenuAction::SettingsFinish => settings_finish(world),
        MenuAction::CreditsHide => credits_hide(world),
        MenuAction::CreditsPrep => credits_prep(world),
        MenuAction::CreditsFinish => credits_finish(world),
        MenuAction::PlayLeave => play_leave(world, commands),
        MenuAction::PlayReset => play_reset(world, commands),
        MenuAction::PlayOfflinePrep => play_offline_prep(world, commands),
        MenuAction::PlayOnlinePrep => play_online_prep(world, commands),
        MenuAction::LanSelectHide => lan_select_hide(world),
        MenuAction::LanSelectPrep => lan_select_prep(world),
        MenuAction::LanSelectFinish => lan_select_finish(world),
        MenuAction::LanUiHide => lan_ui_hide(world),
        MenuAction::LanUiLeave => lan_ui_leave(world, commands),
        MenuAction::LanUiPrep => lan_ui_prep(world),
        MenuAction::LanUiFinish => lan_ui_finish(world),
    }
}

/// Starts a fade: the fade restarts, and control stays with the fade until
/// the transition finishes.
pub fn start_fade(world: &mut MenuWorld, transition: FadeTransition, commands: &mut Vec<MenuCommand>)
    ensures
        *final(world) == (MenuWorld { menu_state: MenuState::FadeTransition, transition, ..*old(world) }),
        final(commands)@ == old(commands)@.push(MenuCommand::RestartFade),
{
    commands.push(MenuCommand::RestartFade);
    world.menu_state = MenuState::FadeTransition;
    world.transition = transition;
}

pub open spec fn fade(hide: MenuAction, prep: MenuAction, finish: MenuAction) -> FadeTransition {
    FadeTransition { hide, prep, finish }
}

/// What `fade_transition` does, from world `w0` and requests `c0` to `w1` and `c1`.
pub open spec fn fade_transition_post(w0: MenuWorld, c0: Seq<MenuCommand>, events: FadeEvents, w1: MenuWorld, c1: Seq<MenuCommand>) -> bool {
    &&& exists|wa: MenuWorld, ca: Seq<MenuCommand>, wb: MenuWorld, cb: Seq<MenuCommand>|
        #![trigger action_effect(w0, c0, w0.transition.hide, wa, ca), action_effect(wa, ca, w0.transition.prep, wb, cb)]
        {
            &&& (if events.out_finished {
                action_effect(w0, c0, w0.transition.hide, wa, ca) && action_effect(wa, ca, w0.transition.prep, wb, cb)
            } else {
                wb == w0 && cb == c0
            })
            &&& (if events.in_finished {
                action_effect(wb, cb, w0.transition.finish, w1, c1)
            } else {
                w1 == wb && c1 == cb
            })
        }
    &&& w0.matchmaker.wf() ==> w1.matchmaker.wf()
}

/// One tick of a fade: once the screen is blank the old screen is hidden
/// and the new one prepared; once it is back the transition finishes.
pub fn fade_transition(world: &mut MenuWorld, events: FadeEvents, commands: &mut Vec<MenuCommand>)
    ensures
        fade_transition_post(*old(world), old(commands)@, events, *final(world), final(commands)@),
{
    let t = world.transition;
    let ghost w0 = *world;
    let ghost c0 = commands@;
    if events.out_finished {
        run_action(world, t.hide, commands);
        let ghost w1 = *world;
        let ghost c1 = commands@;
        run_action(world, t.prep, commands);
        let ghost w2 = *world;
        let ghost c2 = commands@;
        if events.in_finished {
            run_action(world, t.finish, commands);
        }
        assert(action_effect(w0, c0, t.hide, w1, c1));
        assert(action_effect(w1, c1, t.prep, w2, c2));
        proof {
            if w0.matchmaker.wf() {
                lemma_action_keeps_wf(w0, c0, t.hide, w1, c1);
                lemma_action_keeps_wf(w1, c1, t.prep, w2, c2);
                if events.in_finished {
                    lemma_action_keeps_wf(w2, c2, t.finish, *world, commands@);
                }
            }
        }
    } else {
        if events.in_finished {
            run_action(world, t.finish, commands);
        }
        assert(action_effect(w0, c0, MenuAction::Nothing, w0, c0));
        proof {
            if w0.matchmaker.wf() && events.in_finished {
                lemma_action_keeps_wf(w0, c0, t.finish, *world, commands@);
            }
        }
    }
}

/// Leaves the title screen for the highlighted entry.
pub fn splash_transition(world: &mut MenuWorld, output: SplashState, commands: &mut Vec<MenuCommand>)
    ensures
        output == SplashState::PressGamepad ==> *final(world) == *old(world) && final(commands)@ == old(commands)@,
        output != SplashState::PressGamepad ==> final(commands)@ == old(commands)@.push(MenuCommand::RestartFade)
            && *final(world) == (MenuWorld {
            menu_state: MenuState::FadeTransition,
            transition: match output {
                SplashState::Offline => fade(MenuAction::SplashHide, MenuAction::TeamSelectPrep, MenuAction::TeamSelectFinish),
                SplashState::Lan => fade(MenuAction::SplashHide, MenuAction::LanSelectPrep, MenuAction::LanSelectFinish),
                _ => fade(MenuAction::SplashHide, MenuAction::HowToPlayPrep, MenuAction::HowToPlayFinish),
            },
            ..*old(world)
        }),
{
    match output {
        SplashState::Offline => start_fade(
            world,
            FadeTransition {
                hide: MenuAction::SplashHide,
                prep: MenuAction::TeamSelectPrep,
                finish: MenuAction::TeamSelectFinish,
            },
            commands,
        ),
        SplashState::Lan => start_fade(
            world,
            FadeTransition {
                hide: MenuAction::SplashHide,
                prep: MenuAction::LanSelectPrep,
                finish: MenuAction::LanSelectFinish,
            },
            commands,
        ),
        SplashState::HowToPlay => start_fade(
            world,
            FadeTransition {
                hide: MenuAction::SplashHide,
                prep: MenuAction::HowToPlayPrep,
                finish: MenuAction::HowToPlayFinish,
            },
            commands,
        ),
        SplashState::PressGamepad => {},
    }
}

/// Back to the title screen from a screen whose fade step is `hide`.
fn back_to_splash(world: &mut MenuWorld, hide: MenuAction, commands: &mut Vec<MenuCommand>)
    ensures
        *final(world) == (MenuWorld {
            menu_state: MenuState::FadeTransition,
            transition: fade(hide, MenuAction::SplashPrep, MenuAction::SplashFinish),
            ..*old(world)
        }),
        final(commands)@ == old(commands)@.push(MenuCommand::RestartFade),
{
    start_fade(world, FadeTransition { hide, prep: MenuAction::SplashPrep, finish: MenuAction::SplashFinish }, commands);
}

pub fn how_to_play_transition(world: &mut MenuWorld, output: HowToPlayOutput, commands: &mut Vec<MenuCommand>)
    ensures
        *final(world) == (MenuWorld {
            menu_state: MenuState::FadeTransition,
            transition: fade(MenuAction::HowToPlayHide, MenuAction::SplashPrep, MenuAction::SplashFinish),
            ..*old(world)
        }),
        final(commands)@ == old(commands)@.push(MenuCommand::RestartFade),
{
    back_to_splash(world, MenuAction::HowToPlayHide, commands);
}

pub fn settings_transition(world: &mut MenuWorld, output: SettingsOutput, commands: &mut Vec<MenuCommand>)
    ensures
        *final(world) == (MenuWorld {
            menu_state: MenuState::FadeTransition,
            transition: fade(MenuAction::SettingsHide, MenuAction::SplashPrep, MenuAction::SplashFinish),
            ..*old(world)
        }),
        final(commands)@ == old(commands)@.push(MenuCommand::RestartFade),
{
    back_to_splash(world, MenuAction::SettingsHide, commands);
}

pub fn credits_transition(world: &mut MenuWorld, output: CreditsOutput, commands: &mut Vec<MenuCommand>)
    ensures
        *final(world) == (MenuWorld {
            menu_state: MenuState::FadeTransition,
            transition: fade(MenuAction::CreditsHide, MenuAction::SplashPrep, MenuAction::SplashFinish),
            ..*old(world)
        }),
        final(commands)@ == old(commands)@.push(MenuCommand::RestartFade),
{
    back_to_splash(world, MenuAction::CreditsHide, commands);
}

/// Starts the match with the settled players, or goes back to the title.
pub fn team_select_transition(world: &mut MenuWorld, output: TeamSelectOutput, commands: &mut Vec<MenuCommand>)
    ensures
        final(commands)@ == old(commands)@.push(MenuCommand::RestartFade),
        *final(world) == (MenuWorld {
            menu_state: MenuState::FadeTransition,
            transition: match output {
                TeamSelectOutput::PlayersInfo(_) => fade(
                    MenuAction::TeamSelectHide,
                    MenuAction::PlayOfflinePrep,
                    MenuAction::Nothing,
                ),
                TeamSelectOutput::Exit => fade(MenuAction::TeamSelectHide, MenuAction::SplashPrep, MenuAction::SplashFinish),
            },
            ..*old(world)
        }),
{
    match output {
        TeamSelectOutput::PlayersInfo(_) => start_fade(
            world,
            FadeTransition {
                hide: MenuAction::TeamSelectHide,
                prep: MenuAction::PlayOfflinePrep,
                finish: MenuAction::Nothing,
            },
            commands,
        ),
        TeamSelectOutput::Exit => back_to_splash(world, MenuAction::TeamSelectHide, commands),
    }
}

/// Acts on the pause menu's output.
pub fn pause_transition(world: &mut MenuWorld, output: PauseOutput, commands: &mut Vec<MenuCommand>)
    ensures
        output == PauseOutput::Hide ==> *final(world) == *old(world) && final(commands)@ == old(commands)@.push(
            MenuCommand::ResumePlay,
        ),
        output == PauseOutput::Show ==> *final(world) == *old(world) && final(commands)@ == old(commands)@.push(
            MenuCommand::PausePlay,
        ),
        output == PauseOutput::Restart ==> *final(world) == (MenuWorld {
            menu_state: MenuState::FadeTransition,
            transition: fade(MenuAction::PlayReset, MenuAction::PlayOfflinePrep, MenuAction::Nothing),
            ..*old(world)
        }) && final(commands)@ == old(commands)@.push(MenuCommand::RestartFade),
        output == PauseOutput::Quit ==> *final(world) == (MenuWorld {
            menu_state: MenuState::FadeTransition,
            transition: fade(MenuAction::PlayLeave, MenuAction::SplashPrep, MenuAction::SplashFinish),
            ..*old(world)
        }) && final(commands)@ == old(commands)@.push(MenuCommand::RestartFade),
{
    match output {
        PauseOutput::Hide => commands.push(MenuCommand::ResumePlay),
        PauseOutput::Show => commands.push(MenuCommand::PausePlay),
        PauseOutput::Restart => start_fade(
            world,
            FadeTransition { hide: MenuAction::PlayReset, prep: MenuAction::PlayOfflinePrep, finish: MenuAction::Nothing },
            commands,
        ),
        PauseOutput::Quit => back_to_splash(world, MenuAction::PlayLeave, commands),
    }
}

/// Acts on the network quit prompt's output.
pub fn network_quit_transition(world: &mut MenuWorld, output: NetworkQuitOutput, commands: &mut Vec<MenuCommand>)
    ensures
        output == NetworkQuitOutput::Show ==> *final(world) == *old(world) && final(commands)@ == old(commands)@.push(
            MenuCommand::HideOverlays,
        ),
        output == NetworkQuitOutput::Hide ==> *final(world) == *old(world) && final(commands)@ == old(commands)@.push(
            MenuCommand::ShowOverlays,
        ),
        output == NetworkQuitOutput::Quit ==> *final(world) == (MenuWorld {
            menu_state: MenuState::FadeTransition,
            transition: fade(MenuAction::PlayLeave, MenuAction::SplashPrep, MenuAction::SplashFinish),
            ..*old(world)
        }) && final(commands)@ == old(commands)@.push(MenuCommand::RestartFade),
{
    match output {
        NetworkQuitOutput::Show => commands.push(MenuCommand::HideOverlays),
        NetworkQuitOutput::Hide => commands.push(MenuCommand::ShowOverlays),
        NetworkQuitOutput::Quit => back_to_splash(world, MenuAction::PlayLeave, commands),
    }
}

/// What `lan_select_transition` does, from world `w0` and requests `c0` to `w1` and `c1`.
pub open spec fn lan_select_transition_post(w0: MenuWorld, c0: Seq<MenuCommand>, output: LanSelectOutput, w1: MenuWorld, c1: Seq<MenuCommand>) -> bool {
    &&& output == LanSelectOutput::Exit ==> w1 == (MenuWorld {
        menu_state: MenuState::FadeTransition,
        transition: fade(MenuAction::LanSelectHide, MenuAction::SplashPrep, MenuAction::SplashFinish),
        ..w0
    }) && c1 == c0.push(MenuCommand::RestartFade)
    &&& output matches LanSelectOutput::ServiceType(service) ==> {
        &&& w1 == (MenuWorld {
            menu_state: MenuState::FadeTransition,
            transition: fade(MenuAction::LanSelectHide, MenuAction::LanUiPrep, MenuAction::LanUiFinish),
            lan_ui: LanUI { service, ..w0.lan_ui },
            matchmaker: w1.matchmaker,
            ..w0
        })
        &&& w1.matchmaker.wf()
        &&& (service is OnePlayer ==> w1.matchmaker.service_name_spec() == MATCHMAKER_SERVICE_NAME_ONEPLAYER@)
        &&& (service is TwoPlayer ==> w1.matchmaker.service_name_spec() == crate::menus::MATCHMAKER_SERVICE_NAME_TWOPLAYER@)
        &&& (w0.matchmaker.service_name_spec() != w1.matchmaker.service_name_spec() ==> w1.matchmaker.is_idle() && c1 == c0.push(
            MenuCommand::Cancel(cancel_of(w0.matchmaker)),
        ).push(MenuCommand::RestartFade))
        &&& (w0.matchmaker.service_name_spec() == w1.matchmaker.service_name_spec() ==> c1 == c0.push(MenuCommand::RestartFade))
    }
}

/// Leaves the LAN select screen: back to the title, or into the lobby of
/// the chosen kind of match, whose service name the matchmaker moves to.
pub fn lan_select_transition(world: &mut MenuWorld, output: LanSelectOutput, commands: &mut Vec<MenuCommand>)
    requires
        old(world).matchmaker.wf(),
    ensures
        lan_select_transition_post(*old(world), old(commands)@, output, *final(world), final(commands)@),
{
    match output {
        LanSelectOutput::Exit => back_to_splash(world, MenuAction::LanSelectHide, commands),
        LanSelectOutput::ServiceType(service) => {
            if let Some(c) = world.matchmaker.update_service_name(service.service_name()) {
                commands.push(MenuCommand::Cancel(c));
            }
            world.lan_ui.service = service;
            start_fade(
                world,
                FadeTransition {
                    hide: MenuAction::LanSelectHide,
                    prep: MenuAction::LanUiPrep,
                    finish: MenuAction::LanUiFinish,
                },
                commands,
            );
        },
    }
}

pub open spec fn start_fade_spec(w: MenuWorld, t: FadeTransition) -> MenuWorld {
    MenuWorld { menu_state: MenuState::FadeTransition, transition: t, ..w }
}

pub open spec fn pause_effect(w: MenuWorld, c: Seq<MenuCommand>, o: PauseOutput) -> (MenuWorld, Seq<MenuCommand>) {
    match o {
        PauseOutput::Hide => (w, c.push(MenuCommand::ResumePlay)),
        PauseOutput::Show => (w, c.push(MenuCommand::PausePlay)),
        PauseOutput::Restart => (
            start_fade_spec(w, fade(MenuAction::PlayReset, MenuAction::PlayOfflinePrep, MenuAction::Nothing)),
            c.push(MenuCommand::RestartFade),
        ),
        PauseOutput::Quit => (
            start_fade_spec(w, fade(MenuAction::PlayLeave, MenuAction::SplashPrep, MenuAction::SplashFinish)),
            c.push(MenuCommand::RestartFade),
        ),
    }
}

/// The pause menu after reading the cycle's input, with its output.
pub open spec fn pause_read(p: Pause, inputs: Seq<(SingleSource, LocalInput)>) -> (Pause, Option<PauseOutput>) {
    if p == Pause::Disabled {
        (p, None)
    } else {
        crate::menus::pause_fold((p, None), inputs)
    }
}

/// What `update_pause` does, from world `w0` and requests `c0` to `w1` and `c1`.
pub open spec fn update_pause_post(w0: MenuWorld, c0: Seq<MenuCommand>, inputs: Seq<(SingleSource, LocalInput)>, w1: MenuWorld, c1: Seq<MenuCommand>) -> bool {
    &&& w1.matchmaker == w0.matchmaker
    &&& ({
        let (p, o) = pause_read(w0.pause, inputs);
        let w = MenuWorld { pause: p, ..w0 };
        match o {
            Some(out) => (w1, c1) == pause_effect(w, c0, out),
            None => w1 == w && c1 == c0,
        }
    })
}

/// Runs the pause menu during a local match and acts on its output.
pub fn update_pause(world: &mut MenuWorld, inputs: &Vec<(SingleSource, LocalInput)>, commands: &mut Vec<MenuCommand>)
    ensures
        update_pause_post(*old(world), old(commands)@, inputs@, *final(world), final(commands)@),
{
    let output = world.pause.process_input(inputs);
    if let Some(o) = output {
        pause_transition(world, o, commands);
    }
}

/// The first device input that moves or picks on the title screen: its
/// position and whether up (0), down (1) or south (2) came first in it.
pub open spec fn splash_press(inputs: Seq<(SingleSource, LocalInput)>, k: int) -> (int, int)
    decreases inputs.len() - k,
{
    if k < 0 || k >= inputs.len() {
        (inputs.len() as int, 0)
    } else if inputs[k].1.menu_up.just_pressed_spec() {
        (k, 0)
    } else if inputs[k].1.menu_down.just_pressed_spec() {
        (k, 1)
    } else if inputs[k].1.south.just_pressed_spec() {
        (k, 2)
    } else {
        splash_press(inputs, k + 1)
    }
}

pub open spec fn splash_effect(w: MenuWorld, c: Seq<MenuCommand>, output: SplashState) -> (MenuWorld, Seq<MenuCommand>) {
    match output {
        SplashState::Offline => (
            start_fade_spec(w, fade(MenuAction::SplashHide, MenuAction::TeamSelectPrep, MenuAction::TeamSelectFinish)),
            c.push(MenuCommand::RestartFade),
        ),
        SplashState::Lan => (
            start_fade_spec(w, fade(MenuAction::SplashHide, MenuAction::LanSelectPrep, MenuAction::LanSelectFinish)),
            c.push(MenuCommand::RestartFade),
        ),
        SplashState::HowToPlay => (
            start_fade_spec(w, fade(MenuAction::SplashHide, MenuAction::HowToPlayPrep, MenuAction::HowToPlayFinish)),
            c.push(MenuCommand::RestartFade),
        ),
        SplashState::PressGamepad => (w, c),
    }
}

/// What `splash_update` does, from world `w0` and requests `c0` to `w1` and `c1`.
pub open spec fn splash_update_post(w0: MenuWorld, c0: Seq<MenuCommand>, inputs: Seq<(SingleSource, LocalInput)>, w1: MenuWorld, c1: Seq<MenuCommand>) -> bool {
    &&& w1.matchmaker == w0.matchmaker
    &&& ({
        let w = w0;
        let c = c0;
        let (k, kind) = splash_press(inputs, 0);
        match w.splash.interact {
            Some(s) => (w1, c1) == splash_effect(w, c, s),
            None => if k >= inputs.len() {
                w1 == w && c1 == c
            } else if kind == 0 {
                w1 == (MenuWorld {
                    splash: Splash { state: crate::menus::splash_up_spec(w.splash.state), ..w.splash },
                    ..w
                }) && c1 == c
            } else if kind == 1 {
                w1 == (MenuWorld {
                    splash: Splash { state: crate::menus::splash_down_spec(w.splash.state), ..w.splash },
                    ..w
                }) && c1 == c
            } else {
                (w1, c1) == splash_effect(w, c, w.splash.state)
            },
        }
    })
}

/// The title screen's tick: an entry picked by pointer is followed; else
/// the first device that presses up or down moves the highlight, or south
/// follows it.
pub fn splash_update(world: &mut MenuWorld, inputs: &Vec<(SingleSource, LocalInput)>, commands: &mut Vec<MenuCommand>)
    ensures
        splash_update_post(*old(world), old(commands)@, inputs@, *final(world), final(commands)@),
{
    if let Some(interact) = world.splash.interact {
        splash_transition(world, interact, commands);
        return;
    }
    let ghost w0 = *world;
    let mut i: usize = 0;
    while i < inputs.len()
        invariant
            i <= inputs.len(),
            *world == w0,
            w0 == *old(world),
            w0.splash.interact is None,
            commands@ == old(commands)@,
            splash_press(inputs@, 0) == splash_press(inputs@, i as int),
        decreases inputs.len() - i,
    {
        let input = inputs[i].1;
        assert(input == inputs@[i as int].1);
        if input.menu_up.just_pressed() {
            assert(splash_press(inputs@, i as int) == (i as int, 0int));
            let mut st = world.splash.state;
            st.cycle_up();
            world.splash.state = st;
            assert(*world == (MenuWorld { splash: Splash { state: crate::menus::splash_up_spec(w0.splash.state), ..w0.splash }, ..w0 }));
            return;
        }
        if input.menu_down.just_pressed() {
            assert(splash_press(inputs@, i as int) == (i as int, 1int));
            let mut st = world.splash.state;
            st.cycle_down();
            world.splash.state = st;
            return;
        }
        if input.south.just_pressed() {
            assert(splash_press(inputs@, i as int) == (i as int, 2int));
            let state = world.splash.state;
            splash_transition(world, state, commands);
            return;
        }
        i = i + 1;
    }
}

/// What `how_to_play_update` does, from world `w0` and requests `c0` to `w1` and `c1`.
pub open spec fn how_to_play_update_post(w0: MenuWorld, c0: Seq<MenuCommand>, inputs: Seq<(SingleSource, LocalInput)>, w1: MenuWorld, c1: Seq<MenuCommand>) -> bool {
    &&& w1.matchmaker == w0.matchmaker
    &&& ({
        let (h, back) = crate::menus::how_fold(w0.how_to_play, inputs);
        let w = MenuWorld { how_to_play: h, ..w0 };
        if back {
            w1 == start_fade_spec(
                w,
                fade(MenuAction::HowToPlayHide, MenuAction::SplashPrep, MenuAction::SplashFinish),
            ) && c1 == c0.push(MenuCommand::RestartFade)
        } else {
            w1 == w && c1 == c0
        }
    })
}

/// The how-to-play screen's tick: pages turn, back returns to the title.
pub fn how_to_play_update(world: &mut MenuWorld, inputs: &Vec<(SingleSource, LocalInput)>, commands: &mut Vec<MenuCommand>)
    ensures
        how_to_play_update_post(*old(world), old(commands)@, inputs@, *final(world), final(commands)@),
{
    if let Some(o) = world.how_to_play.process_input(inputs) {
        how_to_play_transition(world, o, commands);
    }
}

/// What `team_select_update` does, from world `w0` and requests `c0` to `w1` and `c1`.
pub open spec fn team_select_update_post(w0: MenuWorld, c0: Seq<MenuCommand>, inputs: Seq<(SingleSource, LocalInput)>, back_buffer: u32, w1: MenuWorld, c1: Seq<MenuCommand>) -> bool {
    &&& w1.matchmaker == w0.matchmaker
    &&& ({
        let js = w0.team_select.joins@;
        let (js2, out) = crate::team_select::ts_fold(js, signs_spec(js), inputs, back_buffer);
        &&& w1.team_select.joins@ == js2
        &&& w1.team_select.visible == w0.team_select.visible
        &&& out is None ==> w1.menu_state == w0.menu_state && w1.transition == w0.transition && c1 == c0
        &&& out matches Some(o) ==> w1.menu_state == MenuState::FadeTransition && w1.transition
            == match o {
            TeamSelectOutput::PlayersInfo(_) => fade(
                MenuAction::TeamSelectHide,
                MenuAction::PlayOfflinePrep,
                MenuAction::Nothing,
            ),
            TeamSelectOutput::Exit => fade(MenuAction::TeamSelectHide, MenuAction::SplashPrep, MenuAction::SplashFinish),
        } && c1 == c0.push(MenuCommand::RestartFade)
    })
}

/// The team-select screen's tick: joins progress, a settled start begins
/// the match, a held back returns to the title.
pub fn team_select_update(
    world: &mut MenuWorld,
    inputs: &Vec<(SingleSource, LocalInput)>,
    back_buffer: u32,
    commands: &mut Vec<MenuCommand>,
)
    ensures
        team_select_update_post(*old(world), old(commands)@, inputs@, back_buffer, *final(world), final(commands)@),
{
    if let Some(o) = world.team_select.process_input(inputs, back_buffer) {
        team_select_transition(world, o, commands);
    }
}

/// What `lan_ui_transition` does, from world `w0` and requests `c0` to `w1` and `c1`.
pub open spec fn lan_ui_transition_post(w0: MenuWorld, c0: Seq<MenuCommand>, output: Option<LanUIOutput>, w1: MenuWorld, c1: Seq<MenuCommand>) -> bool {
    &&& w1.matchmaker.wf()
    &&& w0.matchmaker.socket_spec() is Some ==> w1 == start_fade_spec(
        MenuWorld { service_type: w0.lan_ui.service, ..w0 },
        fade(MenuAction::LanUiHide, MenuAction::PlayOnlinePrep, MenuAction::Nothing),
    ) && c1 == c0.push(MenuCommand::RestartFade)
    &&& w0.matchmaker.socket_spec() is None ==> match output {
        None => w1 == w0 && c1 == c0,
        Some(LanUIOutput::HostCancel) => if w0.matchmaker.hosting_spec() {
            w1 == (MenuWorld { matchmaker: w1.matchmaker, ..w0 })
                && w1.matchmaker.is_idle() && c1 == c0.push(
                MenuCommand::Cancel(CancelAction::StopServer),
            )
        } else {
            w1 == (MenuWorld { matchmaker: w1.matchmaker, ..w0 })
                && w1.matchmaker.hosting_spec() && !w1.matchmaker.joining_spec() && c1 == c0.push(MenuCommand::Host(true))
        },
        Some(LanUIOutput::Server(i)) => if i < w0.matchmaker.servers_spec().len() {
            w1 == (MenuWorld { matchmaker: w1.matchmaker, ..w0 })
                && w1.matchmaker.joining_spec() && !w1.matchmaker.hosting_spec() && c1 == c0.push(MenuCommand::Cancel(cancel_of(w0.matchmaker))).push(
                MenuCommand::JoinServer(i),
            )
        } else {
            w1 == w0 && c1 == c0
        },
        Some(LanUIOutput::Exit) => w1 == start_fade_spec(
            w0,
            fade(MenuAction::LanUiLeave, MenuAction::SplashPrep, MenuAction::SplashFinish),
        ) && c1 == c0.push(MenuCommand::RestartFade),
    }
}

/// Acts on the LAN lobby: with a match socket established the network
/// match starts; otherwise the lobby's output hosts or cancels, joins a
/// listed server, or leaves.
pub fn lan_ui_transition(world: &mut MenuWorld, output: Option<LanUIOutput>, commands: &mut Vec<MenuCommand>)
    requires
        old(world).matchmaker.wf(),
    ensures
        lan_ui_transition_post(*old(world), old(commands)@, output, *final(world), final(commands)@),
{
    if world.matchmaker.network_match_socket().is_some() {
        world.service_type = world.lan_ui.service;
        start_fade(
            world,
            FadeTransition { hide: MenuAction::LanUiHide, prep: MenuAction::PlayOnlinePrep, finish: MenuAction::Nothing },
            commands,
        );
        return;
    }
    match output {
        None => {},
        Some(LanUIOutput::HostCancel) => {
            if world.matchmaker.is_hosting() {
                let c = world.matchmaker.lan_cancel();
                commands.push(MenuCommand::Cancel(c));
            } else {
                let create = world.matchmaker.lan_host();
                commands.push(MenuCommand::Host(create));
            }
        },
        Some(LanUIOutput::Server(i)) => {
            if i < world.matchmaker.lan_servers().len() {
                let server = world.matchmaker.lan_servers[i].clone();
                let c = world.matchmaker.lan_join(&server);
                commands.push(MenuCommand::Cancel(c));
                commands.push(MenuCommand::JoinServer(i));
            }
        },
        Some(LanUIOutput::Exit) => back_to_splash(world, MenuAction::LanUiLeave, commands),
    }
}

/// Whether some device just pressed back.
fn any_back(inputs: &Vec<(SingleSource, LocalInput)>) -> (r: bool)
    ensures
        r == exists|k: int| 0 <= k < inputs@.len() && inputs@[k].1.menu_back.just_pressed_spec(),
{
    let mut i: usize = 0;
    while i < inputs.len()
        invariant
            i <= inputs.len(),
            forall|k: int| 0 <= k < i ==> !inputs@[k].1.menu_back.just_pressed_spec(),
        decreases inputs.len() - i,
    {
        if inputs[i].1.menu_back.just_pressed() {
            return true;
        }
        i = i + 1;
    }
    false
}

/// The settings screen's tick.
pub open spec fn settings_tick_post(w0: MenuWorld, c0: Seq<MenuCommand>, inputs: Seq<(SingleSource, LocalInput)>, w1: MenuWorld, c1: Seq<MenuCommand>) -> bool {
    let (st, o) = crate::menus::settings_fold((w0.settings, None), inputs);
    let w = MenuWorld { settings: st, ..w0 };
    if o.is_some() {
        w1 == start_fade_spec(w, fade(MenuAction::SettingsHide, MenuAction::SplashPrep, MenuAction::SplashFinish)) && c1
            == c0.push(MenuCommand::RestartFade)
    } else {
        w1 == w && c1 == c0
    }
}

/// The credits screen's tick: back returns to the title.
pub open spec fn credits_tick_post(w0: MenuWorld, c0: Seq<MenuCommand>, inputs: Seq<(SingleSource, LocalInput)>, w1: MenuWorld, c1: Seq<MenuCommand>) -> bool {
    if exists|k: int| 0 <= k < inputs.len() && inputs[k].1.menu_back.just_pressed_spec() {
        w1 == start_fade_spec(w0, fade(MenuAction::CreditsHide, MenuAction::SplashPrep, MenuAction::SplashFinish)) && c1
            == c0.push(MenuCommand::RestartFade)
    } else {
        w1 == w0 && c1 == c0
    }
}

/// The network match's tick: the quit prompt reads escape presses and the
/// devices' input.
pub open spec fn quit_tick_post(
    w0: MenuWorld,
    c0: Seq<MenuCommand>,
    keyboard: Seq<crate::events::KeyboardEvent>,
    inputs: Seq<(SingleSource, LocalInput)>,
    w1: MenuWorld,
    c1: Seq<MenuCommand>,
) -> bool {
    let (q, o) = crate::menus::quit_input_fold(crate::menus::quit_key_fold((w0.network_quit, None), keyboard), inputs);
    let w = MenuWorld { network_quit: q, ..w0 };
    match o {
        None => w1 == w && c1 == c0,
        Some(NetworkQuitOutput::Show) => w1 == w && c1 == c0.push(MenuCommand::HideOverlays),
        Some(NetworkQuitOutput::Hide) => w1 == w && c1 == c0.push(MenuCommand::ShowOverlays),
        Some(NetworkQuitOutput::Quit) => w1 == start_fade_spec(
            w,
            fade(MenuAction::PlayLeave, MenuAction::SplashPrep, MenuAction::SplashFinish),
        ) && c1 == c0.push(MenuCommand::RestartFade),
    }
}

/// The LAN select screen's tick.
pub open spec fn lan_select_tick_post(w0: MenuWorld, c0: Seq<MenuCommand>, inputs: Seq<(SingleSource, LocalInput)>, w1: MenuWorld, c1: Seq<MenuCommand>) -> bool {
    let (sel, o) = crate::menus::lan_select_fold((w0.lan_select.selection, None), inputs);
    let w = MenuWorld { lan_select: LanSelect { selection: sel, ..w0.lan_select }, ..w0 };
    match o {
        None => w1 == w && c1 == c0,
        Some(out) => lan_select_transition_post(w, c0, out, w1, c1),
    }
}

/// What one tick of the menus does, by the screen in control.
pub open spec fn update_menu_post(
    w0: MenuWorld,
    c0: Seq<MenuCommand>,
    inputs: Seq<(SingleSource, LocalInput)>,
    keyboard: Seq<crate::events::KeyboardEvent>,
    events: FadeEvents,
    lan_output: Option<LanUIOutput>,
    back_buffer: u32,
    w1: MenuWorld,
    c1: Seq<MenuCommand>,
) -> bool {
    match w0.menu_state {
        MenuState::FadeTransition => fade_transition_post(w0, c0, events, w1, c1),
        MenuState::Splash => splash_update_post(w0, c0, inputs, w1, c1),
        MenuState::HowToPlay => how_to_play_update_post(w0, c0, inputs, w1, c1),
        MenuState::Settings => settings_tick_post(w0, c0, inputs, w1, c1),
        MenuState::Credits => credits_tick_post(w0, c0, inputs, w1, c1),
        MenuState::TeamSelect => team_select_update_post(w0, c0, inputs, back_buffer, w1, c1),
        MenuState::InGame => update_pause_post(w0, c0, inputs, w1, c1),
        MenuState::InNetworkGame => quit_tick_post(w0, c0, keyboard, inputs, w1, c1),
        MenuState::LanSelect => lan_select_tick_post(w0, c0, inputs, w1, c1),
        MenuState::Lan => lan_ui_transition_post(w0, c0, lan_output, w1, c1),
    }
}

/// One tick of the menus: the screen in control reads the cycle's input
/// and acts on its output. `lan_output` is what the LAN lobby's pointer
/// interface gave this tick; `back_buffer` how long back must be held to
/// leave team select.
pub fn update_menu(
    world: &mut MenuWorld,
    inputs: &Vec<(SingleSource, LocalInput)>,
    keyboard: &Vec<crate::events::KeyboardEvent>,
    events: FadeEvents,
    lan_output: Option<LanUIOutput>,
    back_buffer: u32,
    commands: &mut Vec<MenuCommand>,
)
    requires
        old(world).matchmaker.wf(),
    ensures
        final(world).matchmaker.wf(),
        update_menu_post(
            *old(world),
            old(commands)@,
            inputs@,
            keyboard@,
            events,
            lan_output,
            back_buffer,
            *final(world),
            final(commands)@,
        ),
{
    match world.menu_state {
        MenuState::FadeTransition => fade_transition(world, events, commands),
        MenuState::Splash => splash_update(world, inputs, commands),
        MenuState::HowToPlay => how_to_play_update(world, inputs, commands),
        MenuState::Settings => {
            if let Some(o) = world.settings.process_input(inputs) {
                settings_transition(world, o, commands);
            }
        },
        MenuState::Credits => {
            if any_back(inputs) {
                credits_transition(world, CreditsOutput, commands);
            }
        },
        MenuState::TeamSelect => team_select_update(world, inputs, back_buffer, commands),
        MenuState::InGame => update_pause(world, inputs, commands),
        MenuState::InNetworkGame => {
            if let Some(o) = world.network_quit.process_input(keyboard, inputs) {
                network_quit_transition(world, o, commands);
            }
        },
        MenuState::LanSelect => {
            if let Some(o) = world.lan_select.process_input(inputs) {
                lan_select_transition(world, o, commands);
            }
        },
        MenuState::Lan => lan_ui_transition(world, lan_output, commands),
    }
}

} // verus!
