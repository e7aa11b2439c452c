//! The flow of a match: fade in, countdown, play until a goal, show the
//! score, and so on until a team reaches the target.
use vstd::prelude::*;

use crate::menu_flow::{fade, start_fade, start_fade_spec, FadeTransition, MenuAction, MenuCommand, MenuWorld};
use crate::menus::{LanUIState, MatchDone, MatchDoneState};
use crate::slot::Team;

verus! {

/// Goals scored by each team.
#[derive(Clone, Copy, Debug, PartialEq, Eq, Structural)]
pub struct PinScore {
    pub a: u8,
    pub b: u8,
}

/// The score against the target, and the score as last acknowledged, to
/// tell when a goal happened.
#[derive(Clone, Copy, Debug, PartialEq, Eq, Structural)]
pub struct Score {
    pub target: u8,
    pub current: PinScore,
    pub previous: PinScore,
}

impl Score {
    pub open spec fn scorer_spec(&self) -> Option<Team> {
        if self.current.a != self.previous.a {
            Some(Team::A)
        } else if self.current.b != self.previous.b {
            Some(Team::B)
        } else {
            None
        }
    }

    pub open spec fn winner_spec(&self) -> Option<Team> {
        if self.current.b == self.target {
            Some(Team::B)
        } else if self.current.a == self.target {
            Some(Team::A)
        } else {
            None
        }
    }

    pub fn update_current(&mut self, score: PinScore)
        ensures
            *final(self) == (Score { current: score, ..*old(self) }),
    {
        self.current = score;
    }

    /// Acknowledges the current score.
    pub fn update_previous(&mut self)
        ensures
            *final(self) == (Score { previous: old(self).current, ..*old(self) }),
    {
        self.previous = self.current;
    }

    /// The team whose score changed since it was last acknowledged; team A
    /// is checked first.
    pub fn scorer(&self) -> (r: Option<Team>)
        ensures
            r == self.scorer_spec(),
    {
        if self.current.a != self.previous.a {
            return Some(Team::A);
        }
        if self.current.b != self.previous.b {
            return Some(Team::B);
        }
        None
    }

    /// The team that reached the target; team B is checked first.
    pub fn winner(&self) -> (r: Option<Team>)
        ensures
            r == self.winner_spec(),
    {
        if self.current.b == self.target {
            return Some(Team::B);
        }
        if self.current.a == self.target {
            return Some(Team::A);
        }
        None
    }
}

/// The phase of a match.
#[derive(Clone, Copy, Debug, PartialEq, Eq, Structural)]
pub enum PlayState {
    FadeIn,
    Countdown,
    WaitForScore,
    ScoreDisplay,
    Podium,
    MatchDone,
}

/// What a character is doing as the flow sees it.
#[derive(Clone, Copy, Debug, PartialEq, Eq, Structural)]
pub enum PlayerState {
    Wait,
    Free,
    Win,
    Lose,
}

/// A request of the match flow to the host.
#[derive(Clone, Copy, Debug, PartialEq, Eq, Structural)]
pub enum PlayCommand {
    RestartCountdown,
    RestartScoreDisplay,
    RestartFade,
    /// Put the characters and the ball back for the next round.
    ResetPositions,
    /// Show the winner's banner for three seconds, with its sound.
    ShowWinner(Team),
}

/// Each character's state after a goal by `scorer`: its team wins, the
/// other loses.
pub open spec fn scored_spec(team: Team, scorer: Team) -> PlayerState {
    if team == scorer {
        PlayerState::Win
    } else {
        PlayerState::Lose
    }
}

fn set_scored(players: &mut Vec<(Team, PlayerState)>, scorer: Team)
    ensures
        final(players)@.len() == old(players)@.len(),
        forall|k: int|
            0 <= k < old(players)@.len() ==> #[trigger] final(players)@[k] == (
                old(players)@[k].0,
                scored_spec(old(players)@[k].0, scorer),
            ),
{
    let mut i: usize = 0;
    while i < players.len()
        invariant
            i <= players@.len(),
            players@.len() == old(players)@.len(),
            forall|k: int| i <= k < players@.len() ==> players@[k] == old(players)@[k],
            forall|k: int|
                0 <= k < i ==> #[trigger] players@[k] == (old(players)@[k].0, scored_spec(old(players)@[k].0, scorer)),
        decreases players@.len() - i,
    {
        let team = players[i].0;
        let state = if team == scorer { PlayerState::Win } else { PlayerState::Lose };
        players.set(i, (team, state));
        i = i + 1;
    }
}

/// After team A scored: team A's characters win, team B's lose.
pub fn set_player_states_scored_a(players: &mut Vec<(Team, PlayerState)>)
    ensures
        final(players)@.len() == old(players)@.len(),
        forall|k: int|
            0 <= k < old(players)@.len() ==> #[trigger] final(players)@[k] == (
                old(players)@[k].0,
                scored_spec(old(players)@[k].0, Team::A),
            ),
{
    set_scored(players, Team::A);
}

/// After team B scored: team B's characters win, team A's lose.
pub fn set_player_states_scored_b(players: &mut Vec<(Team, PlayerState)>)
    ensures
        final(players)@.len() == old(players)@.len(),
        forall|k: int|
            0 <= k < old(players)@.len() ==> #[trigger] final(players)@[k] == (
                old(players)@[k].0,
                scored_spec(old(players)@[k].0, Team::B),
            ),
{
    set_scored(players, Team::B);
}

/// Frees every character to play.
pub fn set_player_states_free(players: &mut Vec<(Team, PlayerState)>)
    ensures
        final(players)@.len() == old(players)@.len(),
        forall|k: int|
            0 <= k < old(players)@.len() ==> #[trigger] final(players)@[k] == (old(players)@[k].0, PlayerState::Free),
{
    let mut i: usize = 0;
    while i < players.len()
        invariant
            i <= players@.len(),
            players@.len() == old(players)@.len(),
            forall|k: int| i <= k < players@.len() ==> players@[k] == old(players)@[k],
            forall|k: int| 0 <= k < i ==> #[trigger] players@[k] == (old(players)@[k].0, PlayerState::Free),
        decreases players@.len() - i,
    {
        let team = players[i].0;
        players.set(i, (team, PlayerState::Free));
        i = i + 1;
    }
}

/// Once the fade-in has finished, the countdown starts.
pub fn fade_in_update(state: &mut PlayState, fade_finished: bool, commands: &mut Vec<PlayCommand>)
    ensures
        fade_finished ==> *final(state) == PlayState::Countdown && final(commands)@ == old(commands)@.push(
            PlayCommand::RestartCountdown,
        ),
        !fade_finished ==> *final(state) == *old(state) && final(commands)@ == old(commands)@,
{
    if fade_finished {
        *state = PlayState::Countdown;
        commands.push(PlayCommand::RestartCountdown);
    }
}

/// Once the countdown has finished, the characters are freed and play
/// waits for a goal.
pub fn countdown_update(state: &mut PlayState, countdown_finished: bool, players: &mut Vec<(Team, PlayerState)>)
    ensures
        countdown_finished ==> *final(state) == PlayState::WaitForScore && final(players)@.len() == old(players)@.len()
            && forall|k: int|
            0 <= k < old(players)@.len() ==> #[trigger] final(players)@[k] == (old(players)@[k].0, PlayerState::Free),
        !countdown_finished ==> *final(state) == *old(state) && final(players)@ == old(players)@,
{
    if countdown_finished {
        set_player_states_free(players);
        *state = PlayState::WaitForScore;
    }
}

/// Reads the pins' score; on a goal, the scorer's characters win and the
/// others lose, the score display and the fade restart, and the score is
/// shown.
pub fn wait_for_score_update(
    state: &mut PlayState,
    score: &mut Score,
    pin_score: PinScore,
    players: &mut Vec<(Team, PlayerState)>,
    commands: &mut Vec<PlayCommand>,
)
    ensures
        *final(score) == (Score { current: pin_score, ..*old(score) }),
        final(score).scorer_spec() is None ==> *final(state) == *old(state) && final(players)@ == old(players)@
            && final(commands)@ == old(commands)@,
        final(score).scorer_spec() matches Some(t) ==> {
            &&& *final(state) == PlayState::ScoreDisplay
            &&& final(commands)@ == old(commands)@.push(PlayCommand::RestartScoreDisplay).push(PlayCommand::RestartFade)
            &&& final(players)@.len() == old(players)@.len()
            &&& forall|k: int|
                0 <= k < old(players)@.len() ==> #[trigger] final(players)@[k] == (
                    old(players)@[k].0,
                    scored_spec(old(players)@[k].0, t),
                )
        },
{
    score.update_current(pin_score);
    if let Some(scorer) = score.scorer() {
        match scorer {
            Team::A => set_player_states_scored_a(players),
            Team::B => set_player_states_scored_b(players),
        }
        commands.push(PlayCommand::RestartScoreDisplay);
        commands.push(PlayCommand::RestartFade);
        *state = PlayState::ScoreDisplay;
    }
}

/// The match flow's resources at the start of a match: fading in, first
/// to seven goals.
pub struct FlowPlugin;

impl FlowPlugin {
    pub fn install(self) -> (r: (PlayState, Score))
        ensures
            r.0 == PlayState::FadeIn,
            r.1 == (Score { target: 7, current: PinScore { a: 0, b: 0 }, previous: PinScore { a: 0, b: 0 } }),
    {
        (PlayState::FadeIn, Score { target: 7, current: PinScore { a: 0, b: 0 }, previous: PinScore { a: 0, b: 0 } })
    }
}

/// The score display's tick. When the screen has gone blank the round is
/// reset: the score is read again for a win, positions reset, and without a
/// winner the characters wait. When it is back, a winner goes to the podium,
/// otherwise the countdown restarts; the score is acknowledged.
pub fn score_display_update(
    state: &mut PlayState,
    score: &mut Score,
    pin_score: PinScore,
    fade_out_finished: bool,
    fade_in_finished: bool,
    players: &mut Vec<(Team, PlayerState)>,
    commands: &mut Vec<PlayCommand>,
)
    ensures
        ({
            let s1 = if fade_out_finished { Score { current: pin_score, ..*old(score) } } else { *old(score) };
            let c1 = if fade_out_finished { old(commands)@.push(PlayCommand::ResetPositions) } else { old(commands)@ };
            &&& (fade_out_finished && s1.winner_spec() is None) ==> final(players)@.len() == old(players)@.len()
                && forall|k: int|
                0 <= k < old(players)@.len() ==> #[trigger] final(players)@[k] == (old(players)@[k].0, PlayerState::Wait)
            &&& !(fade_out_finished && s1.winner_spec() is None) ==> final(players)@ == old(players)@
            &&& fade_in_finished ==> *final(score) == (Score { previous: s1.current, ..s1 }) && match s1.winner_spec() {
                Some(t) => *final(state) == PlayState::Podium && final(commands)@ == c1.push(PlayCommand::ShowWinner(t)),
                None => *final(state) == PlayState::Countdown && final(commands)@ == c1.push(
                    PlayCommand::RestartCountdown,
                ),
            }
            &&& !fade_in_finished ==> *final(score) == s1 && *final(state) == *old(state) && final(commands)@ == c1
        }),
{
    if fade_out_finished {
        score.update_current(pin_score);
        commands.push(PlayCommand::ResetPositions);
        if score.winner().is_none() {
            let mut i: usize = 0;
            while i < players.len()
                invariant
                    i <= players@.len(),
                    players@.len() == old(players)@.len(),
                    forall|k: int| i <= k < players@.len() ==> players@[k] == old(players)@[k],
                    forall|k: int| 0 <= k < i ==> #[trigger] players@[k] == (old(players)@[k].0, PlayerState::Wait),
                decreases players@.len() - i,
            {
                let team = players[i].0;
                players.set(i, (team, PlayerState::Wait));
                i = i + 1;
            }
        }
    }
    if fade_in_finished {
        match score.winner() {
            Some(team) => {
                commands.push(PlayCommand::ShowWinner(team));
                *state = PlayState::Podium;
            },
            None => {
                commands.push(PlayCommand::RestartCountdown);
                *state = PlayState::Countdown;
            },
        }
        score.update_previous();
    }
}

/// After the winner's banner: a network match returns to the LAN lobby, a
/// local one shows the match-done menu.
pub fn podium_update(
    state: &mut PlayState,
    banner_finished: bool,
    networked: bool,
    match_done: &mut MatchDone,
    ui: &mut MenuWorld,
    commands: &mut Vec<MenuCommand>,
)
    ensures
        !banner_finished ==> *final(state) == *old(state) && *final(match_done) == *old(match_done) && *final(ui)
            == *old(ui) && final(commands)@ == old(commands)@,
        banner_finished && networked ==> *final(state) == *old(state) && *final(match_done) == *old(match_done)
            && *final(ui) == start_fade_spec(*old(ui), fade(MenuAction::PlayLeave, MenuAction::LanUiPrep, MenuAction::LanUiFinish))
            && final(commands)@ == old(commands)@.push(MenuCommand::RestartFade),
        banner_finished && !networked ==> *final(state) == PlayState::MatchDone && *final(match_done) == (MatchDone {
            visible: true,
            ..*old(match_done)
        }) && *final(ui) == *old(ui) && final(commands)@ == old(commands)@,
{
    if banner_finished {
        if networked {
            start_fade(
                ui,
                FadeTransition { hide: MenuAction::PlayLeave, prep: MenuAction::LanUiPrep, finish: MenuAction::LanUiFinish },
                commands,
            );
        } else {
            match_done.visible = true;
            *state = PlayState::MatchDone;
        }
    }
}

/// Acts on the match-done menu's output: play again, back to team select,
/// or quit to the title.
pub fn match_done_update(match_done: &MatchDone, ui: &mut MenuWorld, commands: &mut Vec<MenuCommand>)
    ensures
        match match_done.output {
            None => *final(ui) == *old(ui) && final(commands)@ == old(commands)@,
            Some(o) => final(commands)@ == old(commands)@.push(MenuCommand::RestartFade) && *final(ui)
                == start_fade_spec(
                *old(ui),
                match o {
                    MatchDoneState::PlayAgain => fade(MenuAction::PlayReset, MenuAction::PlayOfflinePrep, MenuAction::Nothing),
                    MatchDoneState::TeamSelect => fade(
                        MenuAction::PlayLeave,
                        MenuAction::TeamSelectPrep,
                        MenuAction::TeamSelectFinish,
                    ),
                    MatchDoneState::Quit => fade(MenuAction::PlayLeave, MenuAction::SplashPrep, MenuAction::SplashFinish),
                },
            ),
        },
{
    match match_done.output {
        None => {},
        Some(MatchDoneState::PlayAgain) => start_fade(
            ui,
            FadeTransition { hide: MenuAction::PlayReset, prep: MenuAction::PlayOfflinePrep, finish: MenuAction::Nothing },
            commands,
        ),
        Some(MatchDoneState::TeamSelect) => start_fade(
            ui,
            FadeTransition {
                hide: MenuAction::PlayLeave,
                prep: MenuAction::TeamSelectPrep,
                finish: MenuAction::TeamSelectFinish,
            },
            commands,
        ),
        Some(MatchDoneState::Quit) => start_fade(
            ui,
            FadeTransition { hide: MenuAction::PlayLeave, prep: MenuAction::SplashPrep, finish: MenuAction::SplashFinish },
            commands,
        ),
    }
}

/// When a peer dropped out of a network match, the lobby shows the
/// disconnection and the flow fades back to it. Returns whether it did.
pub fn handle_disconnections(disconnected_players: usize, ui: &mut MenuWorld, commands: &mut Vec<MenuCommand>) -> (r: bool)
    ensures
        r == (disconnected_players > 0),
        !r ==> *final(ui) == *old(ui) && final(commands)@ == old(commands)@,
        r ==> *final(ui) == start_fade_spec(
            MenuWorld { lan_ui: crate::menus::LanUI { state: LanUIState::Disconnected, ..old(ui).lan_ui }, ..*old(ui) },
            fade(MenuAction::PlayLeave, MenuAction::LanUiPrep, MenuAction::LanUiFinish),
        ) && final(commands)@ == old(commands)@.push(MenuCommand::RestartFade),
{
    if disconnected_players > 0 {
        ui.lan_ui.state = LanUIState::Disconnected;
        start_fade(
            ui,
            FadeTransition { hide: MenuAction::PlayLeave, prep: MenuAction::LanUiPrep, finish: MenuAction::LanUiFinish },
            commands,
        );
        true
    } else {
        false
    }
}

} // verus!
