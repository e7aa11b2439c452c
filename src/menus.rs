//! The menu screens as state machines over the devices' menu input.
use vstd::prelude::*;

use crate::collection::SingleSource;
use crate::events::{KeyCode, KeyboardEvent};
use crate::local_input::LocalInput;

verus! {

pub type Inputs = Seq<(SingleSource, LocalInput)>;

// ---------------------------------------------------------------- pause

/// What the pause menu asks of the match.
#[derive(Clone, Copy, Debug, PartialEq, Eq, Structural)]
pub enum PauseOutput {
    Hide,
    Show,
    Restart,
    Quit,
}

/// The pause menu: disabled outside a local match, hidden while playing,
/// otherwise the highlighted entry.
#[derive(Clone, Copy, Debug, PartialEq, Eq, Structural)]
pub enum Pause {
    Disabled,
    Hidden,
    Continue,
    Restart,
    Quit,
}

pub open spec fn pause_cycle_spec(p: Pause) -> Pause {
    match p {
        Pause::Continue => Pause::Restart,
        Pause::Restart => Pause::Quit,
        Pause::Quit => Pause::Continue,
        _ => p,
    }
}

/// One device's input read by the pause menu: down and up move the
/// highlight, pause toggles the menu, select acts on the highlight.
pub open spec fn pause_step(s: (Pause, Option<PauseOutput>), input: LocalInput) -> (Pause, Option<PauseOutput>) {
    let start = s.0;
    let moved_down = if input.menu_down.just_pressed_spec() { pause_cycle_spec(start) } else { start };
    let moved = if input.menu_up.just_pressed_spec() { pause_cycle_spec(pause_cycle_spec(moved_down)) } else { moved_down };
    let s3 = if input.pause.just_pressed_spec() {
        match moved {
            Pause::Hidden => (Pause::Continue, Some(PauseOutput::Show)),
            Pause::Continue | Pause::Restart | Pause::Quit => (Pause::Hidden, Some(PauseOutput::Hide)),
            Pause::Disabled => (moved, s.1),
        }
    } else {
        (moved, s.1)
    };
    if input.menu_select.just_pressed_spec() {
        match s3.0 {
            Pause::Continue => (Pause::Hidden, Some(PauseOutput::Hide)),
            Pause::Restart => (Pause::Disabled, Some(PauseOutput::Restart)),
            Pause::Quit => (Pause::Disabled, Some(PauseOutput::Quit)),
            _ => s3,
        }
    } else {
        s3
    }
}

pub open spec fn pause_fold(s: (Pause, Option<PauseOutput>), inputs: Inputs) -> (Pause, Option<PauseOutput>)
    decreases inputs.len(),
{
    if inputs.len() == 0 {
        s
    } else {
        pause_step(pause_fold(s, inputs.drop_last()), inputs.last().1)
    }
}

impl Default for Pause {
    fn default() -> (r: Self)
        ensures
            r == Pause::Disabled,
    {
        Pause::Disabled
    }
}

impl Pause {
    /// Moves the highlight down, wrapping; no effect while hidden or
    /// disabled.
    pub fn cycle(&mut self)
        ensures
            *final(self) == pause_cycle_spec(*old(self)),
    {
        match self {
            Pause::Disabled | Pause::Hidden => {},
            Pause::Continue => *self = Pause::Restart,
            Pause::Restart => *self = Pause::Quit,
            Pause::Quit => *self = Pause::Continue,
        }
    }

    fn step(&mut self, output: Option<PauseOutput>, input: &LocalInput) -> (r: Option<PauseOutput>)
        ensures
            (*final(self), r) == pause_step((*old(self), output), *input),
    {
        let mut output = output;
        if input.menu_down.just_pressed() {
            self.cycle();
        }
        if input.menu_up.just_pressed() {
            self.cycle();
            self.cycle();
        }
        if input.pause.just_pressed() {
            match *self {
                Pause::Hidden => {
                    *self = Pause::Continue;
                    output = Some(PauseOutput::Show);
                },
                Pause::Continue | Pause::Restart | Pause::Quit => {
                    *self = Pause::Hidden;
                    output = Some(PauseOutput::Hide);
                },
                Pause::Disabled => {},
            }
        }
        if input.menu_select.just_pressed() {
            match *self {
                Pause::Continue => {
                    *self = Pause::Hidden;
                    output = Some(PauseOutput::Hide);
                },
                Pause::Restart => {
                    *self = Pause::Disabled;
                    output = Some(PauseOutput::Restart);
                },
                Pause::Quit => {
                    *self = Pause::Disabled;
                    output = Some(PauseOutput::Quit);
                },
                Pause::Hidden | Pause::Disabled => {},
            }
        }
        output
    }

    /// Reads every device's input in turn; the last output wins. Does
    /// nothing while disabled.
    pub fn process_input(&mut self, inputs: &Vec<(SingleSource, LocalInput)>) -> (r: Option<PauseOutput>)
        ensures
            *old(self) == Pause::Disabled ==> *final(self) == Pause::Disabled && r.is_none(),
            *old(self) != Pause::Disabled ==> (*final(self), r) == pause_fold((*old(self), None), inputs@),
    {
        if *self == Pause::Disabled {
            return None;
        }
        let ghost start = *self;
        let mut output: Option<PauseOutput> = None;
        let mut i: usize = 0;
        while i < inputs.len()
            invariant
                i <= inputs.len(),
                (*self, output) == pause_fold((start, None), inputs@.subrange(0, i as int)),
            decreases inputs.len() - i,
        {
            assert(inputs@.subrange(0, i + 1).drop_last() =~= inputs@.subrange(0, i as int));
            output = self.step(output, &inputs[i].1);
            i = i + 1;
        }
        assert(inputs@.subrange(0, inputs.len() as int) =~= inputs@);
        output
    }
}

// ---------------------------------------------------------------- network quit

#[derive(Clone, Copy, Debug, PartialEq, Eq, Structural)]
pub enum NetworkQuitState {
    No,
    Yes,
}

#[derive(Clone, Copy, Debug, PartialEq, Eq, Structural)]
pub enum NetworkQuitOutput {
    Quit,
    Show,
    Hide,
}

/// The quit prompt of a network match.
#[derive(Clone, Copy, Debug, PartialEq, Eq, Structural)]
pub struct NetworkQuit {
    pub visible: bool,
    pub state: NetworkQuitState,
}

pub open spec fn quit_hide_spec(q: NetworkQuit) -> (NetworkQuit, Option<NetworkQuitOutput>) {
    if q.visible {
        (NetworkQuit { visible: false, state: NetworkQuitState::No }, Some(NetworkQuitOutput::Hide))
    } else {
        (q, None)
    }
}

pub open spec fn quit_show_spec(q: NetworkQuit) -> (NetworkQuit, Option<NetworkQuitOutput>) {
    if !q.visible {
        (NetworkQuit { visible: true, ..q }, Some(NetworkQuitOutput::Show))
    } else {
        (q, None)
    }
}

pub open spec fn quit_quit_spec(q: NetworkQuit) -> (NetworkQuit, Option<NetworkQuitOutput>) {
    if q.visible {
        (NetworkQuit { visible: false, ..q }, Some(NetworkQuitOutput::Quit))
    } else {
        (q, None)
    }
}

/// Keeps the first output: a later action runs only while none was given.
pub open spec fn quit_or(
    s: (NetworkQuit, Option<NetworkQuitOutput>),
    f: spec_fn(NetworkQuit) -> (NetworkQuit, Option<NetworkQuitOutput>),
) -> (NetworkQuit, Option<NetworkQuitOutput>) {
    if s.1.is_some() {
        s
    } else {
        f(s.0)
    }
}

pub open spec fn quit_toggle(s: (NetworkQuit, Option<NetworkQuitOutput>)) -> (NetworkQuit, Option<NetworkQuitOutput>) {
    if s.0.visible {
        quit_or(s, |q: NetworkQuit| quit_hide_spec(q))
    } else {
        quit_or(s, |q: NetworkQuit| quit_show_spec(q))
    }
}

pub open spec fn quit_key_step(s: (NetworkQuit, Option<NetworkQuitOutput>), e: KeyboardEvent) -> (NetworkQuit, Option<NetworkQuitOutput>) {
    if e.key_code == Some(KeyCode::Escape) && e.pressed {
        quit_toggle(s)
    } else {
        s
    }
}

pub open spec fn quit_key_fold(s: (NetworkQuit, Option<NetworkQuitOutput>), es: Seq<KeyboardEvent>) -> (NetworkQuit, Option<NetworkQuitOutput>)
    decreases es.len(),
{
    if es.len() == 0 {
        s
    } else {
        quit_key_step(quit_key_fold(s, es.drop_last()), es.last())
    }
}

/// One device's input read by the quit prompt: start toggles it, south
/// confirms the highlighted answer, left or right switch it.
pub open spec fn quit_input_step(s: (NetworkQuit, Option<NetworkQuitOutput>), input: LocalInput) -> (NetworkQuit, Option<NetworkQuitOutput>) {
    let s1 = if input.start.just_pressed_spec() { quit_toggle(s) } else { s };
    let s2 = if input.south.just_pressed_spec() && s1.0.visible {
        match s1.0.state {
            NetworkQuitState::Yes => quit_or(s1, |q: NetworkQuit| quit_quit_spec(q)),
            NetworkQuitState::No => quit_or(s1, |q: NetworkQuit| quit_hide_spec(q)),
        }
    } else {
        s1
    };
    if input.menu_left.just_pressed_spec() || (input.menu_right.just_pressed_spec() && s2.0.visible) {
        let state = match s2.0.state {
            NetworkQuitState::No => NetworkQuitState::Yes,
            NetworkQuitState::Yes => NetworkQuitState::No,
        };
        (NetworkQuit { state, ..s2.0 }, s2.1)
    } else {
        s2
    }
}

pub open spec fn quit_input_fold(s: (NetworkQuit, Option<NetworkQuitOutput>), inputs: Inputs) -> (NetworkQuit, Option<NetworkQuitOutput>)
    decreases inputs.len(),
{
    if inputs.len() == 0 {
        s
    } else {
        quit_input_step(quit_input_fold(s, inputs.drop_last()), inputs.last().1)
    }
}

impl Default for NetworkQuit {
    fn default() -> (r: Self)
        ensures
            r == (NetworkQuit { visible: false, state: NetworkQuitState::No }),
    {
        NetworkQuit { visible: false, state: NetworkQuitState::No }
    }
}

impl NetworkQuit {
    /// Hides a visible prompt, resetting its answer to no.
    pub fn output_hide(&mut self) -> (r: Option<NetworkQuitOutput>)
        ensures
            (*final(self), r) == quit_hide_spec(*old(self)),
    {
        if self.visible {
            self.visible = false;
            self.state = NetworkQuitState::No;
            Some(NetworkQuitOutput::Hide)
        } else {
            None
        }
    }

    pub fn output_show(&mut self) -> (r: Option<NetworkQuitOutput>)
        ensures
            (*final(self), r) == quit_show_spec(*old(self)),
    {
        if !self.visible {
            self.visible = true;
            Some(NetworkQuitOutput::Show)
        } else {
            None
        }
    }

    pub fn output_quit(&mut self) -> (r: Option<NetworkQuitOutput>)
        ensures
            (*final(self), r) == quit_quit_spec(*old(self)),
    {
        if self.visible {
            self.visible = false;
            Some(NetworkQuitOutput::Quit)
        } else {
            None
        }
    }

    fn toggle(&mut self, output: Option<NetworkQuitOutput>) -> (r: Option<NetworkQuitOutput>)
        ensures
            (*final(self), r) == quit_toggle((*old(self), output)),
    {
        if output.is_some() {
            output
        } else if self.visible {
            self.output_hide()
        } else {
            self.output_show()
        }
    }

    fn input_step(&mut self, output: Option<NetworkQuitOutput>, input: &LocalInput) -> (r: Option<NetworkQuitOutput>)
        ensures
            (*final(self), r) == quit_input_step((*old(self), output), *input),
    {
        let mut output = output;
        if input.start.just_pressed() {
            output = self.toggle(output);
        }
        if input.south.just_pressed() && self.visible {
            if output.is_none() {
                output = match self.state {
                    NetworkQuitState::Yes => self.output_quit(),
                    NetworkQuitState::No => self.output_hide(),
                };
            }
        }
        if input.menu_left.just_pressed() || (input.menu_right.just_pressed() && self.visible) {
            self.state = match self.state {
                NetworkQuitState::No => NetworkQuitState::Yes,
                NetworkQuitState::Yes => NetworkQuitState::No,
            };
        }
        output
    }

    /// Reads escape presses, then every device's input; the first output
    /// of the cycle wins.
    pub fn process_input(&mut self, keyboard: &Vec<KeyboardEvent>, inputs: &Vec<(SingleSource, LocalInput)>) -> (r: Option<NetworkQuitOutput>)
        ensures
            (*final(self), r) == quit_input_fold(quit_key_fold((*old(self), None), keyboard@), inputs@),
    {
        let ghost start = *self;
        let mut output: Option<NetworkQuitOutput> = None;
        let mut k: usize = 0;
        while k < keyboard.len()
            invariant
                k <= keyboard.len(),
                (*self, output) == quit_key_fold((start, None), keyboard@.subrange(0, k as int)),
            decreases keyboard.len() - k,
        {
            assert(keyboard@.subrange(0, k + 1).drop_last() =~= keyboard@.subrange(0, k as int));
            let e = keyboard[k];
            if e.key_code == Some(KeyCode::Escape) && e.pressed {
                output = self.toggle(output);
            }
            k = k + 1;
        }
        assert(keyboard@.subrange(0, keyboard.len() as int) =~= keyboard@);
        let ghost mid = (*self, output);
        let mut i: usize = 0;
        while i < inputs.len()
            invariant
                i <= inputs.len(),
                (*self, output) == quit_input_fold(mid, inputs@.subrange(0, i as int)),
            decreases inputs.len() - i,
        {
            assert(inputs@.subrange(0, i + 1).drop_last() =~= inputs@.subrange(0, i as int));
            output = self.input_step(output, &inputs[i].1);
            i = i + 1;
        }
        assert(inputs@.subrange(0, inputs.len() as int) =~= inputs@);
        output
    }
}

// ---------------------------------------------------------------- match done

#[derive(Clone, Copy, Debug, PartialEq, Eq, Structural)]
pub enum MatchDoneState {
    PlayAgain,
    TeamSelect,
    Quit,
}

/// The menu after a local match.
#[derive(Clone, Copy, Debug, PartialEq, Eq, Structural)]
pub struct MatchDone {
    pub visible: bool,
    pub state: MatchDoneState,
    pub output: Option<MatchDoneState>,
}

pub open spec fn done_up_spec(s: MatchDoneState) -> MatchDoneState {
    match s {
        MatchDoneState::PlayAgain => MatchDoneState::Quit,
        MatchDoneState::TeamSelect => MatchDoneState::PlayAgain,
        MatchDoneState::Quit => MatchDoneState::TeamSelect,
    }
}

pub open spec fn done_down_spec(s: MatchDoneState) -> MatchDoneState {
    match s {
        MatchDoneState::PlayAgain => MatchDoneState::TeamSelect,
        MatchDoneState::TeamSelect => MatchDoneState::Quit,
        MatchDoneState::Quit => MatchDoneState::PlayAgain,
    }
}

/// One device's input read by the match-done menu: select picks the
/// highlighted entry and hides the menu, up and down move the highlight.
pub open spec fn done_step(s: (MatchDone, Option<MatchDoneState>), input: LocalInput) -> (MatchDone, Option<MatchDoneState>) {
    let s1 = if input.menu_select.just_pressed_spec() {
        (MatchDone { visible: false, ..s.0 }, Some(s.0.state))
    } else {
        s
    };
    let s2 = if input.menu_up.just_pressed_spec() {
        (MatchDone { state: done_up_spec(s1.0.state), ..s1.0 }, s1.1)
    } else {
        s1
    };
    if input.menu_down.just_pressed_spec() {
        (MatchDone { state: done_down_spec(s2.0.state), ..s2.0 }, s2.1)
    } else {
        s2
    }
}

pub open spec fn done_fold(s: (MatchDone, Option<MatchDoneState>), inputs: Inputs) -> (MatchDone, Option<MatchDoneState>)
    decreases inputs.len(),
{
    if inputs.len() == 0 {
        s
    } else {
        done_step(done_fold(s, inputs.drop_last()), inputs.last().1)
    }
}

impl MatchDone {
    pub fn cycle_up(&mut self)
        ensures
            *final(self) == (MatchDone { state: done_up_spec(old(self).state), ..*old(self) }),
    {
        self.state = match self.state {
            MatchDoneState::PlayAgain => MatchDoneState::Quit,
            MatchDoneState::TeamSelect => MatchDoneState::PlayAgain,
            MatchDoneState::Quit => MatchDoneState::TeamSelect,
        }
    }

    pub fn cycle_down(&mut self)
        ensures
            *final(self) == (MatchDone { state: done_down_spec(old(self).state), ..*old(self) }),
    {
        self.state = match self.state {
            MatchDoneState::PlayAgain => MatchDoneState::TeamSelect,
            MatchDoneState::TeamSelect => MatchDoneState::Quit,
            MatchDoneState::Quit => MatchDoneState::PlayAgain,
        }
    }

    /// Reads every device's input while the menu shows, and records the
    /// cycle's output, which it also returns.
    pub fn process_input(&mut self, inputs: &Vec<(SingleSource, LocalInput)>) -> (r: Option<MatchDoneState>)
        ensures
            !old(self).visible ==> *final(self) == (MatchDone { output: None, ..*old(self) }) && r.is_none(),
            old(self).visible ==> ({
                let f = done_fold((*old(self), None), inputs@);
                &&& r == f.1
                &&& *final(self) == (MatchDone { output: f.1, ..f.0 })
            }),
    {
        if !self.visible {
            self.output = None;
            return None;
        }
        let ghost start = *self;
        let mut output: Option<MatchDoneState> = None;
        let mut i: usize = 0;
        while i < inputs.len()
            invariant
                i <= inputs.len(),
                (*self, output) == done_fold((start, None), inputs@.subrange(0, i as int)),
            decreases inputs.len() - i,
        {
            assert(inputs@.subrange(0, i + 1).drop_last() =~= inputs@.subrange(0, i as int));
            let input = inputs[i].1;
            if input.menu_select.just_pressed() {
                output = Some(self.state);
                self.visible = false;
            }
            if input.menu_up.just_pressed() {
                self.cycle_up();
            }
            if input.menu_down.just_pressed() {
                self.cycle_down();
            }
            i = i + 1;
        }
        assert(inputs@.subrange(0, inputs.len() as int) =~= inputs@);
        self.output = output;
        output
    }
}

// ---------------------------------------------------------------- splash

#[derive(Clone, Copy, Debug, PartialEq, Eq, Structural)]
pub enum SplashState {
    PressGamepad,
    Offline,
    Lan,
    HowToPlay,
}

pub open spec fn splash_up_spec(s: SplashState) -> SplashState {
    match s {
        SplashState::Offline => SplashState::HowToPlay,
        SplashState::Lan => SplashState::Offline,
        SplashState::HowToPlay => SplashState::Lan,
        SplashState::PressGamepad => s,
    }
}

pub open spec fn splash_down_spec(s: SplashState) -> SplashState {
    match s {
        SplashState::Offline => SplashState::Lan,
        SplashState::Lan => SplashState::HowToPlay,
        SplashState::HowToPlay => SplashState::Offline,
        SplashState::PressGamepad => s,
    }
}

impl SplashState {
    pub fn cycle_up(&mut self)
        ensures
            *final(self) == splash_up_spec(*old(self)),
    {
        *self = match *self {
            SplashState::Offline => SplashState::HowToPlay,
            SplashState::Lan => SplashState::Offline,
            SplashState::HowToPlay => SplashState::Lan,
            SplashState::PressGamepad => SplashState::PressGamepad,
        }
    }

    pub fn cycle_down(&mut self)
        ensures
            *final(self) == splash_down_spec(*old(self)),
    {
        *self = match *self {
            SplashState::Offline => SplashState::Lan,
            SplashState::Lan => SplashState::HowToPlay,
            SplashState::HowToPlay => SplashState::Offline,
            SplashState::PressGamepad => SplashState::PressGamepad,
        }
    }
}

/// The title screen: the highlighted entry, an entry picked by pointer, and
/// whether it shows.
#[derive(Clone, Copy, Debug, PartialEq, Eq, Structural)]
pub struct Splash {
    pub state: SplashState,
    pub interact: Option<SplashState>,
    pub visible: bool,
}

// ---------------------------------------------------------------- settings

/// Steps of a volume slider.
pub const SLIDER_INCREMENTS: u8 = 7;

#[derive(Clone, Copy, Debug, PartialEq, Eq, Structural)]
pub enum SettingsState {
    SFX,
    Music,
}

impl SettingsState {
    pub fn cycle(&mut self)
        ensures
            *final(self) == if *old(self) == SettingsState::SFX { SettingsState::Music } else { SettingsState::SFX },
    {
        *self = match *self {
            SettingsState::SFX => SettingsState::Music,
            SettingsState::Music => SettingsState::SFX,
        }
    }
}

/// The sound-effect volume, in slider steps.
#[derive(Clone, Copy, Debug, PartialEq, Eq, Structural)]
pub struct SfxVolumeSetting(pub u8);

/// The music volume, in slider steps.
#[derive(Clone, Copy, Debug, PartialEq, Eq, Structural)]
pub struct MusicVolumeSetting(pub u8);

impl Default for SfxVolumeSetting {
    fn default() -> (r: Self)
        ensures
            r.0 == SLIDER_INCREMENTS,
    {
        SfxVolumeSetting(SLIDER_INCREMENTS)
    }
}

impl Default for MusicVolumeSetting {
    fn default() -> (r: Self)
        ensures
            r.0 == SLIDER_INCREMENTS,
    {
        MusicVolumeSetting(SLIDER_INCREMENTS)
    }
}

/// Leaving the settings screen.
#[derive(Clone, Copy, Debug, PartialEq, Eq, Structural)]
pub struct SettingsOutput;

/// The settings screen with the two volumes it edits.
#[derive(Clone, Copy, Debug, PartialEq, Eq, Structural)]
pub struct Settings {
    pub state: SettingsState,
    pub visible: bool,
    pub sfx: SfxVolumeSetting,
    pub music: MusicVolumeSetting,
}

pub open spec fn volume_down(v: u8) -> u8 {
    if v == 0 {
        0
    } else {
        (v - 1) as u8
    }
}

pub open spec fn volume_up(v: u8) -> u8 {
    if v >= SLIDER_INCREMENTS {
        SLIDER_INCREMENTS
    } else {
        (v + 1) as u8
    }
}

/// One device's input read by the settings screen: back leaves, up or down
/// switch slider, left and right move the highlighted slider one step.
pub open spec fn settings_step(s: (Settings, Option<SettingsOutput>), input: LocalInput) -> (Settings, Option<SettingsOutput>) {
    let out = if input.menu_back.just_pressed_spec() { Some(SettingsOutput) } else { s.1 };
    let st = if input.menu_down.just_pressed_spec() || input.menu_up.just_pressed_spec() {
        if s.0.state == SettingsState::SFX { SettingsState::Music } else { SettingsState::SFX }
    } else {
        s.0.state
    };
    let a = Settings { state: st, ..s.0 };
    let b = if input.menu_left.just_pressed_spec() {
        if st == SettingsState::SFX {
            Settings { sfx: SfxVolumeSetting(volume_down(a.sfx.0)), ..a }
        } else {
            Settings { music: MusicVolumeSetting(volume_down(a.music.0)), ..a }
        }
    } else {
        a
    };
    let c = if input.menu_right.just_pressed_spec() {
        if st == SettingsState::SFX {
            Settings { sfx: SfxVolumeSetting(volume_up(b.sfx.0)), ..b }
        } else {
            Settings { music: MusicVolumeSetting(volume_up(b.music.0)), ..b }
        }
    } else {
        b
    };
    (c, out)
}

pub open spec fn settings_fold(s: (Settings, Option<SettingsOutput>), inputs: Inputs) -> (Settings, Option<SettingsOutput>)
    decreases inputs.len(),
{
    if inputs.len() == 0 {
        s
    } else {
        settings_step(settings_fold(s, inputs.drop_last()), inputs.last().1)
    }
}

impl Settings {
    /// Reads every device's input; the volumes change in place.
    pub fn process_input(&mut self, inputs: &Vec<(SingleSource, LocalInput)>) -> (r: Option<SettingsOutput>)
        ensures
            (*final(self), r) == settings_fold((*old(self), None), inputs@),
    {
        let ghost start = *self;
        let mut output: Option<SettingsOutput> = None;
        let mut i: usize = 0;
        while i < inputs.len()
            invariant
                i <= inputs.len(),
                (*self, output) == settings_fold((start, None), inputs@.subrange(0, i as int)),
            decreases inputs.len() - i,
        {
            assert(inputs@.subrange(0, i + 1).drop_last() =~= inputs@.subrange(0, i as int));
            let input = inputs[i].1;
            if input.menu_back.just_pressed() {
                output = Some(SettingsOutput);
            }
            if input.menu_down.just_pressed() || input.menu_up.just_pressed() {
                self.state.cycle();
            }
            if input.menu_left.just_pressed() {
                match self.state {
                    SettingsState::SFX => {
                        self.sfx = SfxVolumeSetting(self.sfx.0.saturating_sub(1));
                    },
                    SettingsState::Music => {
                        self.music = MusicVolumeSetting(self.music.0.saturating_sub(1));
                    },
                }
            }
            if input.menu_right.just_pressed() {
                match self.state {
                    SettingsState::SFX => {
                        let v = if self.sfx.0 >= SLIDER_INCREMENTS { SLIDER_INCREMENTS } else { self.sfx.0 + 1 };
                        self.sfx = SfxVolumeSetting(v);
                    },
                    SettingsState::Music => {
                        let v = if self.music.0 >= SLIDER_INCREMENTS { SLIDER_INCREMENTS } else { self.music.0 + 1 };
                        self.music = MusicVolumeSetting(v);
                    },
                }
            }
            i = i + 1;
        }
        assert(inputs@.subrange(0, inputs.len() as int) =~= inputs@);
        output
    }
}

// ---------------------------------------------------------------- how to play

/// The page of the how-to-play screen shown, if any.
#[derive(Clone, Copy, Debug, PartialEq, Eq, Structural)]
pub enum HowToPlay {
    Hidden,
    GameOverview,
    SingleStickControls,
    TwinStickControls,
    KeyboardControls,
}

/// Leaving the how-to-play screen.
#[derive(Clone, Copy, Debug, PartialEq, Eq, Structural)]
pub struct HowToPlayOutput;

pub open spec fn left_spec(h: HowToPlay) -> HowToPlay {
    match h {
        HowToPlay::SingleStickControls => HowToPlay::GameOverview,
        HowToPlay::TwinStickControls => HowToPlay::SingleStickControls,
        HowToPlay::KeyboardControls => HowToPlay::TwinStickControls,
        _ => h,
    }
}

pub open spec fn right_spec(h: HowToPlay) -> HowToPlay {
    match h {
        HowToPlay::GameOverview => HowToPlay::SingleStickControls,
        HowToPlay::SingleStickControls => HowToPlay::TwinStickControls,
        HowToPlay::TwinStickControls => HowToPlay::KeyboardControls,
        _ => h,
    }
}

/// The pages after reading `inputs` in turn, stopping at the first back
/// press; and whether one came.
pub open spec fn how_fold(h: HowToPlay, inputs: Inputs) -> (HowToPlay, bool)
    decreases inputs.len(),
{
    if inputs.len() == 0 {
        (h, false)
    } else {
        let prev = how_fold(h, inputs.drop_last());
        let input = inputs.last().1;
        if prev.1 {
            prev
        } else if input.menu_back.just_pressed_spec() {
            (prev.0, true)
        } else {
            let a = if input.menu_left.just_pressed_spec() { left_spec(prev.0) } else { prev.0 };
            (if input.menu_right.just_pressed_spec() { right_spec(a) } else { a }, false)
        }
    }
}

impl HowToPlay {
    /// The previous page.
    pub fn left(&mut self)
        ensures
            *final(self) == left_spec(*old(self)),
    {
        match *self {
            HowToPlay::SingleStickControls => *self = HowToPlay::GameOverview,
            HowToPlay::TwinStickControls => *self = HowToPlay::SingleStickControls,
            HowToPlay::KeyboardControls => *self = HowToPlay::TwinStickControls,
            _ => {},
        }
    }

    /// The next page.
    pub fn right(&mut self)
        ensures
            *final(self) == right_spec(*old(self)),
    {
        match *self {
            HowToPlay::GameOverview => *self = HowToPlay::SingleStickControls,
            HowToPlay::SingleStickControls => *self = HowToPlay::TwinStickControls,
            HowToPlay::TwinStickControls => *self = HowToPlay::KeyboardControls,
            _ => {},
        }
    }

    /// Turns pages by every device's input until one presses back.
    pub fn process_input(&mut self, inputs: &Vec<(SingleSource, LocalInput)>) -> (r: Option<HowToPlayOutput>)
        ensures
            *final(self) == how_fold(*old(self), inputs@).0,
            r.is_some() == how_fold(*old(self), inputs@).1,
    {
        let ghost start = *self;
        let mut i: usize = 0;
        while i < inputs.len()
            invariant
                i <= inputs.len(),
                how_fold(start, inputs@.subrange(0, i as int)) == (*self, false),
                start == *old(self),
            decreases inputs.len() - i,
        {
            let ghost pre = inputs@.subrange(0, i + 1);
            assert(pre.drop_last() =~= inputs@.subrange(0, i as int));
            let input = inputs[i].1;
            if input.menu_back.just_pressed() {
                proof {
                    assert(pre.last() == inputs@[i as int]);
                    assert(how_fold(start, pre) == (*self, true));
                    lemma_how_fold_stops(start, inputs@, i as int + 1);
                }
                return Some(HowToPlayOutput);
            }
            if input.menu_left.just_pressed() {
                self.left();
            }
            if input.menu_right.just_pressed() {
                self.right();
            }
            i = i + 1;
        }
        assert(inputs@.subrange(0, inputs.len() as int) =~= inputs@);
        None
    }
}

proof fn lemma_how_fold_stops(h: HowToPlay, inputs: Inputs, n: int)
    requires
        0 <= n <= inputs.len(),
        how_fold(h, inputs.subrange(0, n)).1,
    ensures
        how_fold(h, inputs) == how_fold(h, inputs.subrange(0, n)),
    decreases inputs.len() - n,
{
    if n < inputs.len() {
        assert(inputs.subrange(0, n + 1).drop_last() =~= inputs.subrange(0, n));
        lemma_how_fold_stops(h, inputs, n + 1);
    } else {
        assert(inputs.subrange(0, n) =~= inputs);
    }
}

// ---------------------------------------------------------------- LAN select

/// The service name of one-player-per-machine network matches.
pub const MATCHMAKER_SERVICE_NAME_ONEPLAYER: &'static str = "sb1player";
/// The service name of two-players-per-machine network matches.
pub const MATCHMAKER_SERVICE_NAME_TWOPLAYER: &'static str = "sb2player";

/// Who plays on this machine in a network match.
#[derive(Clone, Copy, Debug, PartialEq, Eq, Structural)]
pub enum ServiceType {
    OnePlayer(u32),
    TwoPlayer(SingleSource, SingleSource),
}

impl ServiceType {
    /// The service name that matches of this kind are hosted under.
    pub fn service_name(&self) -> (r: &'static str)
        ensures
            *self is OnePlayer ==> r@ == MATCHMAKER_SERVICE_NAME_ONEPLAYER@,
            *self is TwoPlayer ==> r@ == MATCHMAKER_SERVICE_NAME_TWOPLAYER@,
    {
        match self {
            ServiceType::OnePlayer(_) => MATCHMAKER_SERVICE_NAME_ONEPLAYER,
            ServiceType::TwoPlayer(_, _) => MATCHMAKER_SERVICE_NAME_TWOPLAYER,
        }
    }
}

impl Default for ServiceType {
    fn default() -> (r: Self)
        ensures
            r == ServiceType::OnePlayer(0),
    {
        ServiceType::OnePlayer(0)
    }
}

#[derive(Clone, Copy, Debug, PartialEq, Eq, Structural)]
pub enum LanSelection {
    /// The one-player entry is highlighted.
    OnePlayer,
    /// A keyboard picked one player: waiting for a gamepad to bind.
    OnePlayerBind,
    /// The two-player entry is highlighted.
    TwoPlayer,
    /// Waiting for the second player, after `player1` picked two players.
    TwoPlayerBind { player1: SingleSource },
}

#[derive(Clone, Copy, Debug, PartialEq, Eq, Structural)]
pub enum LanSelectOutput {
    Exit,
    ServiceType(ServiceType),
}

/// The screen that picks the kind of network match.
#[derive(Clone, Copy, Debug, PartialEq, Eq, Structural)]
pub struct LanSelect {
    pub visible: bool,
    pub selection: LanSelection,
}

/// One device's input read by the LAN select screen.
pub open spec fn lan_select_step(
    s: (LanSelection, Option<LanSelectOutput>),
    source: SingleSource,
    input: LocalInput,
) -> (LanSelection, Option<LanSelectOutput>) {
    let s1 = if input.menu_select.just_pressed_spec() {
        match s.0 {
            LanSelection::OnePlayer => match source {
                SingleSource::Gamepad(id) => (s.0, Some(LanSelectOutput::ServiceType(ServiceType::OnePlayer(id)))),
                SingleSource::KeyboardMouse => (LanSelection::OnePlayerBind, s.1),
                SingleSource::CPU(_) => s,
            },
            LanSelection::OnePlayerBind => match source {
                SingleSource::Gamepad(id) => (s.0, Some(LanSelectOutput::ServiceType(ServiceType::OnePlayer(id)))),
                SingleSource::KeyboardMouse => (LanSelection::OnePlayer, s.1),
                SingleSource::CPU(_) => s,
            },
            LanSelection::TwoPlayer => (LanSelection::TwoPlayerBind { player1: source }, s.1),
            LanSelection::TwoPlayerBind { player1 } => if source == player1 {
                (LanSelection::TwoPlayer, s.1)
            } else {
                (s.0, Some(LanSelectOutput::ServiceType(ServiceType::TwoPlayer(player1, source))))
            },
        }
    } else {
        s
    };
    let s2 = if input.menu_back.just_pressed_spec() {
        match s1.0 {
            LanSelection::OnePlayer | LanSelection::TwoPlayer => (s1.0, Some(LanSelectOutput::Exit)),
            LanSelection::OnePlayerBind => (LanSelection::OnePlayer, s1.1),
            LanSelection::TwoPlayerBind { .. } => (LanSelection::TwoPlayer, s1.1),
        }
    } else {
        s1
    };
    if input.menu_left.just_pressed_spec() || input.menu_right.just_pressed_spec() {
        match s2.0 {
            LanSelection::OnePlayer => (LanSelection::TwoPlayer, s2.1),
            LanSelection::TwoPlayer => (LanSelection::OnePlayer, s2.1),
            _ => s2,
        }
    } else {
        s2
    }
}

pub open spec fn lan_select_fold(s: (LanSelection, Option<LanSelectOutput>), inputs: Inputs) -> (LanSelection, Option<LanSelectOutput>)
    decreases inputs.len(),
{
    if inputs.len() == 0 {
        s
    } else {
        lan_select_step(lan_select_fold(s, inputs.drop_last()), inputs.last().0, inputs.last().1)
    }
}

impl LanSelect {
    /// Reads every device's input by its source; the last output wins.
    pub fn process_input(&mut self, inputs: &Vec<(SingleSource, LocalInput)>) -> (r: Option<LanSelectOutput>)
        ensures
            final(self).visible == old(self).visible,
            (final(self).selection, r) == lan_select_fold((old(self).selection, None), inputs@),
    {
        let ghost start = self.selection;
        let mut output: Option<LanSelectOutput> = None;
        let mut i: usize = 0;
        while i < inputs.len()
            invariant
                i <= inputs.len(),
                self.visible == old(self).visible,
                (self.selection, output) == lan_select_fold((start, None), inputs@.subrange(0, i as int)),
            decreases inputs.len() - i,
        {
            assert(inputs@.subrange(0, i + 1).drop_last() =~= inputs@.subrange(0, i as int));
            let (source, input) = inputs[i];
            if input.menu_select.just_pressed() {
                match self.selection {
                    LanSelection::OnePlayer => match source {
                        SingleSource::Gamepad(id) => {
                            output = Some(LanSelectOutput::ServiceType(ServiceType::OnePlayer(id)));
                        },
                        SingleSource::KeyboardMouse => self.selection = LanSelection::OnePlayerBind,
                        SingleSource::CPU(_) => {},
                    },
                    LanSelection::OnePlayerBind => match source {
                        SingleSource::Gamepad(id) => {
                            output = Some(LanSelectOutput::ServiceType(ServiceType::OnePlayer(id)));
                        },
                        SingleSource::KeyboardMouse => self.selection = LanSelection::OnePlayer,
                        SingleSource::CPU(_) => {},
                    },
                    LanSelection::TwoPlayer => {
                        self.selection = LanSelection::TwoPlayerBind { player1: source };
                    },
                    LanSelection::TwoPlayerBind { player1 } => {
                        if source == player1 {
                            self.selection = LanSelection::TwoPlayer;
                        } else {
                            output = Some(LanSelectOutput::ServiceType(ServiceType::TwoPlayer(player1, source)));
                        }
                    },
                }
            }
            if input.menu_back.just_pressed() {
                match self.selection {
                    LanSelection::OnePlayer | LanSelection::TwoPlayer => {
                        output = Some(LanSelectOutput::Exit);
                    },
                    LanSelection::OnePlayerBind => self.selection = LanSelection::OnePlayer,
                    LanSelection::TwoPlayerBind { .. } => self.selection = LanSelection::TwoPlayer,
                }
            }
            if input.menu_left.just_pressed() || input.menu_right.just_pressed() {
                match self.selection {
                    LanSelection::OnePlayer => self.selection = LanSelection::TwoPlayer,
                    LanSelection::TwoPlayer => self.selection = LanSelection::OnePlayer,
                    _ => {},
                }
            }
            i = i + 1;
        }
        assert(inputs@.subrange(0, inputs.len() as int) =~= inputs@);
        output
    }
}

// ---------------------------------------------------------------- LAN lobby

/// The highlighted entry of the LAN lobby.
#[derive(Clone, Copy, Debug, PartialEq, Eq, Structural)]
pub enum LanUIState {
    Host,
    Disconnected,
    Server(usize),
}

impl LanUIState {
    pub fn cycle_up(&mut self)
        ensures
            *final(self) == match *old(self) {
                LanUIState::Server(i) => if i == 0 { LanUIState::Host } else { LanUIState::Server((i - 1) as usize) },
                s => s,
            },
    {
        match *self {
            LanUIState::Server(i) => {
                if i == 0 {
                    *self = LanUIState::Host;
                } else {
                    *self = LanUIState::Server(i - 1);
                }
            },
            _ => {},
        }
    }

    /// Moves down the list; the lobby caps the server index at the number
    /// of servers it shows.
    pub fn cycle_down(&mut self)
        ensures
            *final(self) == match *old(self) {
                LanUIState::Host => LanUIState::Server(0),
                LanUIState::Server(i) => LanUIState::Server(if i == usize::MAX { i } else { (i + 1) as usize }),
                s => s,
            },
    {
        match *self {
            LanUIState::Host => *self = LanUIState::Server(0),
            LanUIState::Server(i) => *self = LanUIState::Server(i.saturating_add(1)),
            _ => {},
        }
    }
}

/// What the LAN lobby asks of the matchmaker.
#[derive(Clone, Copy, Debug, PartialEq, Eq, Structural)]
pub enum LanUIOutput {
    /// Host, or cancel hosting.
    HostCancel,
    /// Join the discovered server at this index.
    Server(usize),
    Exit,
}

/// The LAN lobby.
#[derive(Clone, Copy, Debug, PartialEq, Eq, Structural)]
pub struct LanUI {
    pub visible: bool,
    pub service: ServiceType,
    pub state: LanUIState,
    pub output: Option<LanUIState>,
}

/// Whether a character may appear in a typed host name: ASCII letters (but
/// lowercase x, y and z), digits, `?` and `_`.
pub fn allowed_character(c: &char) -> (r: bool)
    ensures
        r == (('a' <= *c <= 'w') || ('A' <= *c <= 'Z') || ('0' <= *c <= '9') || *c == '?' || *c == '_'),
{
    let c = *c;
    ('a' <= c && c <= 'w') || ('A' <= c && c <= 'Z') || ('0' <= c && c <= '9') || c == '?' || c == '_'
}

/// Leaving the credits screen.
#[derive(Clone, Copy, Debug, PartialEq, Eq, Structural)]
pub struct CreditsOutput;

/// The credits screen; `scroll` counts scroll steps, one per cycle at most.
#[derive(Clone, Copy, Debug, PartialEq, Eq, Structural)]
pub struct CreditsUi {
    pub visible: bool,
    pub scroll: i64,
}

/// Up presses held minus down presses held over `inputs`.
pub open spec fn scroll_push(inputs: Inputs) -> int
    decreases inputs.len(),
{
    if inputs.len() == 0 {
        0
    } else {
        scroll_push(inputs.drop_last()) + (if inputs.last().1.menu_up.current { 1int } else { 0int }) - (
        if inputs.last().1.menu_down.current {
            1int
        } else {
            0int
        })
    }
}

pub open spec fn credits_back(inputs: Inputs) -> bool {
    exists|k: int| 0 <= k < inputs.len() && inputs[k].1.menu_back.just_pressed_spec()
}

impl CreditsUi {
    /// Scrolls one step toward whichever of up and down more devices hold
    /// (saturating), and reports back presses.
    pub fn process_input(&mut self, inputs: &Vec<(SingleSource, LocalInput)>) -> (r: Option<CreditsOutput>)
        ensures
            r.is_some() == credits_back(inputs@),
            final(self).visible == old(self).visible,
            final(self).scroll == if scroll_push(inputs@) > 0 && old(self).scroll < i64::MAX {
                old(self).scroll + 1
            } else if scroll_push(inputs@) < 0 && old(self).scroll > i64::MIN {
                old(self).scroll - 1
            } else {
                old(self).scroll as int
            },
    {
        let mut output: Option<CreditsOutput> = None;
        let mut push: i128 = 0;
        let mut i: usize = 0;
        while i < inputs.len()
            invariant
                i <= inputs.len(),
                push == scroll_push(inputs@.subrange(0, i as int)),
                -(i as int) <= push <= i,
                output.is_some() == exists|k: int| 0 <= k < i && inputs@[k].1.menu_back.just_pressed_spec(),
            decreases inputs.len() - i,
        {
            assert(inputs@.subrange(0, i + 1).drop_last() =~= inputs@.subrange(0, i as int));
            let input = inputs[i].1;
            if input.menu_back.just_pressed() {
                output = Some(CreditsOutput);
            }
            if input.menu_up.pressed() {
                push = push + 1;
            }
            if input.menu_down.pressed() {
                push = push - 1;
            }
            i = i + 1;
        }
        assert(inputs@.subrange(0, inputs.len() as int) =~= inputs@);
        if push > 0 && self.scroll < i64::MAX {
            self.scroll = self.scroll + 1;
        } else if push < 0 && self.scroll > i64::MIN {
            self.scroll = self.scroll - 1;
        }
        output
    }
}

/// A screen that can be shown and hidden.
pub trait ShowHide: Sized {
    spec fn shown(&self) -> bool;

    fn show(&mut self)
        ensures
            final(self).shown(),
    ;

    fn close(&mut self)
        ensures
            !final(self).shown(),
    ;
}

impl ShowHide for HowToPlay {
    open spec fn shown(&self) -> bool {
        *self != HowToPlay::Hidden
    }

    /// Opens on the game overview.
    fn show(&mut self) {
        *self = HowToPlay::GameOverview;
    }

    fn close(&mut self) {
        *self = HowToPlay::Hidden;
    }
}

impl ShowHide for Splash {
    open spec fn shown(&self) -> bool {
        self.visible
    }

    fn show(&mut self) {
        self.visible = true;
    }

    fn close(&mut self) {
        self.visible = false;
    }
}

impl ShowHide for Settings {
    open spec fn shown(&self) -> bool {
        self.visible
    }

    fn show(&mut self) {
        self.visible = true;
    }

    fn close(&mut self) {
        self.visible = false;
    }
}

impl ShowHide for LanSelect {
    open spec fn shown(&self) -> bool {
        self.visible
    }

    fn show(&mut self) {
        self.visible = true;
    }

    fn close(&mut self) {
        self.visible = false;
    }
}

} // verus!
