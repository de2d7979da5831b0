//! The screens of the game and the keys that move between them.
//!
//! Each menu screen reads the keys pressed during one frame and decides
//! the next screen and the change to the player's choices. The caller
//! performs what is decided (switching screens, deleting a save file).

use vstd::prelude::*;
use crate::save::SaveSlot;
use crate::settings::{Difficulty, GameMode, GameSettings, Slot, Theme};

verus! {

/// The screen being shown.
#[derive(Clone, Copy, Debug, PartialEq, Eq, Hash, Structural)]
pub enum GameState {
    MainMenu,
    SaveSelect,
    ModeSelect,
    DifficultySelect,
    ThemeSelect,
    Playing,
    GameOver,
    Leaderboard,
}

impl Default for GameState {
    fn default() -> (r: GameState)
        ensures
            r == GameState::MainMenu,
    {
        GameState::MainMenu
    }
}

/// The keys that the menus react to, as seen during one frame. All but
/// `ctrl` say whether the key went down in this frame; `ctrl` says
/// whether either control key is held.
#[derive(Clone, Copy, Debug, PartialEq, Eq, Structural)]
pub struct Keys {
    pub space: bool,
    pub escape: bool,
    pub f1: bool,
    pub digit1: bool,
    pub digit2: bool,
    pub digit3: bool,
    pub ctrl: bool,
}

impl Keys {
    /// The lowest of the digit keys 1, 2 and 3 pressed in this frame.
    pub open spec fn spec_first_digit(self) -> Option<u8> {
        if self.digit1 {
            Some(1u8)
        } else if self.digit2 {
            Some(2u8)
        } else if self.digit3 {
            Some(3u8)
        } else {
            None
        }
    }

    pub fn first_digit(&self) -> (r: Option<u8>)
        ensures
            r == self.spec_first_digit(),
    {
        if self.digit1 {
            Some(1)
        } else if self.digit2 {
            Some(2)
        } else if self.digit3 {
            Some(3)
        } else {
            None
        }
    }

    /// The slots whose digit key was pressed in this frame, in order.
    pub open spec fn spec_pressed_slots(self) -> Seq<Slot> {
        let a = if self.digit1 { seq![Slot::First] } else { Seq::empty() };
        let b = if self.digit2 { seq![Slot::Second] } else { Seq::empty() };
        let c = if self.digit3 { seq![Slot::Third] } else { Seq::empty() };
        a + b + c
    }

    pub fn pressed_slots(&self) -> (r: Vec<Slot>)
        ensures
            r@ == self.spec_pressed_slots(),
    {
        let mut r: Vec<Slot> = Vec::new();
        if self.digit1 {
            r.push(Slot::First);
        }
        if self.digit2 {
            r.push(Slot::Second);
        }
        if self.digit3 {
            r.push(Slot::Third);
        }
        assert(r@ =~= self.spec_pressed_slots());
        r
    }
}

/// The slot that a digit key names.
pub open spec fn spec_slot_for_digit(d: u8) -> Slot {
    if d == 1 {
        Slot::First
    } else if d == 2 {
        Slot::Second
    } else {
        Slot::Third
    }
}

/// The mode that a digit key picks on the mode screen.
pub open spec fn spec_mode_for_digit(d: u8) -> GameMode {
    if d == 1 {
        GameMode::Endless
    } else if d == 2 {
        GameMode::TimeAttack
    } else {
        GameMode::Checkpoints
    }
}

/// The difficulty that a digit key picks on the difficulty screen.
pub open spec fn spec_difficulty_for_digit(d: u8) -> Difficulty {
    if d == 1 {
        Difficulty::Easy
    } else if d == 2 {
        Difficulty::Normal
    } else {
        Difficulty::Hard
    }
}

/// The theme that a digit key picks on the theme screen.
pub open spec fn spec_theme_for_digit(d: u8) -> Theme {
    if d == 1 {
        Theme::Classic
    } else if d == 2 {
        Theme::HighContrast
    } else {
        Theme::Minimal
    }
}

/// Main menu: F1 opens the leaderboard, space starts choosing a save
/// slot; F1 wins when both are pressed.
pub open spec fn spec_main_menu(k: Keys) -> Option<GameState> {
    if k.f1 {
        Some(GameState::Leaderboard)
    } else if k.space {
        Some(GameState::SaveSelect)
    } else {
        None
    }
}

pub fn main_menu_next(keys: &Keys) -> (r: Option<GameState>)
    ensures
        r == spec_main_menu(*keys),
{
    if keys.f1 {
        Some(GameState::Leaderboard)
    } else if keys.space {
        Some(GameState::SaveSelect)
    } else {
        None
    }
}

/// Leaderboard: escape returns to the main menu.
pub fn leaderboard_next(keys: &Keys) -> (r: Option<GameState>)
    ensures
        r == (if keys.escape { Some(GameState::MainMenu) } else { None }),
{
    if keys.escape {
        Some(GameState::MainMenu)
    } else {
        None
    }
}

/// Game over: space returns to the main menu.
pub fn game_over_next(keys: &Keys) -> (r: Option<GameState>)
    ensures
        r == (if keys.space { Some(GameState::MainMenu) } else { None }),
{
    if keys.space {
        Some(GameState::MainMenu)
    } else {
        None
    }
}

/// Mode screen: escape goes back to the slots; a digit picks a mode and
/// moves on to the difficulty.
pub open spec fn spec_mode_select(s: GameSettings, k: Keys) -> (GameSettings, Option<GameState>) {
    if k.escape {
        (s, Some(GameState::SaveSelect))
    } else {
        match k.spec_first_digit() {
            Some(d) => (
                GameSettings { selected_mode: spec_mode_for_digit(d), ..s },
                Some(GameState::DifficultySelect),
            ),
            None => (s, None),
        }
    }
}

pub fn mode_select_step(settings: &mut GameSettings, keys: &Keys) -> (r: Option<GameState>)
    ensures
        (*final(settings), r) == spec_mode_select(*old(settings), *keys),
{
    if keys.escape {
        return Some(GameState::SaveSelect);
    }
    match keys.first_digit() {
        Some(d) => {
            settings.selected_mode = if d == 1 {
                GameMode::Endless
            } else if d == 2 {
                GameMode::TimeAttack
            } else {
                GameMode::Checkpoints
            };
            Some(GameState::DifficultySelect)
        },
        None => None,
    }
}

/// Difficulty screen: escape goes back to the modes; a digit picks a
/// difficulty and moves on to the theme.
pub open spec fn spec_difficulty_select(s: GameSettings, k: Keys) -> (GameSettings, Option<GameState>) {
    if k.escape {
        (s, Some(GameState::ModeSelect))
    } else {
        match k.spec_first_digit() {
            Some(d) => (
                GameSettings { selected_difficulty: spec_difficulty_for_digit(d), ..s },
                Some(GameState::ThemeSelect),
            ),
            None => (s, None),
        }
    }
}

pub fn difficulty_select_step(settings: &mut GameSettings, keys: &Keys) -> (r: Option<GameState>)
    ensures
        (*final(settings), r) == spec_difficulty_select(*old(settings), *keys),
{
    if keys.escape {
        return Some(GameState::ModeSelect);
    }
    match keys.first_digit() {
        Some(d) => {
            settings.selected_difficulty = if d == 1 {
                Difficulty::Easy
            } else if d == 2 {
                Difficulty::Normal
            } else {
                Difficulty::Hard
            };
            Some(GameState::ThemeSelect)
        },
        None => None,
    }
}

/// Theme screen: escape goes back to the difficulties; a digit picks a
/// theme and starts the run.
pub open spec fn spec_theme_select(s: GameSettings, k: Keys) -> (GameSettings, Option<GameState>) {
    if k.escape {
        (s, Some(GameState::DifficultySelect))
    } else {
        match k.spec_first_digit() {
            Some(d) => (
                GameSettings { selected_theme: spec_theme_for_digit(d), ..s },
                Some(GameState::Playing),
            ),
            None => (s, None),
        }
    }
}

pub fn theme_select_step(settings: &mut GameSettings, keys: &Keys) -> (r: Option<GameState>)
    ensures
        (*final(settings), r) == spec_theme_select(*old(settings), *keys),
{
    if keys.escape {
        return Some(GameState::DifficultySelect);
    }
    match keys.first_digit() {
        Some(d) => {
            settings.selected_theme = if d == 1 {
                Theme::Classic
            } else if d == 2 {
                Theme::HighContrast
            } else {
                Theme::Minimal
            };
            Some(GameState::Playing)
        },
        None => None,
    }
}

/// What the save-slot screen decided in one frame.
#[derive(Clone, Debug)]
pub enum SaveSelectAction {
    /// Nothing to do.
    Stay,
    /// Return to the main menu.
    Back,
    /// Delete the saves of these slots and stay on the screen.
    Delete(Vec<Slot>),
    /// Play from this slot: load its save, if any, and go on to the modes.
    Choose(Slot),
}

impl SaveSelectAction {
    /// The screen to switch to after the action.
    pub open spec fn spec_next_state(&self) -> Option<GameState> {
        match self {
            SaveSelectAction::Back => Some(GameState::MainMenu),
            SaveSelectAction::Choose(_) => Some(GameState::ModeSelect),
            _ => None,
        }
    }

    pub fn next_state(&self) -> (r: Option<GameState>)
        ensures
            r == self.spec_next_state(),
    {
        match self {
            SaveSelectAction::Back => Some(GameState::MainMenu),
            SaveSelectAction::Choose(_) => Some(GameState::ModeSelect),
            _ => None,
        }
    }
}

/// Save-slot screen. Escape goes back to the main menu. With a control
/// key held, every slot whose digit was pressed is deleted and no slot
/// stays chosen. Otherwise the lowest digit pressed chooses its slot.
pub fn save_select_step(settings: &mut GameSettings, keys: &Keys) -> (r: SaveSelectAction)
    ensures
        keys.escape ==> r is Back && *final(settings) == *old(settings),
        !keys.escape && keys.ctrl && keys.spec_pressed_slots().len() > 0 ==> {
            &&& r matches SaveSelectAction::Delete(v) && v@ == keys.spec_pressed_slots()
            &&& *final(settings) == (GameSettings { current_slot: None, ..*old(settings) })
        },
        !keys.escape && !keys.ctrl ==> (keys.spec_first_digit() matches Some(d) ==> {
            &&& r == SaveSelectAction::Choose(spec_slot_for_digit(d))
            &&& *final(settings) == (GameSettings {
                current_slot: Some(spec_slot_for_digit(d)),
                ..*old(settings)
            })
        }),
        !keys.escape && keys.spec_first_digit() is None ==> r is Stay && *final(settings)
            == *old(settings),
{
    if keys.escape {
        return SaveSelectAction::Back;
    }
    if keys.ctrl {
        let slots = keys.pressed_slots();
        if slots.len() == 0 {
            return SaveSelectAction::Stay;
        }
        settings.current_slot = None;
        return SaveSelectAction::Delete(slots);
    }
    match keys.first_digit() {
        Some(d) => {
            let slot = if d == 1 {
                Slot::First
            } else if d == 2 {
                Slot::Second
            } else {
                Slot::Third
            };
            settings.current_slot = Some(slot);
            SaveSelectAction::Choose(slot)
        },
        None => SaveSelectAction::Stay,
    }
}

} // verus!
