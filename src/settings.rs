//! The player's choices: game mode, difficulty, theme and save slot.

use vstd::prelude::*;
use crate::save::SaveSlot;

verus! {

/// Compares two strings character by character.
fn same_text(a: &str, b: &str) -> (r: bool)
    ensures
        r == (a@ == b@),
{
    let n = a.unicode_len();
    if n != b.unicode_len() {
        return false;
    }
    let mut i: usize = 0;
    while i < n
        invariant
            n == a@.len(),
            n == b@.len(),
            i <= n,
            a@.subrange(0, i as int) == b@.subrange(0, i as int),
        decreases n - i,
    {
        if a.get_char(i) != b.get_char(i) {
            return false;
        }
        assert(a@.subrange(0, i + 1) =~= a@.subrange(0, i as int).push(a@[i as int]));
        assert(b@.subrange(0, i + 1) =~= b@.subrange(0, i as int).push(b@[i as int]));
        i = i + 1;
    }
    assert(a@ =~= a@.subrange(0, n as int));
    assert(b@ =~= b@.subrange(0, n as int));
    true
}

/// How a run is played.
#[derive(Clone, Copy, Debug, PartialEq, Eq, Structural)]
pub enum GameMode {
    Endless,
    TimeAttack,
    Checkpoints,
}

impl GameMode {
    /// The name under which a mode is stored.
    pub open spec fn spec_name(self) -> Seq<char> {
        match self {
            GameMode::Endless => "Endless"@,
            GameMode::TimeAttack => "TimeAttack"@,
            GameMode::Checkpoints => "Checkpoints"@,
        }
    }

    /// The mode stored under a name, if any.
    pub open spec fn spec_from_name(s: Seq<char>) -> Option<GameMode> {
        if s == "Endless"@ {
            Some(GameMode::Endless)
        } else if s == "TimeAttack"@ {
            Some(GameMode::TimeAttack)
        } else if s == "Checkpoints"@ {
            Some(GameMode::Checkpoints)
        } else {
            None
        }
    }

    pub fn name(&self) -> (r: &'static str)
        ensures
            r@ == self.spec_name(),
            GameMode::spec_from_name(r@) == Some(*self),
    {
        proof {
            reveal_strlit("Endless");
            reveal_strlit("TimeAttack");
            reveal_strlit("Checkpoints");
            assert("Endless"@ != "TimeAttack"@ && "Endless"@ != "Checkpoints"@ && "TimeAttack"@ != "Checkpoints"@) by {
                assert("Endless"@[0] != "TimeAttack"@[0]);
                assert("Endless"@[0] != "Checkpoints"@[0]);
                assert("TimeAttack"@[0] != "Checkpoints"@[0]);
            }
        }
        match self {
            GameMode::Endless => "Endless",
            GameMode::TimeAttack => "TimeAttack",
            GameMode::Checkpoints => "Checkpoints",
        }
    }

    pub fn from_name(s: &str) -> (r: Option<GameMode>)
        ensures
            r == GameMode::spec_from_name(s@),
    {
        if same_text(s, "Endless") {
            Some(GameMode::Endless)
        } else if same_text(s, "TimeAttack") {
            Some(GameMode::TimeAttack)
        } else if same_text(s, "Checkpoints") {
            Some(GameMode::Checkpoints)
        } else {
            None
        }
    }
}


/// How forgiving the physics and the obstacles are.
#[derive(Clone, Copy, Debug, PartialEq, Eq, Structural)]
pub enum Difficulty {
    Easy,
    Normal,
    Hard,
}

impl Difficulty {
    /// The name under which a difficulty is stored.
    pub open spec fn spec_name(self) -> Seq<char> {
        match self {
            Difficulty::Easy => "Easy"@,
            Difficulty::Normal => "Normal"@,
            Difficulty::Hard => "Hard"@,
        }
    }

    /// The difficulty stored under a name, if any.
    pub open spec fn spec_from_name(s: Seq<char>) -> Option<Difficulty> {
        if s == "Easy"@ {
            Some(Difficulty::Easy)
        } else if s == "Normal"@ {
            Some(Difficulty::Normal)
        } else if s == "Hard"@ {
            Some(Difficulty::Hard)
        } else {
            None
        }
    }

    pub fn name(&self) -> (r: &'static str)
        ensures
            r@ == self.spec_name(),
            Difficulty::spec_from_name(r@) == Some(*self),
    {
        proof {
            reveal_strlit("Easy");
            reveal_strlit("Normal");
            reveal_strlit("Hard");
            assert("Easy"@ != "Normal"@ && "Easy"@ != "Hard"@ && "Normal"@ != "Hard"@) by {
                assert("Easy"@[0] != "Normal"@[0]);
                assert("Easy"@[0] != "Hard"@[0]);
                assert("Normal"@[0] != "Hard"@[0]);
            }
        }
        match self {
            Difficulty::Easy => "Easy",
            Difficulty::Normal => "Normal",
            Difficulty::Hard => "Hard",
        }
    }

    pub fn from_name(s: &str) -> (r: Option<Difficulty>)
        ensures
            r == Difficulty::spec_from_name(s@),
    {
        if same_text(s, "Easy") {
            Some(Difficulty::Easy)
        } else if same_text(s, "Normal") {
            Some(Difficulty::Normal)
        } else if same_text(s, "Hard") {
            Some(Difficulty::Hard)
        } else {
            None
        }
    }
}

/// The look of the playing field.
#[derive(Clone, Copy, Debug, PartialEq, Eq, Structural)]
pub enum Theme {
    Classic,
    HighContrast,
    Minimal,
}

impl Theme {
    /// The name under which a theme is stored.
    pub open spec fn spec_name(self) -> Seq<char> {
        match self {
            Theme::Classic => "Classic"@,
            Theme::HighContrast => "HighContrast"@,
            Theme::Minimal => "Minimal"@,
        }
    }

    /// The theme stored under a name, if any.
    pub open spec fn spec_from_name(s: Seq<char>) -> Option<Theme> {
        if s == "Classic"@ {
            Some(Theme::Classic)
        } else if s == "HighContrast"@ {
            Some(Theme::HighContrast)
        } else if s == "Minimal"@ {
            Some(Theme::Minimal)
        } else {
            None
        }
    }

    pub fn name(&self) -> (r: &'static str)
        ensures
            r@ == self.spec_name(),
            Theme::spec_from_name(r@) == Some(*self),
    {
        proof {
            reveal_strlit("Classic");
            reveal_strlit("HighContrast");
            reveal_strlit("Minimal");
            assert("Classic"@ != "HighContrast"@ && "Classic"@ != "Minimal"@ && "HighContrast"@ != "Minimal"@) by {
                assert("Classic"@[0] != "HighContrast"@[0]);
                assert("Classic"@[0] != "Minimal"@[0]);
                assert("HighContrast"@[0] != "Minimal"@[0]);
            }
        }
        match self {
            Theme::Classic => "Classic",
            Theme::HighContrast => "HighContrast",
            Theme::Minimal => "Minimal",
        }
    }

    pub fn from_name(s: &str) -> (r: Option<Theme>)
        ensures
            r == Theme::spec_from_name(s@),
    {
        if same_text(s, "Classic") {
            Some(Theme::Classic)
        } else if same_text(s, "HighContrast") {
            Some(Theme::HighContrast)
        } else if same_text(s, "Minimal") {
            Some(Theme::Minimal)
        } else {
            None
        }
    }
}

/// One of the three save slots.
#[derive(Clone, Copy, Debug, PartialEq, Eq, Structural)]
pub enum Slot {
    First,
    Second,
    Third,
}

impl Slot {
    /// The number shown to the player and stored in the save record.
    pub open spec fn spec_number(self) -> u8 {
        match self {
            Slot::First => 1,
            Slot::Second => 2,
            Slot::Third => 3,
        }
    }

    pub fn number(&self) -> (r: u8)
        ensures
            r == self.spec_number(),
            1 <= r <= 3,
    {
        match self {
            Slot::First => 1,
            Slot::Second => 2,
            Slot::Third => 3,
        }
    }

    /// The name given to the player of a slot that holds no save yet.
    pub open spec fn spec_default_player_name(self) -> Seq<char> {
        match self {
            Slot::First => "Player 1"@,
            Slot::Second => "Player 2"@,
            Slot::Third => "Player 3"@,
        }
    }

    pub fn default_player_name(&self) -> (r: String)
        ensures
            r@ == self.spec_default_player_name(),
    {
        match self {
            Slot::First => String::from_str("Player 1"),
            Slot::Second => String::from_str("Player 2"),
            Slot::Third => String::from_str("Player 3"),
        }
    }
}

/// The choices made in the menus, kept while the program runs.
#[derive(Clone, Copy, Debug, PartialEq, Eq, Structural)]
pub struct GameSettings {
    pub current_slot: Option<Slot>,
    pub selected_mode: GameMode,
    pub selected_difficulty: Difficulty,
    pub selected_theme: Theme,
}

impl GameSettings {
    /// No slot chosen; endless mode, normal difficulty, classic theme.
    pub open spec fn spec_default() -> GameSettings {
        GameSettings {
            current_slot: None,
            selected_mode: GameMode::Endless,
            selected_difficulty: Difficulty::Normal,
            selected_theme: Theme::Classic,
        }
    }
}

impl GameSettings {
    /// Takes over the mode, difficulty and theme of a stored save.
    pub fn restore_choices(&mut self, save: &SaveSlot)
        ensures
            *final(self) == (GameSettings {
                selected_mode: save.mode,
                selected_difficulty: save.difficulty,
                selected_theme: save.theme,
                ..*old(self)
            }),
    {
        self.selected_mode = save.mode;
        self.selected_difficulty = save.difficulty;
        self.selected_theme = save.theme;
    }
}

impl Default for GameSettings {
    fn default() -> (r: GameSettings)
        ensures
            r == GameSettings::spec_default(),
    {
        GameSettings {
            current_slot: None,
            selected_mode: GameMode::Endless,
            selected_difficulty: Difficulty::Normal,
            selected_theme: Theme::Classic,
        }
    }
}

} // verus!
