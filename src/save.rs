//! The record kept in each save slot, and how a finished run updates it.

use vstd::prelude::*;
use crate::settings::{Difficulty, GameMode, GameSettings, Slot, Theme};

verus! {

/// What is kept of a player across runs.
#[derive(Clone, Debug)]
pub struct PlayerProfile {
    pub name: String,
    pub high_score: u32,
    pub total_games: u32,
}

impl Default for PlayerProfile {
    fn default() -> (r: PlayerProfile)
        ensures
            r.name@ == "Player"@,
            r.high_score == 0,
            r.total_games == 0,
    {
        PlayerProfile { name: String::from_str("Player"), high_score: 0, total_games: 0 }
    }
}

/// The larger of two scores.
pub open spec fn max_score(a: u32, b: u32) -> u32 {
    if a < b {
        b
    } else {
        a
    }
}

impl PlayerProfile {
    /// The profile of a player who has not played from `slot` yet.
    pub fn new_for_slot(slot: Slot) -> (r: PlayerProfile)
        ensures
            r.name@ == slot.spec_default_player_name(),
            r.high_score == 0,
            r.total_games == 0,
    {
        PlayerProfile { name: slot.default_player_name(), high_score: 0, total_games: 0 }
    }

    /// Counts one more game, ended with `score`.
    pub fn record_game(&mut self, score: u32)
        requires
            old(self).total_games < u32::MAX,
        ensures
            final(self).name == old(self).name,
            final(self).total_games == old(self).total_games + 1,
            final(self).high_score == max_score(old(self).high_score, score),
    {
        self.total_games = self.total_games + 1;
        if score > self.high_score {
            self.high_score = score;
        }
    }
}

/// The record stored in one save slot: the player, the choices of the
/// last run and its score.
#[derive(Clone, Debug)]
pub struct SaveSlot {
    pub slot_number: u8,
    pub profile: PlayerProfile,
    pub mode: GameMode,
    pub difficulty: Difficulty,
    pub theme: Theme,
    pub score: u32,
}

/// Builds the record to store after a run from `slot` has ended with
/// `score`. `previous` is the profile stored in that slot before the
/// run, if any; without one the player starts with the slot's default
/// name and no games.
pub fn record_run(slot: Slot, previous: Option<PlayerProfile>, settings: &GameSettings, score: u32) -> (r: SaveSlot)
    requires
        previous matches Some(p) ==> p.total_games < u32::MAX,
    ensures
        r.slot_number == slot.spec_number(),
        r.mode == settings.selected_mode,
        r.difficulty == settings.selected_difficulty,
        r.theme == settings.selected_theme,
        r.score == score,
        match previous {
            Some(p) => {
                &&& r.profile.name == p.name
                &&& r.profile.total_games == p.total_games + 1
                &&& r.profile.high_score == max_score(p.high_score, score)
            },
            None => {
                &&& r.profile.name@ == slot.spec_default_player_name()
                &&& r.profile.total_games == 1
                &&& r.profile.high_score == score
            },
        },
{
    let mut profile = match previous {
        Some(p) => p,
        None => PlayerProfile::new_for_slot(slot),
    };
    profile.record_game(score);
    SaveSlot {
        slot_number: slot.number(),
        profile,
        mode: settings.selected_mode,
        difficulty: settings.selected_difficulty,
        theme: settings.selected_theme,
        score,
    }
}

} // verus!
