use flappy_bird::flow::{
    difficulty_select_step, game_over_next, leaderboard_next, main_menu_next, mode_select_step,
    save_select_step, theme_select_step, GameState, Keys, SaveSelectAction,
};
use flappy_bird::settings::{Difficulty, GameMode, GameSettings, Slot, Theme};

fn no_keys() -> Keys {
    Keys {
        space: false,
        escape: false,
        f1: false,
        digit1: false,
        digit2: false,
        digit3: false,
        ctrl: false,
    }
}

#[test]
fn default_state_is_main_menu() {
    assert_eq!(GameState::default(), GameState::MainMenu);
}

#[test]
fn default_settings() {
    let s = GameSettings::default();
    assert_eq!(s.current_slot, None);
    assert_eq!(s.selected_mode, GameMode::Endless);
    assert_eq!(s.selected_difficulty, Difficulty::Normal);
    assert_eq!(s.selected_theme, Theme::Classic);
}

#[test]
fn main_menu_space_goes_to_slots() {
    let keys = Keys { space: true, ..no_keys() };
    assert_eq!(main_menu_next(&keys), Some(GameState::SaveSelect));
}

#[test]
fn main_menu_f1_goes_to_leaderboard() {
    let keys = Keys { f1: true, ..no_keys() };
    assert_eq!(main_menu_next(&keys), Some(GameState::Leaderboard));
}

#[test]
fn main_menu_f1_wins_over_space() {
    let keys = Keys { f1: true, space: true, ..no_keys() };
    assert_eq!(main_menu_next(&keys), Some(GameState::Leaderboard));
}

#[test]
fn main_menu_ignores_other_keys() {
    let keys = Keys { escape: true, digit1: true, ..no_keys() };
    assert_eq!(main_menu_next(&keys), None);
    assert_eq!(main_menu_next(&no_keys()), None);
}

#[test]
fn leaderboard_escape_returns() {
    assert_eq!(leaderboard_next(&Keys { escape: true, ..no_keys() }), Some(GameState::MainMenu));
    assert_eq!(leaderboard_next(&Keys { space: true, ..no_keys() }), None);
}

#[test]
fn game_over_space_returns() {
    assert_eq!(game_over_next(&Keys { space: true, ..no_keys() }), Some(GameState::MainMenu));
    assert_eq!(game_over_next(&Keys { escape: true, ..no_keys() }), None);
}

#[test]
fn save_select_escape_goes_back() {
    let mut s = GameSettings::default();
    s.current_slot = Some(Slot::Second);
    let action = save_select_step(&mut s, &Keys { escape: true, digit1: true, ..no_keys() });
    assert!(matches!(action, SaveSelectAction::Back));
    assert_eq!(action.next_state(), Some(GameState::MainMenu));
    assert_eq!(s.current_slot, Some(Slot::Second));
}

#[test]
fn save_select_digit_chooses_slot() {
    let mut s = GameSettings::default();
    let action = save_select_step(&mut s, &Keys { digit2: true, ..no_keys() });
    assert!(matches!(action, SaveSelectAction::Choose(Slot::Second)));
    assert_eq!(action.next_state(), Some(GameState::ModeSelect));
    assert_eq!(s.current_slot, Some(Slot::Second));
}

#[test]
fn save_select_lowest_digit_wins() {
    let mut s = GameSettings::default();
    let action = save_select_step(&mut s, &Keys { digit3: true, digit2: true, ..no_keys() });
    assert!(matches!(action, SaveSelectAction::Choose(Slot::Second)));
    assert_eq!(s.current_slot, Some(Slot::Second));
}

#[test]
fn save_select_ctrl_deletes_every_pressed_slot() {
    let mut s = GameSettings::default();
    s.current_slot = Some(Slot::First);
    let action = save_select_step(
        &mut s,
        &Keys { ctrl: true, digit1: true, digit3: true, ..no_keys() },
    );
    match &action {
        SaveSelectAction::Delete(slots) => assert_eq!(slots, &vec![Slot::First, Slot::Third]),
        other => panic!("expected a deletion, got {:?}", other),
    }
    assert_eq!(action.next_state(), None);
    assert_eq!(s.current_slot, None);
}

#[test]
fn save_select_ctrl_alone_does_nothing() {
    let mut s = GameSettings::default();
    s.current_slot = Some(Slot::Third);
    let action = save_select_step(&mut s, &Keys { ctrl: true, ..no_keys() });
    assert!(matches!(action, SaveSelectAction::Stay));
    assert_eq!(action.next_state(), None);
    assert_eq!(s.current_slot, Some(Slot::Third));
}

#[test]
fn mode_select_picks_mode() {
    let mut s = GameSettings::default();
    assert_eq!(
        mode_select_step(&mut s, &Keys { digit2: true, ..no_keys() }),
        Some(GameState::DifficultySelect)
    );
    assert_eq!(s.selected_mode, GameMode::TimeAttack);
    assert_eq!(
        mode_select_step(&mut s, &Keys { digit3: true, ..no_keys() }),
        Some(GameState::DifficultySelect)
    );
    assert_eq!(s.selected_mode, GameMode::Checkpoints);
    assert_eq!(s.selected_difficulty, Difficulty::Normal);
}

#[test]
fn mode_select_escape_and_idle() {
    let mut s = GameSettings::default();
    assert_eq!(
        mode_select_step(&mut s, &Keys { escape: true, digit3: true, ..no_keys() }),
        Some(GameState::SaveSelect)
    );
    assert_eq!(s.selected_mode, GameMode::Endless);
    assert_eq!(mode_select_step(&mut s, &Keys { space: true, ..no_keys() }), None);
    assert_eq!(s, GameSettings::default());
}

#[test]
fn difficulty_select_picks_difficulty() {
    let mut s = GameSettings::default();
    assert_eq!(
        difficulty_select_step(&mut s, &Keys { digit1: true, ..no_keys() }),
        Some(GameState::ThemeSelect)
    );
    assert_eq!(s.selected_difficulty, Difficulty::Easy);
    assert_eq!(
        difficulty_select_step(&mut s, &Keys { digit3: true, ..no_keys() }),
        Some(GameState::ThemeSelect)
    );
    assert_eq!(s.selected_difficulty, Difficulty::Hard);
    assert_eq!(
        difficulty_select_step(&mut s, &Keys { escape: true, ..no_keys() }),
        Some(GameState::ModeSelect)
    );
    assert_eq!(s.selected_difficulty, Difficulty::Hard);
    assert_eq!(difficulty_select_step(&mut s, &no_keys()), None);
}

#[test]
fn theme_select_picks_theme_and_starts() {
    let mut s = GameSettings::default();
    assert_eq!(
        theme_select_step(&mut s, &Keys { digit2: true, ..no_keys() }),
        Some(GameState::Playing)
    );
    assert_eq!(s.selected_theme, Theme::HighContrast);
    assert_eq!(
        theme_select_step(&mut s, &Keys { digit3: true, digit1: true, ..no_keys() }),
        Some(GameState::Playing)
    );
    assert_eq!(s.selected_theme, Theme::Classic);
    assert_eq!(
        theme_select_step(&mut s, &Keys { escape: true, ..no_keys() }),
        Some(GameState::DifficultySelect)
    );
    assert_eq!(theme_select_step(&mut s, &no_keys()), None);
}

#[test]
fn first_digit_and_pressed_slots() {
    let keys = Keys { digit2: true, digit3: true, ..no_keys() };
    assert_eq!(keys.first_digit(), Some(2));
    assert_eq!(keys.pressed_slots(), vec![Slot::Second, Slot::Third]);
    assert_eq!(no_keys().first_digit(), None);
    assert!(no_keys().pressed_slots().is_empty());
}
