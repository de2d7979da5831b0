use flappy_bird::leaderboard::{build_leaderboard, rank_entries, LeaderboardEntry};
use flappy_bird::save::{PlayerProfile, SaveSlot};
use flappy_bird::settings::{Difficulty, GameMode, Theme};

fn save(slot: u8, name: &str, score: u32) -> SaveSlot {
    SaveSlot {
        slot_number: slot,
        profile: PlayerProfile { name: String::from(name), high_score: score, total_games: 1 },
        mode: GameMode::Endless,
        difficulty: Difficulty::Normal,
        theme: Theme::Classic,
        score,
    }
}

fn entry(name: &str, score: u32) -> LeaderboardEntry {
    LeaderboardEntry {
        name: String::from(name),
        score,
        mode: GameMode::Endless,
        difficulty: Difficulty::Normal,
    }
}

fn names(v: &[LeaderboardEntry]) -> Vec<String> {
    v.iter().map(|e| e.name.clone()).collect()
}

#[test]
fn leaderboard_sorts_by_descending_score() {
    let saves = vec![Some(save(1, "a", 3)), Some(save(2, "b", 10)), Some(save(3, "c", 7))];
    let board = build_leaderboard(&saves);
    assert_eq!(names(&board), vec!["b", "c", "a"]);
    assert_eq!(board.iter().map(|e| e.score).collect::<Vec<_>>(), vec![10, 7, 3]);
}

#[test]
fn leaderboard_skips_empty_slots() {
    let saves = vec![None, Some(save(2, "b", 4)), None];
    let board = build_leaderboard(&saves);
    assert_eq!(names(&board), vec!["b"]);
    assert_eq!(board[0].score, 4);
}

#[test]
fn leaderboard_of_no_saves_is_empty() {
    assert!(build_leaderboard(&vec![None, None, None]).is_empty());
    assert!(build_leaderboard(&Vec::new()).is_empty());
}

#[test]
fn leaderboard_keeps_slot_order_on_ties() {
    let saves = vec![Some(save(1, "a", 5)), Some(save(2, "b", 9)), Some(save(3, "c", 5))];
    assert_eq!(names(&build_leaderboard(&saves)), vec!["b", "a", "c"]);
}

#[test]
fn leaderboard_entry_takes_save_fields() {
    let mut s = save(2, "Dee", 6);
    s.mode = GameMode::Checkpoints;
    s.difficulty = Difficulty::Hard;
    let e = LeaderboardEntry::from_save(&s);
    assert_eq!(e.name, "Dee");
    assert_eq!(e.score, 6);
    assert_eq!(e.mode, GameMode::Checkpoints);
    assert_eq!(e.difficulty, Difficulty::Hard);
}

#[test]
fn ranking_is_stable_over_many_entries() {
    let input = vec![
        entry("p", 2),
        entry("q", 8),
        entry("r", 2),
        entry("s", 0),
        entry("t", 8),
        entry("u", 5),
        entry("v", 2),
    ];
    let ranked = rank_entries(input);
    assert_eq!(names(&ranked), vec!["q", "t", "u", "p", "r", "v", "s"]);
}

#[test]
fn ranking_of_nothing_is_empty() {
    assert!(rank_entries(Vec::new()).is_empty());
}
