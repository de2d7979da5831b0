//! Game flow, save records and scoring rules of a side-scrolling
//! "flappy" arcade game, kept apart from rendering, audio and file I/O.

pub mod flow;
pub mod leaderboard;
pub mod save;
pub mod score;
pub mod settings;
