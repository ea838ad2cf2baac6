//! Scoring: points per round, player totals, the leaderboard and the Lucky Boost.
pub mod calculator;
pub mod config;
pub mod entity;
pub mod leaderboard;
pub mod lucky_boost;
