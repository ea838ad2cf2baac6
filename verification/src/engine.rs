//! The quiz engine: rounds, game state and the decisions of its commands.
pub mod commands;
pub mod dto;
pub mod entity;
pub mod errors;
pub mod events;
pub mod questions;
