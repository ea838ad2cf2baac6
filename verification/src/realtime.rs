//! The realtime hub: its settings and what clients may send it.
pub mod config;
pub mod events;
