//! Game engine, scoring and realtime rules of the Wedding Quest party quiz.
pub mod channels;
pub mod engine;
pub mod platform;
pub mod realtime;
pub mod scoring;
pub mod settings;
pub mod text;
