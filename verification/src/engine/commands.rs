//! Decisions of the engine's commands. Each command reads the game state and
//! round, decides, then writes and publishes what the decision says.
pub mod close_round;
pub mod couple_answer;
pub mod couple_member;
pub mod lookup;
pub mod next_question;
pub mod new_round;
pub mod reset_game;
pub mod start_game;
pub mod submit_answer;
