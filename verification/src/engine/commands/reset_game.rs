use vstd::prelude::*;

use crate::engine::entity::{GameState, GameStatus, StateModel};
use crate::text::owned;

verus! {

/// The state a game is reset to at time `now`: waiting, with no round, keeping the
/// number of questions of the stored state (or 0 where none is stored).
pub fn decide(session_code: &str, found: Option<GameState>, now: i64) -> (s: GameState)
    ensures
        s@ == (StateModel {
            session_code: session_code@,
            status: GameStatus::Waiting,
            current_round_id: None,
            current_round_number: 0,
            total_questions: match found {
                Some(f) => f.total_questions,
                None => 0,
            },
            updated_at: now,
        }),
{
    let total_questions = match found {
        Some(f) => f.total_questions,
        None => 0,
    };
    GameState {
        session_code: owned(session_code),
        status: GameStatus::Waiting,
        current_round_id: None,
        current_round_number: 0,
        total_questions,
        updated_at: now,
    }
}

} // verus!
