use vstd::prelude::*;

use crate::engine::entity::{GameRound, GameState};
use crate::engine::errors::EngineError;
use crate::text::owned;

verus! {

/// The game state a command works on, and its current round's id.
/// A missing state is not found; a state without a current round is a bad request.
pub fn require_current_round(found: Option<GameState>) -> (r: Result<(GameState, u128), EngineError>)
    ensures
        match found {
            None => r matches Err(EngineError::NotFound(m)) && m@ == "Game state not found"@,
            Some(s) => match s.current_round_id {
                None => r matches Err(EngineError::BadRequest(m)) && m@ == "No active round"@,
                Some(id) => r matches Ok((s2, id2)) && s2 == s && id2 == id,
            },
        },
{
    match found {
        None => Err(EngineError::NotFound(owned("Game state not found"))),
        Some(s) => match s.current_round_id {
            None => Err(EngineError::BadRequest(owned("No active round"))),
            Some(id) => Ok((s, id)),
        },
    }
}

/// The round a command works on; a missing round is not found.
pub fn require_round(found: Option<GameRound>) -> (r: Result<GameRound, EngineError>)
    ensures
        match found {
            None => r matches Err(EngineError::NotFound(m)) && m@ == "Round not found"@,
            Some(round) => r matches Ok(x) && x == round,
        },
{
    match found {
        None => Err(EngineError::NotFound(owned("Round not found"))),
        Some(round) => Ok(round),
    }
}

} // verus!
