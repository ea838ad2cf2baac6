use vstd::prelude::*;

use crate::engine::entity::{GameRound, GameState, GameStatus, RoundModel, RoundStatus, StateModel};
use crate::engine::events::{EventModel, GameEvent};

verus! {

/// What recording the couple's answer writes and publishes.
#[derive(Debug)]
pub struct CoupleAnswerPlan {
    pub round: GameRound,
    pub state: GameState,
    pub event: GameEvent,
}

/// Records the couple's answer to the current round `round_id` at time `now`:
/// the round is scored and the game goes back to the question phase.
pub fn decide(state: GameState, round_id: u128, round: GameRound, answer: String, now: i64) -> (p:
    CoupleAnswerPlan)
    ensures
        p.round@ == (RoundModel {
            couple_answer: Some(answer@),
            status: RoundStatus::Scored,
            ..round@
        }),
        p.state@ == (StateModel { status: GameStatus::Question, updated_at: now, ..state@ }),
        p.event@ == (EventModel::CoupleAnswered {
            round_id,
            couple_answer: answer@,
            answer_a: None,
            answer_b: None,
        }),
{
    let mut round = round;
    round.couple_answer = Some(answer.clone());
    round.status = RoundStatus::Scored;
    let mut state = state;
    state.status = GameStatus::Question;
    state.updated_at = now;
    let event = GameEvent::CoupleAnswered {
        round_id,
        couple_answer: answer,
        answer_a: None,
        answer_b: None,
    };
    CoupleAnswerPlan { round, state, event }
}

} // verus!
