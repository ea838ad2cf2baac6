use vstd::prelude::*;

use crate::engine::commands::new_round::{new_round, question_started, round_from_question, started_event};
use crate::engine::entity::{GameRound, GameState, GameStatus, StateModel};
use crate::engine::errors::EngineError;
use crate::engine::events::{EventModel, GameEvent};
use crate::engine::questions::{play_order, play_order_of, QuestionDto};
use crate::text::{clone_opt, owned};

verus! {

/// What moving on to the next question answers.
#[derive(Debug)]
pub enum NextQuestionResult {
    NextRound {
        round_id: u128,
        question_text: String,
        option_a: Option<String>,
        option_b: Option<String>,
        option_c: Option<String>,
        option_d: Option<String>,
        correct_answer: String,
        round_number: i32,
        total_questions: i32,
    },
    GameOver,
}

/// What to do first when asked for the next question.
#[derive(Debug)]
pub enum NextStep {
    /// Every question was played: store this state and publish this event.
    Finish { state: GameState, event: GameEvent },
    /// Fetch the session's questions and pick the next round from them.
    FetchQuestions,
}

/// What moving on to the next round stores, publishes and answers.
#[derive(Debug)]
pub struct NextRoundPlan {
    pub round: GameRound,
    pub state: GameState,
    pub event: GameEvent,
    pub result: NextQuestionResult,
}

/// Decides at time `now` whether the game of `state` is over or goes on.
pub fn step(session_code: &str, state: &GameState, now: i64) -> (r: NextStep)
    requires
        state.current_round_number < i32::MAX,
    ensures
        state.current_round_number + 1 > state.total_questions ==> (r matches NextStep::Finish {
            state: s,
            event: e,
        } && s@ == (StateModel {
            status: GameStatus::Finished,
            current_round_id: None,
            updated_at: now,
            ..state@
        }) && e@ == (EventModel::GameEnded { session_code: session_code@ })),
        state.current_round_number + 1 <= state.total_questions ==> r is FetchQuestions,
{
    let next_number = state.current_round_number + 1;
    if next_number > state.total_questions {
        let s = GameState {
            session_code: state.session_code.clone(),
            status: GameStatus::Finished,
            current_round_id: None,
            current_round_number: state.current_round_number,
            total_questions: state.total_questions,
            updated_at: now,
        };
        NextStep::Finish { state: s, event: GameEvent::GameEnded { session_code: owned(session_code) } }
    } else {
        NextStep::FetchQuestions
    }
}

/// Picks the next round of the game of `state` from the listed `questions`: the
/// guest-quiz question at the next position in play order, paired with the
/// ich-oder-du question at the same position if there is one. `round_id` names the
/// new round and `now` is its start.
pub fn next_round(
    session_code: &str,
    state: &GameState,
    questions: &Vec<QuestionDto>,
    round_id: u128,
    now: i64,
) -> (r: Result<NextRoundPlan, EngineError>)
    requires
        state.current_round_number < i32::MAX,
    ensures
        ({
            let idx = state.current_round_number as int;
            let gq = play_order(questions@, "guest_quiz"@);
            let iod = play_order(questions@, "ich_oder_du"@);
            let number = (state.current_round_number + 1) as i32;
            if idx < 0 || idx >= gq.len() {
                r matches Err(EngineError::BadRequest(m)) && m@ == "No question at that index"@
            } else {
                let q = questions@[gq[idx] as int];
                let paired = if idx < iod.len() {
                    Some(questions@[iod[idx] as int])
                } else {
                    None
                };
                r matches Ok(p) && {
                    &&& p.round@ == round_from_question(
                        session_code@,
                        q,
                        paired,
                        round_id,
                        number,
                        now,
                    )
                    &&& p.state@ == (StateModel {
                        status: GameStatus::Question,
                        current_round_id: Some(round_id),
                        current_round_number: number,
                        updated_at: now,
                        ..state@
                    })
                    &&& p.event@ == question_started(q, round_id, number, now)
                    &&& p.result matches NextQuestionResult::NextRound {
                        round_id: rid,
                        question_text,
                        option_a,
                        option_b,
                        option_c,
                        option_d,
                        correct_answer,
                        round_number,
                        total_questions,
                    } && rid == round_id && question_text@ == q.text@ && option_a.deep_view()
                        == q.option_a.deep_view() && option_b.deep_view()
                        == q.option_b.deep_view() && option_c.deep_view()
                        == q.option_c.deep_view() && option_d.deep_view()
                        == q.option_d.deep_view() && correct_answer@ == q.correct_answer@
                        && round_number == number && total_questions == state.total_questions
                }
            }
        }),
{
    let guest_quiz = play_order_of(questions, "guest_quiz");
    let ich_oder_du = play_order_of(questions, "ich_oder_du");
    let next_number = state.current_round_number + 1;
    if state.current_round_number < 0 || state.current_round_number as usize >= guest_quiz.len() {
        return Err(EngineError::BadRequest(owned("No question at that index")));
    }
    let idx = state.current_round_number as usize;
    let q = &questions[guest_quiz[idx]];
    let paired: Option<&QuestionDto> = if idx < ich_oder_du.len() {
        Some(&questions[ich_oder_du[idx]])
    } else {
        None
    };
    let round = new_round(session_code, q, paired, round_id, next_number, now);
    let new_state = GameState {
        session_code: state.session_code.clone(),
        status: GameStatus::Question,
        current_round_id: Some(round_id),
        current_round_number: next_number,
        total_questions: state.total_questions,
        updated_at: now,
    };
    let event = started_event(q, round_id, next_number, now);
    let result = NextQuestionResult::NextRound {
        round_id,
        question_text: q.text.clone(),
        option_a: clone_opt(&q.option_a),
        option_b: clone_opt(&q.option_b),
        option_c: clone_opt(&q.option_c),
        option_d: clone_opt(&q.option_d),
        correct_answer: q.correct_answer.clone(),
        round_number: next_number,
        total_questions: state.total_questions,
    };
    Ok(NextRoundPlan { round, state: new_state, event, result })
}

} // verus!
