use vstd::prelude::*;

use crate::engine::commands::close_round::CloseRoundResult;
use crate::engine::commands::next_question::NextQuestionResult;
use crate::engine::commands::start_game::StartGameResult;
use crate::engine::commands::submit_answer::SubmitAnswerResult;
use crate::engine::entity::{game_status_text, GameRound, GameState};
use crate::platform::{parse_uuid, uuid_from_text};
use crate::text::{clone_opt, owned};

verus! {

/// A player's answer as the HTTP API takes it.
#[derive(Debug)]
pub struct SubmitAnswerRequest {
    pub player_id: u128,
    pub player_name: String,
    pub answer: String,
}

/// The couple's answer as the HTTP API takes it.
#[derive(Debug)]
pub struct CoupleAnswerRequest {
    pub answer: String,
}

/// The first round of a started game, as the HTTP API shows it.
#[derive(Debug)]
pub struct StartGameResponse {
    pub round_id: u128,
    pub question_text: String,
    pub option_a: Option<String>,
    pub option_b: Option<String>,
    pub option_c: Option<String>,
    pub option_d: Option<String>,
    pub correct_answer: String,
    pub round_number: i32,
    pub total_questions: i32,
}

/// The game state of a session, with its current round's question where there is one.
#[derive(Debug)]
pub struct GameStateResponse {
    pub status: String,
    pub current_round_id: Option<u128>,
    pub current_round_number: i32,
    pub total_questions: i32,
    pub question_type: Option<String>,
    pub question_text: Option<String>,
    pub option_a: Option<String>,
    pub option_b: Option<String>,
    pub option_c: Option<String>,
    pub option_d: Option<String>,
    /// Start of the current round, in microseconds since the Unix epoch.
    pub started_at: Option<i64>,
}

#[derive(Debug, Clone, Copy, PartialEq, Eq, Structural)]
pub struct SubmitAnswerResponse {
    pub accepted: bool,
    pub is_correct: bool,
}

#[derive(Debug)]
pub struct CloseRoundResponse {
    pub correct_answer: String,
    pub has_ich_oder_du: bool,
    pub ich_oder_du_text: Option<String>,
}

#[derive(Debug)]
pub struct NextQuestionResponse {
    pub round_id: u128,
    pub question_text: String,
    pub option_a: Option<String>,
    pub option_b: Option<String>,
    pub option_c: Option<String>,
    pub option_d: Option<String>,
    pub correct_answer: String,
    pub round_number: i32,
    pub total_questions: i32,
}

/// The question a start request asks for: the request's `question_id` text, where
/// it is given and reads as a UUID.
pub fn requested_question_id(question_id: Option<&str>) -> (r: Option<u128>)
    ensures
        r == match question_id {
            Some(s) => uuid_from_text(s@),
            None => None,
        },
{
    match question_id {
        Some(s) => parse_uuid(s),
        None => None,
    }
}

impl StartGameResponse {
    pub fn from_result(r: StartGameResult) -> (s: StartGameResponse)
        ensures
            s.round_id == r.round_id,
            s.question_text == r.question_text,
            s.option_a == r.option_a,
            s.option_b == r.option_b,
            s.option_c == r.option_c,
            s.option_d == r.option_d,
            s.correct_answer == r.correct_answer,
            s.round_number == r.round_number,
            s.total_questions == r.total_questions,
    {
        StartGameResponse {
            round_id: r.round_id,
            question_text: r.question_text,
            option_a: r.option_a,
            option_b: r.option_b,
            option_c: r.option_c,
            option_d: r.option_d,
            correct_answer: r.correct_answer,
            round_number: r.round_number,
            total_questions: r.total_questions,
        }
    }
}

impl GameStateResponse {
    /// The game state as shown, with the question of `round` where it is loaded.
    pub fn from_state(state: &GameState, round: Option<&GameRound>) -> (s: GameStateResponse)
        ensures
            s.status@ == game_status_text(state.status),
            s.current_round_id == state.current_round_id,
            s.current_round_number == state.current_round_number,
            s.total_questions == state.total_questions,
            match round {
                Some(rd) => {
                    &&& s.question_type == Some(rd.question_type)
                    &&& s.question_text == Some(rd.question_text)
                    &&& s.option_a == rd.option_a
                    &&& s.option_b == rd.option_b
                    &&& s.option_c == rd.option_c
                    &&& s.option_d == rd.option_d
                    &&& s.started_at == Some(rd.started_at)
                },
                None => {
                    &&& s.question_type is None
                    &&& s.question_text is None
                    &&& s.option_a is None
                    &&& s.option_b is None
                    &&& s.option_c is None
                    &&& s.option_d is None
                    &&& s.started_at is None
                },
            },
    {
        let status = owned(state.status.as_str());
        match round {
            Some(rd) => GameStateResponse {
                status,
                current_round_id: state.current_round_id,
                current_round_number: state.current_round_number,
                total_questions: state.total_questions,
                question_type: Some(rd.question_type.clone()),
                question_text: Some(rd.question_text.clone()),
                option_a: clone_opt(&rd.option_a),
                option_b: clone_opt(&rd.option_b),
                option_c: clone_opt(&rd.option_c),
                option_d: clone_opt(&rd.option_d),
                started_at: Some(rd.started_at),
            },
            None => GameStateResponse {
                status,
                current_round_id: state.current_round_id,
                current_round_number: state.current_round_number,
                total_questions: state.total_questions,
                question_type: None,
                question_text: None,
                option_a: None,
                option_b: None,
                option_c: None,
                option_d: None,
                started_at: None,
            },
        }
    }
}

impl SubmitAnswerResponse {
    pub fn from_result(r: SubmitAnswerResult) -> (s: SubmitAnswerResponse)
        ensures
            s.accepted == r.accepted,
            s.is_correct == r.is_correct,
    {
        SubmitAnswerResponse { accepted: r.accepted, is_correct: r.is_correct }
    }
}

impl CloseRoundResponse {
    pub fn from_result(r: CloseRoundResult) -> (s: CloseRoundResponse)
        ensures
            s.correct_answer == r.correct_answer,
            s.has_ich_oder_du == r.has_ich_oder_du,
            s.ich_oder_du_text == r.ich_oder_du_text,
    {
        CloseRoundResponse {
            correct_answer: r.correct_answer,
            has_ich_oder_du: r.has_ich_oder_du,
            ich_oder_du_text: r.ich_oder_du_text,
        }
    }
}

impl NextQuestionResponse {
    /// The next round as shown; a finished game shows nothing.
    pub fn from_result(r: NextQuestionResult) -> (s: Option<NextQuestionResponse>)
        ensures
            match r {
                NextQuestionResult::GameOver => s is None,
                NextQuestionResult::NextRound {
                    round_id,
                    question_text,
                    option_a,
                    option_b,
                    option_c,
                    option_d,
                    correct_answer,
                    round_number,
                    total_questions,
                } => s matches Some(x) && x.round_id == round_id && x.question_text
                    == question_text && x.option_a == option_a && x.option_b == option_b
                    && x.option_c == option_c && x.option_d == option_d && x.correct_answer
                    == correct_answer && x.round_number == round_number && x.total_questions
                    == total_questions,
            },
    {
        match r {
            NextQuestionResult::GameOver => None,
            NextQuestionResult::NextRound {
                round_id,
                question_text,
                option_a,
                option_b,
                option_c,
                option_d,
                correct_answer,
                round_number,
                total_questions,
            } => Some(
                NextQuestionResponse {
                    round_id,
                    question_text,
                    option_a,
                    option_b,
                    option_c,
                    option_d,
                    correct_answer,
                    round_number,
                    total_questions,
                },
            ),
        }
    }
}

} // verus!
