use vstd::prelude::*;

use crate::engine::entity::{AnswerModel, GameRound, PlayerAnswer, RoundStatus};
use crate::text::{to_upper, unicode_upper};

verus! {

/// A player's answer to the current round of a session.
#[derive(Debug)]
pub struct SubmitAnswerCommand {
    pub session_code: String,
    pub player_id: u128,
    pub player_name: String,
    pub answer: String,
}

/// Whether the answer was taken, and whether it is right.
#[derive(Debug, Clone, Copy, PartialEq, Eq, Structural)]
pub struct SubmitAnswerResult {
    pub accepted: bool,
    pub is_correct: bool,
}

/// What submitting an answer stores (if anything) and answers.
#[derive(Debug)]
pub struct SubmitAnswerPlan {
    pub record: Option<PlayerAnswer>,
    pub result: SubmitAnswerResult,
}

/// Whole seconds from `started_at` to `now` (both in microseconds), and 0 where
/// `now` is not later.
pub open spec fn seconds_taken(started_at: i64, now: i64) -> int {
    if now - started_at <= 0 {
        0
    } else {
        (now - started_at) / 1_000_000
    }
}

/// An answer is right when it equals the round's correct answer, both taken in upper case.
pub open spec fn answer_is_correct(correct: Seq<char>, given: Seq<char>) -> bool {
    unicode_upper(correct) == unicode_upper(given)
}

/// Grading ignores case on both sides alike: an answer identical to the correct
/// answer is always right, grading is symmetric, and two answers with the same
/// upper-case form are graded alike.
pub proof fn lemma_grading_is_case_blind(correct: Seq<char>, given: Seq<char>, other: Seq<char>)
    ensures
        answer_is_correct(correct, correct),
        answer_is_correct(correct, given) == answer_is_correct(given, correct),
        unicode_upper(given) == unicode_upper(other) ==> answer_is_correct(correct, given)
            == answer_is_correct(correct, other),
{
}

/// Decides on an answer to round `round_id` given at time `now`; `answer_id` names
/// the record. Only an active round takes answers.
pub fn decide(cmd: SubmitAnswerCommand, round_id: u128, round: &GameRound, answer_id: u128, now: i64) -> (p:
    SubmitAnswerPlan)
    ensures
        round.status != RoundStatus::Active ==> p.record is None && p.result == (SubmitAnswerResult {
            accepted: false,
            is_correct: false,
        }),
        round.status == RoundStatus::Active ==> {
            &&& p.result == (SubmitAnswerResult {
                accepted: true,
                is_correct: answer_is_correct(round.correct_answer@, cmd.answer@),
            })
            &&& p.record matches Some(rec) && rec@ == (AnswerModel {
                id: answer_id,
                round_id,
                player_id: cmd.player_id,
                player_name: cmd.player_name@,
                answer: cmd.answer@,
                is_correct: answer_is_correct(round.correct_answer@, cmd.answer@),
                answered_at: now,
                time_taken_seconds: seconds_taken(round.started_at, now) as i64,
            })
        },
{
    if round.status != RoundStatus::Active {
        return SubmitAnswerPlan {
            record: None,
            result: SubmitAnswerResult { accepted: false, is_correct: false },
        };
    }
    let is_correct = to_upper(round.correct_answer.as_str()) == to_upper(cmd.answer.as_str());
    let elapsed: i128 = now as i128 - round.started_at as i128;
    let time_taken: i64 = if elapsed <= 0 {
        0
    } else {
        (elapsed / 1_000_000) as i64
    };
    let record = PlayerAnswer {
        id: answer_id,
        round_id,
        player_id: cmd.player_id,
        player_name: cmd.player_name,
        answer: cmd.answer,
        is_correct,
        answered_at: now,
        time_taken_seconds: time_taken,
    };
    SubmitAnswerPlan {
        record: Some(record),
        result: SubmitAnswerResult { accepted: true, is_correct },
    }
}

} // verus!
