use vstd::prelude::*;

use crate::engine::entity::{GameRound, RoundModel, RoundStatus};
use crate::engine::events::{EventModel, GameEvent};
use crate::engine::questions::QuestionDto;
use crate::text::{clone_opt, owned};

verus! {

/// The round that asks question `q` as round `number` of a session, started at
/// `now`, with `paired` as its ich-oder-du question.
pub open spec fn round_from_question(
    session_code: Seq<char>,
    q: QuestionDto,
    paired: Option<QuestionDto>,
    round_id: u128,
    number: i32,
    now: i64,
) -> RoundModel {
    RoundModel {
        id: round_id,
        session_code,
        question_id: q.id,
        question_type: q.question_type@,
        question_text: q.text@,
        option_a: q.option_a.deep_view(),
        option_b: q.option_b.deep_view(),
        option_c: q.option_c.deep_view(),
        option_d: q.option_d.deep_view(),
        correct_answer: q.correct_answer@,
        ich_oder_du_id: match paired {
            Some(p) => Some(p.id),
            None => None,
        },
        ich_oder_du_text: match paired {
            Some(p) => Some(p.text@),
            None => None,
        },
        ich_oder_du_correct: match paired {
            Some(p) => Some(p.correct_answer@),
            None => None,
        },
        couple_answer: None,
        couple_answer_a: None,
        couple_answer_b: None,
        status: RoundStatus::Active,
        round_number: number,
        started_at: now,
        closed_at: None,
    }
}

/// The round created for a question asks that question and grades by that
/// question's own correct answer, whatever ich-oder-du question is paired with it;
/// the paired question only fills the ich-oder-du fields.
pub proof fn lemma_round_keeps_its_question(
    session_code: Seq<char>,
    q: QuestionDto,
    paired: Option<QuestionDto>,
    round_id: u128,
    number: i32,
    now: i64,
)
    ensures
        ({
            let r = round_from_question(session_code, q, paired, round_id, number, now);
            &&& r.correct_answer == q.correct_answer@
            &&& r.question_id == q.id
            &&& r.question_text == q.text@
            &&& r.question_type == q.question_type@
            &&& r.id == round_id
            &&& r.round_number == number
            &&& r.status == RoundStatus::Active
            &&& r.ich_oder_du_correct == match paired {
                Some(p) => Some(p.correct_answer@),
                None => None::<Seq<char>>,
            }
        }),
{
}

/// The event that announces question `q` as round `number`.
pub open spec fn question_started(q: QuestionDto, round_id: u128, number: i32, now: i64) -> EventModel {
    EventModel::QuestionStarted {
        round_id,
        question_id: q.id,
        question_type: q.question_type@,
        question_text: q.text@,
        option_a: q.option_a.deep_view(),
        option_b: q.option_b.deep_view(),
        option_c: q.option_c.deep_view(),
        option_d: q.option_d.deep_view(),
        correct_answer: q.correct_answer@,
        started_at: now,
        round_number: number,
    }
}

/// The round that asks `q`.
pub fn new_round(
    session_code: &str,
    q: &QuestionDto,
    paired: Option<&QuestionDto>,
    round_id: u128,
    number: i32,
    now: i64,
) -> (r: GameRound)
    ensures
        r@ == round_from_question(
            session_code@,
            *q,
            match paired {
                Some(p) => Some(*p),
                None => None,
            },
            round_id,
            number,
            now,
        ),
{
    let (ich_oder_du_id, ich_oder_du_text, ich_oder_du_correct) = match paired {
        Some(p) => (Some(p.id), Some(p.text.clone()), Some(p.correct_answer.clone())),
        None => (None, None, None),
    };
    GameRound {
        id: round_id,
        session_code: owned(session_code),
        question_id: q.id,
        question_type: q.question_type.clone(),
        question_text: q.text.clone(),
        option_a: clone_opt(&q.option_a),
        option_b: clone_opt(&q.option_b),
        option_c: clone_opt(&q.option_c),
        option_d: clone_opt(&q.option_d),
        correct_answer: q.correct_answer.clone(),
        ich_oder_du_id,
        ich_oder_du_text,
        ich_oder_du_correct,
        couple_answer: None,
        couple_answer_a: None,
        couple_answer_b: None,
        status: RoundStatus::Active,
        round_number: number,
        started_at: now,
        closed_at: None,
    }
}

/// The event that announces `q`.
pub fn started_event(q: &QuestionDto, round_id: u128, number: i32, now: i64) -> (e: GameEvent)
    ensures
        e@ == question_started(*q, round_id, number, now),
{
    GameEvent::QuestionStarted {
        round_id,
        question_id: q.id,
        question_type: q.question_type.clone(),
        question_text: q.text.clone(),
        option_a: clone_opt(&q.option_a),
        option_b: clone_opt(&q.option_b),
        option_c: clone_opt(&q.option_c),
        option_d: clone_opt(&q.option_d),
        correct_answer: q.correct_answer.clone(),
        started_at: now,
        round_number: number,
    }
}

} // verus!
