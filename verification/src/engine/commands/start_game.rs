use vstd::prelude::*;

use crate::engine::commands::new_round::{new_round, question_started, round_from_question, started_event};
use crate::engine::entity::{GameRound, GameState, GameStatus, StateModel};
use crate::engine::errors::EngineError;
use crate::engine::events::GameEvent;
use crate::engine::questions::{is_play_order, play_order, play_order_of, QuestionDto};
use crate::text::{clone_opt, owned};

verus! {

/// What starting a game answers: the first round's question.
#[derive(Debug)]
pub struct StartGameResult {
    pub round_id: u128,
    pub question_text: String,
    pub option_a: Option<String>,
    pub option_b: Option<String>,
    pub option_c: Option<String>,
    pub option_d: Option<String>,
    pub correct_answer: String,
    pub round_number: i32,
    pub total_questions: i32,
}

/// What starting a game stores, publishes and answers.
#[derive(Debug)]
pub struct StartGamePlan {
    pub round: GameRound,
    pub state: GameState,
    pub event: GameEvent,
    pub result: StartGameResult,
}

/// `i` is the first position in `qs` of a question with id `qid`.
pub open spec fn first_with_id(qs: Seq<QuestionDto>, qid: u128, i: int) -> bool {
    &&& 0 <= i < qs.len()
    &&& qs[i].id == qid
    &&& forall|j: int| 0 <= j < i ==> qs[j].id != qid
}

/// The question a game starts with: the requested one where given (its first
/// occurrence), otherwise the first guest-quiz question in play order.
pub open spec fn start_choice(qs: Seq<QuestionDto>, requested: Option<u128>) -> Option<int> {
    match requested {
        Some(qid) => if exists|i: int| first_with_id(qs, qid, i) {
            Some(choose|i: int| first_with_id(qs, qid, i))
        } else {
            None
        },
        None => if play_order(qs, "guest_quiz"@).len() > 0 {
            Some(play_order(qs, "guest_quiz"@)[0] as int)
        } else {
            None
        },
    }
}

/// Each round plays one question of a pair: half the listed questions, rounded toward zero.
pub open spec fn total_from_count(n: i32) -> i32 {
    if n >= 0 {
        (n / 2) as i32
    } else {
        (-((-n) / 2)) as i32
    }
}

/// The answer shows question `q` as round `number` of `total`.
pub open spec fn start_result_shows(
    r: StartGameResult,
    q: QuestionDto,
    round_id: u128,
    number: i32,
    total: i32,
) -> bool {
    &&& r.round_id == round_id
    &&& r.question_text@ == q.text@
    &&& r.option_a.deep_view() == q.option_a.deep_view()
    &&& r.option_b.deep_view() == q.option_b.deep_view()
    &&& r.option_c.deep_view() == q.option_c.deep_view()
    &&& r.option_d.deep_view() == q.option_d.deep_view()
    &&& r.correct_answer@ == q.correct_answer@
    &&& r.round_number == number
    &&& r.total_questions == total
}

fn position_of_id(qs: &Vec<QuestionDto>, qid: u128) -> (r: Option<usize>)
    ensures
        match r {
            Some(i) => first_with_id(qs@, qid, i as int),
            None => forall|i: int| 0 <= i < qs@.len() ==> qs@[i].id != qid,
        },
{
    let mut i: usize = 0;
    while i < qs.len()
        invariant
            i <= qs.len(),
            forall|j: int| 0 <= j < i ==> qs@[j].id != qid,
        decreases qs.len() - i,
    {
        if qs[i].id == qid {
            return Some(i);
        }
        i = i + 1;
    }
    None
}

/// Starts the game of a session with the listed `questions`: round 1 asks the
/// requested question, or the first guest-quiz question in play order. `round_id`
/// names the new round and `now` is its start.
pub fn decide(
    session_code: &str,
    questions: &Vec<QuestionDto>,
    requested: Option<u128>,
    round_id: u128,
    now: i64,
) -> (r: Result<StartGamePlan, EngineError>)
    ensures
        questions@.len() == 0 ==> (r matches Err(EngineError::BadRequest(m)) && m@
            == "No questions found for this session"@),
        questions@.len() > 0 && start_choice(questions@, requested) is None ==> match requested {
            Some(_) => r matches Err(EngineError::NotFound(m)) && m@
                == "Requested question not found"@,
            None => r matches Err(EngineError::BadRequest(m)) && m@ == "No questions available"@,
        },
        questions@.len() > 0 ==> (start_choice(questions@, requested) matches Some(i) ==> r matches Ok(
            p,
        ) && {
            let q = questions@[i];
            let total = total_from_count(questions@.len() as i32);
            &&& p.round@ == round_from_question(session_code@, q, None, round_id, 1, now)
            &&& p.state@ == (StateModel {
                session_code: session_code@,
                status: GameStatus::Question,
                current_round_id: Some(round_id),
                current_round_number: 1,
                total_questions: total,
                updated_at: now,
            })
            &&& p.event@ == question_started(q, round_id, 1, now)
            &&& start_result_shows(p.result, q, round_id, 1, total)
        }),
{
    let guest_quiz = play_order_of(questions, "guest_quiz");
    if questions.len() == 0 {
        return Err(EngineError::BadRequest(owned("No questions found for this session")));
    }
    let n: i32 = questions.len() as i32;
    let total_questions: i32 = n / 2;
    let index: usize = match requested {
        Some(qid) => match position_of_id(questions, qid) {
            Some(i) => i,
            None => {
                return Err(EngineError::NotFound(owned("Requested question not found")));
            },
        },
        None => {
            if guest_quiz.len() == 0 {
                return Err(EngineError::BadRequest(owned("No questions available")));
            }
            guest_quiz[0]
        },
    };
    proof {
        if let Some(qid) = requested {
            let c = choose|i: int| first_with_id(questions@, qid, i);
            assert(first_with_id(questions@, qid, c));
            assert(c == index as int);
        }
    }
    let q = &questions[index];
    let round = new_round(session_code, q, None, round_id, 1, now);
    let state = GameState {
        session_code: owned(session_code),
        status: GameStatus::Question,
        current_round_id: Some(round_id),
        current_round_number: 1,
        total_questions,
        updated_at: now,
    };
    let event = started_event(q, round_id, 1, now);
    let result = StartGameResult {
        round_id,
        question_text: q.text.clone(),
        option_a: clone_opt(&q.option_a),
        option_b: clone_opt(&q.option_b),
        option_c: clone_opt(&q.option_c),
        option_d: clone_opt(&q.option_d),
        correct_answer: q.correct_answer.clone(),
        round_number: 1,
        total_questions,
    };
    Ok(StartGamePlan { round, state, event, result })
}

} // verus!
