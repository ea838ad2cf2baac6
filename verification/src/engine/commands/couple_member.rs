use vstd::prelude::*;

use crate::engine::entity::{GameRound, RoundModel, RoundStatus};
use crate::engine::events::{EventModel, GameEvent};
use crate::text::{clone_opt, owned, same_text};

verus! {

/// One couple member's answer to the current ich-oder-du question.
#[derive(Debug)]
pub struct CoupleIndividualAnswerRequest {
    /// `"a"` for the first member; anything else is the second.
    pub person: String,
    pub answer: String,
}

/// Whether both members have answered, whether they agree, and the answer that counts.
#[derive(Debug)]
pub struct CoupleIndividualAnswerResponse {
    pub both_answered: bool,
    pub agree: Option<bool>,
    pub final_answer: Option<String>,
}

/// What a couple member's answer stores, publishes and answers: the round with the
/// member's answer, and once both answered, the scored round and its event.
#[derive(Debug)]
pub struct CoupleMemberPlan {
    pub answered: GameRound,
    pub finalized: Option<GameRound>,
    pub event: Option<GameEvent>,
    pub response: CoupleIndividualAnswerResponse,
}

/// The round with one member's answer recorded: `"a"` is the first member,
/// anyone else the second.
pub open spec fn with_member_answer(round: RoundModel, person: Seq<char>, answer: Seq<char>) -> RoundModel {
    if person == "a"@ {
        RoundModel { couple_answer_a: Some(answer), ..round }
    } else {
        RoundModel { couple_answer_b: Some(answer), ..round }
    }
}

/// The couple's combined answer: the shared answer where both agree, else `"uneinig"`.
pub open spec fn couple_verdict(a: Seq<char>, b: Seq<char>) -> Seq<char> {
    if a == b {
        a
    } else {
        "uneinig"@
    }
}

/// Records a couple member's answer to round `round_id`; once both members
/// answered, the round is scored with their combined answer.
pub fn decide(round_id: u128, round: GameRound, person: &str, answer: String) -> (p: CoupleMemberPlan)
    ensures
        p.answered@ == with_member_answer(round@, person@, answer@),
        match (p.answered@.couple_answer_a, p.answered@.couple_answer_b) {
            (Some(a), Some(b)) => {
                &&& p.finalized matches Some(f) && f@ == (RoundModel {
                    couple_answer: Some(couple_verdict(a, b)),
                    status: RoundStatus::Scored,
                    ..p.answered@
                })
                &&& p.event matches Some(e) && e@ == (EventModel::CoupleAnswered {
                    round_id,
                    couple_answer: couple_verdict(a, b),
                    answer_a: Some(a),
                    answer_b: Some(b),
                })
                &&& p.response.both_answered
                &&& p.response.agree == Some(a == b)
                &&& p.response.final_answer.deep_view() == Some(
                    if a == b {
                        a
                    } else {
                        Seq::<char>::empty()
                    },
                )
            },
            _ => {
                &&& p.finalized is None
                &&& p.event is None
                &&& !p.response.both_answered
                &&& p.response.agree is None
                &&& p.response.final_answer is None
            },
        },
{
    let mut answered = round;
    if same_text(person, "a") {
        answered.couple_answer_a = Some(answer);
    } else {
        answered.couple_answer_b = Some(answer);
    }
    let verdict: Option<(bool, String, String)> = match (&answered.couple_answer_a, &answered.couple_answer_b) {
        (Some(a), Some(b)) => Some((same_text(a.as_str(), b.as_str()), a.clone(), b.clone())),
        _ => None,
    };
    match verdict {
        Some((agree, a, b)) => {
            let combined = if agree {
                a.clone()
            } else {
                owned("uneinig")
            };
            let final_answer = if agree {
                a.clone()
            } else {
                String::new()
            };
            let finalized = GameRound {
                id: answered.id,
                session_code: answered.session_code.clone(),
                question_id: answered.question_id,
                question_type: answered.question_type.clone(),
                question_text: answered.question_text.clone(),
                option_a: clone_opt(&answered.option_a),
                option_b: clone_opt(&answered.option_b),
                option_c: clone_opt(&answered.option_c),
                option_d: clone_opt(&answered.option_d),
                correct_answer: answered.correct_answer.clone(),
                ich_oder_du_id: answered.ich_oder_du_id,
                ich_oder_du_text: clone_opt(&answered.ich_oder_du_text),
                ich_oder_du_correct: clone_opt(&answered.ich_oder_du_correct),
                couple_answer: Some(combined.clone()),
                couple_answer_a: clone_opt(&answered.couple_answer_a),
                couple_answer_b: clone_opt(&answered.couple_answer_b),
                status: RoundStatus::Scored,
                round_number: answered.round_number,
                started_at: answered.started_at,
                closed_at: answered.closed_at,
            };
            let event = GameEvent::CoupleAnswered {
                round_id,
                couple_answer: combined,
                answer_a: Some(a),
                answer_b: Some(b),
            };
            CoupleMemberPlan {
                answered,
                finalized: Some(finalized),
                event: Some(event),
                response: CoupleIndividualAnswerResponse {
                    both_answered: true,
                    agree: Some(agree),
                    final_answer: Some(final_answer),
                },
            }
        },
        None => CoupleMemberPlan {
            answered,
            finalized: None,
            event: None,
            response: CoupleIndividualAnswerResponse {
                both_answered: false,
                agree: None,
                final_answer: None,
            },
        },
    }
}

} // verus!
