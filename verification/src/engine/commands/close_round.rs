use vstd::prelude::*;

use crate::engine::entity::{GameRound, GameState, GameStatus, RoundModel, RoundStatus, StateModel};
use crate::engine::events::{EventModel, GameEvent};
use crate::text::{clone_opt, same_text, text_or_empty};

verus! {

/// What closing a round answers.
#[derive(Debug)]
pub struct CloseRoundResult {
    pub correct_answer: String,
    pub has_ich_oder_du: bool,
    pub ich_oder_du_text: Option<String>,
}

/// What closing a round writes and publishes: the round and state to store,
/// the events to publish in order, and the answer.
#[derive(Debug)]
pub struct CloseRoundPlan {
    pub round: GameRound,
    pub state: GameState,
    pub events: Vec<GameEvent>,
    pub result: CloseRoundResult,
}

/// The answer that counts once a round closes. For an ich-oder-du question it is
/// the couple's answer, or nothing where the couple disagreed or has not answered.
pub open spec fn closing_answer(round: RoundModel) -> Seq<char> {
    if round.question_type == "ich_oder_du"@ {
        match round.couple_answer {
            Some(ca) => if ca != "uneinig"@ {
                ca
            } else {
                Seq::empty()
            },
            None => Seq::empty(),
        }
    } else {
        round.correct_answer
    }
}

/// The round once closed at `now`: with a paired ich-oder-du question it waits
/// for the couple, otherwise it is scored.
pub open spec fn closed_round(round: RoundModel, now: i64) -> RoundModel {
    RoundModel {
        closed_at: Some(now),
        correct_answer: closing_answer(round),
        status: if round.ich_oder_du_text is Some {
            RoundStatus::IchOderDu
        } else {
            RoundStatus::Scored
        },
        ..round
    }
}

/// The game state once the round closed at `now`.
pub open spec fn state_after_close(state: StateModel, round: RoundModel, now: i64) -> StateModel {
    StateModel {
        status: if round.ich_oder_du_text is Some {
            GameStatus::IchOderDu
        } else {
            GameStatus::Question
        },
        updated_at: now,
        ..state
    }
}

/// A closed round takes no more answers: it is never active again.
pub proof fn lemma_closed_round_takes_no_answers(round: RoundModel, now: i64)
    ensures
        closed_round(round, now).status != RoundStatus::Active,
        closed_round(round, now).closed_at == Some(now),
{
}

/// Closing a round whose own question is not an ich-oder-du question keeps and
/// reveals that round's correct answer, whether or not an ich-oder-du question is
/// paired with it.
pub proof fn lemma_quiz_round_reveals_its_answer(round: RoundModel, now: i64)
    requires
        round.question_type != "ich_oder_du"@,
    ensures
        closing_answer(round) == round.correct_answer,
        closed_round(round, now).correct_answer == round.correct_answer,
{
}

/// Closing an ich-oder-du question reveals the couple's answer where they agreed on
/// one, and nothing where they disagreed or have not answered.
pub proof fn lemma_couple_question_reveals_couple_answer(round: RoundModel, now: i64)
    requires
        round.question_type == "ich_oder_du"@,
    ensures
        forall|ca: Seq<char>|
            round.couple_answer == Some(ca) && ca != "uneinig"@ ==> closing_answer(round) == ca,
        round.couple_answer is None ==> closing_answer(round).len() == 0,
        round.couple_answer == Some("uneinig"@) ==> closing_answer(round).len() == 0,
{
}

/// Closes the current round `round_id` of a game at time `now`.
pub fn decide(state: GameState, round_id: u128, round: GameRound, now: i64) -> (p: CloseRoundPlan)
    ensures
        p.round@ == closed_round(round@, now),
        p.state@ == state_after_close(state@, round@, now),
        p.result.correct_answer@ == closing_answer(round@),
        p.result.has_ich_oder_du == round@.ich_oder_du_text is Some,
        p.result.ich_oder_du_text.deep_view() == round@.ich_oder_du_text,
        round@.ich_oder_du_text matches Some(text) ==> {
            &&& p.events@.len() == 2
            &&& p.events@[0]@ == EventModel::IchOderDuStarted {
                round_id,
                ich_oder_du_text: text,
            }
            &&& p.events@[1]@ == EventModel::RoundClosed {
                round_id,
                correct_answer: closing_answer(round@),
                closed_at: now,
            }
        },
        round@.ich_oder_du_text is None ==> {
            &&& p.events@.len() == 1
            &&& p.events@[0]@ == EventModel::RoundClosed {
                round_id,
                correct_answer: closing_answer(round@),
                closed_at: now,
            }
        },
{
    let mut round = round;
    round.closed_at = Some(now);
    let has_ich_oder_du = round.ich_oder_du_text.is_some();
    if same_text(round.question_type.as_str(), "ich_oder_du") {
        let effective = match &round.couple_answer {
            Some(ca) => if !same_text(ca.as_str(), "uneinig") {
                ca.clone()
            } else {
                String::new()
            },
            None => String::new(),
        };
        round.correct_answer = effective;
    }
    let mut state = state;
    state.updated_at = now;
    let mut events: Vec<GameEvent> = Vec::new();
    if has_ich_oder_du {
        round.status = RoundStatus::IchOderDu;
        state.status = GameStatus::IchOderDu;
        events.push(
            GameEvent::IchOderDuStarted {
                round_id,
                ich_oder_du_text: text_or_empty(&round.ich_oder_du_text),
            },
        );
        events.push(
            GameEvent::RoundClosed {
                round_id,
                correct_answer: round.correct_answer.clone(),
                closed_at: now,
            },
        );
        let result = CloseRoundResult {
            correct_answer: round.correct_answer.clone(),
            has_ich_oder_du: true,
            ich_oder_du_text: clone_opt(&round.ich_oder_du_text),
        };
        CloseRoundPlan { round, state, events, result }
    } else {
        round.status = RoundStatus::Scored;
        state.status = GameStatus::Question;
        events.push(
            GameEvent::RoundClosed {
                round_id,
                correct_answer: round.correct_answer.clone(),
                closed_at: now,
            },
        );
        let result = CloseRoundResult {
            correct_answer: round.correct_answer.clone(),
            has_ich_oder_du: false,
            ich_oder_du_text: None,
        };
        CloseRoundPlan { round, state, events, result }
    }
}

} // verus!
