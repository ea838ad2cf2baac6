use vstd::prelude::*;

verus! {

/// An event the engine publishes about a game. Identifiers are UUID values,
/// times microseconds since the Unix epoch.
#[derive(Debug)]
pub enum GameEvent {
    QuestionStarted {
        round_id: u128,
        question_id: u128,
        question_type: String,
        question_text: String,
        option_a: Option<String>,
        option_b: Option<String>,
        option_c: Option<String>,
        option_d: Option<String>,
        correct_answer: String,
        started_at: i64,
        round_number: i32,
    },
    RoundClosed { round_id: u128, correct_answer: String, closed_at: i64 },
    IchOderDuStarted { round_id: u128, ich_oder_du_text: String },
    /// The couple's answer; the two members' own answers are carried where both answered.
    CoupleAnswered {
        round_id: u128,
        couple_answer: String,
        answer_a: Option<String>,
        answer_b: Option<String>,
    },
    GameEnded { session_code: String },
}

/// What an event is, with its texts as character sequences.
pub enum EventModel {
    QuestionStarted {
        round_id: u128,
        question_id: u128,
        question_type: Seq<char>,
        question_text: Seq<char>,
        option_a: Option<Seq<char>>,
        option_b: Option<Seq<char>>,
        option_c: Option<Seq<char>>,
        option_d: Option<Seq<char>>,
        correct_answer: Seq<char>,
        started_at: i64,
        round_number: i32,
    },
    RoundClosed { round_id: u128, correct_answer: Seq<char>, closed_at: i64 },
    IchOderDuStarted { round_id: u128, ich_oder_du_text: Seq<char> },
    CoupleAnswered {
        round_id: u128,
        couple_answer: Seq<char>,
        answer_a: Option<Seq<char>>,
        answer_b: Option<Seq<char>>,
    },
    GameEnded { session_code: Seq<char> },
}

impl View for GameEvent {
    type V = EventModel;

    open spec fn view(&self) -> EventModel {
        match self {
            GameEvent::QuestionStarted {
                round_id,
                question_id,
                question_type,
                question_text,
                option_a,
                option_b,
                option_c,
                option_d,
                correct_answer,
                started_at,
                round_number,
            } => EventModel::QuestionStarted {
                round_id: *round_id,
                question_id: *question_id,
                question_type: question_type@,
                question_text: question_text@,
                option_a: option_a.deep_view(),
                option_b: option_b.deep_view(),
                option_c: option_c.deep_view(),
                option_d: option_d.deep_view(),
                correct_answer: correct_answer@,
                started_at: *started_at,
                round_number: *round_number,
            },
            GameEvent::RoundClosed { round_id, correct_answer, closed_at } => EventModel::RoundClosed {
                round_id: *round_id,
                correct_answer: correct_answer@,
                closed_at: *closed_at,
            },
            GameEvent::IchOderDuStarted { round_id, ich_oder_du_text } =>
                EventModel::IchOderDuStarted {
                round_id: *round_id,
                ich_oder_du_text: ich_oder_du_text@,
            },
            GameEvent::CoupleAnswered { round_id, couple_answer, answer_a, answer_b } =>
                EventModel::CoupleAnswered {
                round_id: *round_id,
                couple_answer: couple_answer@,
                answer_a: answer_a.deep_view(),
                answer_b: answer_b.deep_view(),
            },
            GameEvent::GameEnded { session_code } => EventModel::GameEnded {
                session_code: session_code@,
            },
        }
    }
}

} // verus!
