use vstd::prelude::*;

use crate::text::{join, same_text};

verus! {

/// Status of an individual game round.
#[derive(Debug, Clone, Copy, PartialEq, Eq, Structural)]
pub enum RoundStatus {
    /// Accepting player answers.
    Active,
    /// Admin closed; waiting for the couple's answer when an ich-oder-du question is paired.
    IchOderDu,
    /// Round fully scored; ready for the next question.
    Scored,
}

/// The stored text of a round status.
pub open spec fn round_status_text(s: RoundStatus) -> Seq<char> {
    match s {
        RoundStatus::Active => "active"@,
        RoundStatus::IchOderDu => "ich_oder_du"@,
        RoundStatus::Scored => "scored"@,
    }
}

impl RoundStatus {
    pub fn as_str(&self) -> (r: &'static str)
        ensures
            r@ == round_status_text(*self),
    {
        match self {
            RoundStatus::Active => "active",
            RoundStatus::IchOderDu => "ich_oder_du",
            RoundStatus::Scored => "scored",
        }
    }

    /// Reads a stored round status; any other text is refused with a message naming it.
    pub fn from_str(s: &str) -> (r: Result<RoundStatus, String>)
        ensures
            match r {
                Ok(st) => round_status_text(st) == s@,
                Err(msg) => {
                    &&& forall|st: RoundStatus| round_status_text(st) != s@
                    &&& msg@ == "Unknown round status: "@ + s@
                },
            },
    {
        if same_text(s, "active") {
            Ok(RoundStatus::Active)
        } else if same_text(s, "ich_oder_du") {
            Ok(RoundStatus::IchOderDu)
        } else if same_text(s, "scored") {
            Ok(RoundStatus::Scored)
        } else {
            Err(join("Unknown round status: ", s))
        }
    }
}

/// Overall game status.
#[derive(Debug, Clone, Copy, PartialEq, Eq, Structural)]
pub enum GameStatus {
    Waiting,
    Question,
    IchOderDu,
    Finished,
}

/// The stored text of a game status.
pub open spec fn game_status_text(s: GameStatus) -> Seq<char> {
    match s {
        GameStatus::Waiting => "waiting"@,
        GameStatus::Question => "question"@,
        GameStatus::IchOderDu => "ich_oder_du"@,
        GameStatus::Finished => "finished"@,
    }
}

impl GameStatus {
    pub fn as_str(&self) -> (r: &'static str)
        ensures
            r@ == game_status_text(*self),
    {
        match self {
            GameStatus::Waiting => "waiting",
            GameStatus::Question => "question",
            GameStatus::IchOderDu => "ich_oder_du",
            GameStatus::Finished => "finished",
        }
    }

    /// Reads a stored game status; any other text is refused with a message naming it.
    pub fn from_str(s: &str) -> (r: Result<GameStatus, String>)
        ensures
            match r {
                Ok(st) => game_status_text(st) == s@,
                Err(msg) => {
                    &&& forall|st: GameStatus| game_status_text(st) != s@
                    &&& msg@ == "Unknown game status: "@ + s@
                },
            },
    {
        if same_text(s, "waiting") {
            Ok(GameStatus::Waiting)
        } else if same_text(s, "question") {
            Ok(GameStatus::Question)
        } else if same_text(s, "ich_oder_du") {
            Ok(GameStatus::IchOderDu)
        } else if same_text(s, "finished") {
            Ok(GameStatus::Finished)
        } else {
            Err(join("Unknown game status: ", s))
        }
    }

    /// Reads a stored game status the way the state store does: unknown text reads as `Waiting`.
    pub fn parse_or_waiting(s: &str) -> (r: GameStatus)
        ensures
            game_status_text(r) == s@ || (r == GameStatus::Waiting && forall|st: GameStatus|
                game_status_text(st) != s@),
    {
        match GameStatus::from_str(s) {
            Ok(st) => st,
            Err(_) => GameStatus::Waiting,
        }
    }
}

/// Distinct round statuses are stored as distinct texts, so reading back the text
/// of a status gives that status.
pub proof fn lemma_round_status_text_distinct(a: RoundStatus, b: RoundStatus)
    ensures
        round_status_text(a) == round_status_text(b) ==> a == b,
{
    reveal_strlit("active");
    reveal_strlit("ich_oder_du");
    reveal_strlit("scored");
    if a != b {
        assert(round_status_text(a).len() != round_status_text(b).len() || round_status_text(a)[0]
            != round_status_text(b)[0]);
    }
}

/// Distinct game statuses are stored as distinct texts, so reading back the text
/// of a status gives that status.
pub proof fn lemma_game_status_text_distinct(a: GameStatus, b: GameStatus)
    ensures
        game_status_text(a) == game_status_text(b) ==> a == b,
{
    reveal_strlit("waiting");
    reveal_strlit("question");
    reveal_strlit("ich_oder_du");
    reveal_strlit("finished");
    if a != b {
        assert(game_status_text(a)[0] != game_status_text(b)[0]);
    }
}

/// What a round is, with its texts as character sequences and times in microseconds.
pub struct RoundModel {
    pub id: u128,
    pub session_code: Seq<char>,
    pub question_id: u128,
    pub question_type: Seq<char>,
    pub question_text: Seq<char>,
    pub option_a: Option<Seq<char>>,
    pub option_b: Option<Seq<char>>,
    pub option_c: Option<Seq<char>>,
    pub option_d: Option<Seq<char>>,
    pub correct_answer: Seq<char>,
    pub ich_oder_du_id: Option<u128>,
    pub ich_oder_du_text: Option<Seq<char>>,
    pub ich_oder_du_correct: Option<Seq<char>>,
    pub couple_answer: Option<Seq<char>>,
    pub couple_answer_a: Option<Seq<char>>,
    pub couple_answer_b: Option<Seq<char>>,
    pub status: RoundStatus,
    pub round_number: i32,
    pub started_at: i64,
    pub closed_at: Option<i64>,
}

/// A single game round. Identifiers are UUIDs held as their 128-bit value;
/// times are microseconds since the Unix epoch.
#[derive(Debug)]
pub struct GameRound {
    pub id: u128,
    pub session_code: String,
    pub question_id: u128,
    pub question_type: String,
    pub question_text: String,
    pub option_a: Option<String>,
    pub option_b: Option<String>,
    pub option_c: Option<String>,
    pub option_d: Option<String>,
    pub correct_answer: String,
    /// Paired ich-oder-du question id (if any).
    pub ich_oder_du_id: Option<u128>,
    /// Paired ich-oder-du question text (if any).
    pub ich_oder_du_text: Option<String>,
    /// Correct answer for the ich-oder-du phase (if any).
    pub ich_oder_du_correct: Option<String>,
    /// Combined answer of the couple during the ich-oder-du phase.
    pub couple_answer: Option<String>,
    /// Answer of the first couple member.
    pub couple_answer_a: Option<String>,
    /// Answer of the second couple member.
    pub couple_answer_b: Option<String>,
    pub status: RoundStatus,
    pub round_number: i32,
    pub started_at: i64,
    pub closed_at: Option<i64>,
}

impl View for GameRound {
    type V = RoundModel;

    open spec fn view(&self) -> RoundModel {
        RoundModel {
            id: self.id,
            session_code: self.session_code@,
            question_id: self.question_id,
            question_type: self.question_type@,
            question_text: self.question_text@,
            option_a: self.option_a.deep_view(),
            option_b: self.option_b.deep_view(),
            option_c: self.option_c.deep_view(),
            option_d: self.option_d.deep_view(),
            correct_answer: self.correct_answer@,
            ich_oder_du_id: self.ich_oder_du_id,
            ich_oder_du_text: self.ich_oder_du_text.deep_view(),
            ich_oder_du_correct: self.ich_oder_du_correct.deep_view(),
            couple_answer: self.couple_answer.deep_view(),
            couple_answer_a: self.couple_answer_a.deep_view(),
            couple_answer_b: self.couple_answer_b.deep_view(),
            status: self.status,
            round_number: self.round_number,
            started_at: self.started_at,
            closed_at: self.closed_at,
        }
    }
}

/// What a player's answer is, with its texts as character sequences.
pub struct AnswerModel {
    pub id: u128,
    pub round_id: u128,
    pub player_id: u128,
    pub player_name: Seq<char>,
    pub answer: Seq<char>,
    pub is_correct: bool,
    pub answered_at: i64,
    pub time_taken_seconds: i64,
}

/// A player's answer in a round; the time taken is counted in whole seconds.
#[derive(Debug)]
pub struct PlayerAnswer {
    pub id: u128,
    pub round_id: u128,
    pub player_id: u128,
    pub player_name: String,
    pub answer: String,
    pub is_correct: bool,
    pub answered_at: i64,
    pub time_taken_seconds: i64,
}

impl View for PlayerAnswer {
    type V = AnswerModel;

    open spec fn view(&self) -> AnswerModel {
        AnswerModel {
            id: self.id,
            round_id: self.round_id,
            player_id: self.player_id,
            player_name: self.player_name@,
            answer: self.answer@,
            is_correct: self.is_correct,
            answered_at: self.answered_at,
            time_taken_seconds: self.time_taken_seconds,
        }
    }
}

/// What the game state of a session is.
pub struct StateModel {
    pub session_code: Seq<char>,
    pub status: GameStatus,
    pub current_round_id: Option<u128>,
    pub current_round_number: i32,
    pub total_questions: i32,
    pub updated_at: i64,
}

/// The overall game state of a session.
#[derive(Debug)]
pub struct GameState {
    pub session_code: String,
    pub status: GameStatus,
    pub current_round_id: Option<u128>,
    pub current_round_number: i32,
    pub total_questions: i32,
    pub updated_at: i64,
}

impl View for GameState {
    type V = StateModel;

    open spec fn view(&self) -> StateModel {
        StateModel {
            session_code: self.session_code@,
            status: self.status,
            current_round_id: self.current_round_id,
            current_round_number: self.current_round_number,
            total_questions: self.total_questions,
            updated_at: self.updated_at,
        }
    }
}

} // verus!
