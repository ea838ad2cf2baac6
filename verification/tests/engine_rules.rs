use wedding_quest::engine::commands::close_round;
use wedding_quest::engine::commands::couple_answer;
use wedding_quest::engine::commands::couple_member;
use wedding_quest::engine::commands::lookup::{require_current_round, require_round};
use wedding_quest::engine::commands::next_question::{self, NextQuestionResult, NextStep};
use wedding_quest::engine::commands::reset_game;
use wedding_quest::engine::commands::start_game;
use wedding_quest::engine::commands::submit_answer::{self, SubmitAnswerCommand, SubmitAnswerResult};
use wedding_quest::engine::dto::{requested_question_id, GameStateResponse, NextQuestionResponse};
use wedding_quest::engine::entity::{GameRound, GameState, GameStatus, RoundStatus};
use wedding_quest::engine::errors::{to_http_error, EngineError, HttpError};
use wedding_quest::engine::events::GameEvent;
use wedding_quest::engine::questions::{play_order_of, QuestionDto};

fn question(id: u128, kind: &str, text: &str, order_index: i32) -> QuestionDto {
    QuestionDto {
        id,
        question_type: kind.to_string(),
        text: text.to_string(),
        option_a: Some("A".to_string()),
        option_b: Some("B".to_string()),
        option_c: None,
        option_d: None,
        correct_answer: "B".to_string(),
        order_index,
        points: 100,
    }
}

fn round(kind: &str, iod_text: Option<&str>, couple: Option<&str>, status: RoundStatus) -> GameRound {
    GameRound {
        id: 7,
        session_code: "ABC".to_string(),
        question_id: 70,
        question_type: kind.to_string(),
        question_text: "Wer kocht?".to_string(),
        option_a: Some("Braut".to_string()),
        option_b: Some("Braeutigam".to_string()),
        option_c: None,
        option_d: None,
        correct_answer: "B".to_string(),
        ich_oder_du_id: iod_text.map(|_| 71),
        ich_oder_du_text: iod_text.map(|t| t.to_string()),
        ich_oder_du_correct: iod_text.map(|_| "Braut".to_string()),
        couple_answer: couple.map(|c| c.to_string()),
        couple_answer_a: None,
        couple_answer_b: None,
        status,
        round_number: 1,
        started_at: 1_000_000,
        closed_at: None,
    }
}

fn state(current: Option<u128>, number: i32, total: i32) -> GameState {
    GameState {
        session_code: "ABC".to_string(),
        status: GameStatus::Question,
        current_round_id: current,
        current_round_number: number,
        total_questions: total,
        updated_at: 5,
    }
}

#[test]
fn round_status_reads_back_its_text() {
    for s in [RoundStatus::Active, RoundStatus::IchOderDu, RoundStatus::Scored] {
        assert_eq!(RoundStatus::from_str(s.as_str()), Ok(s));
    }
    assert_eq!(RoundStatus::Active.as_str(), "active");
    assert_eq!(RoundStatus::IchOderDu.as_str(), "ich_oder_du");
    assert_eq!(RoundStatus::Scored.as_str(), "scored");
}

#[test]
fn round_status_refuses_unknown_text() {
    assert_eq!(RoundStatus::from_str("done"), Err("Unknown round status: done".to_string()));
    assert_eq!(RoundStatus::from_str("Active"), Err("Unknown round status: Active".to_string()));
}

#[test]
fn game_status_reads_back_its_text() {
    for s in [GameStatus::Waiting, GameStatus::Question, GameStatus::IchOderDu, GameStatus::Finished] {
        assert_eq!(GameStatus::from_str(s.as_str()), Ok(s));
    }
    assert_eq!(GameStatus::Finished.as_str(), "finished");
    assert_eq!(GameStatus::from_str("over"), Err("Unknown game status: over".to_string()));
}

#[test]
fn unknown_stored_game_status_reads_as_waiting() {
    assert_eq!(GameStatus::parse_or_waiting("bogus"), GameStatus::Waiting);
    assert_eq!(GameStatus::parse_or_waiting("question"), GameStatus::Question);
}

#[test]
fn lookups_report_missing_state_round_and_current_round() {
    match require_current_round(None) {
        Err(EngineError::NotFound(m)) => assert_eq!(m, "Game state not found"),
        other => panic!("unexpected {:?}", other),
    }
    match require_current_round(Some(state(None, 0, 3))) {
        Err(EngineError::BadRequest(m)) => assert_eq!(m, "No active round"),
        other => panic!("unexpected {:?}", other),
    }
    match require_current_round(Some(state(Some(7), 1, 3))) {
        Ok((s, id)) => {
            assert_eq!(id, 7);
            assert_eq!(s.current_round_number, 1);
        }
        other => panic!("unexpected {:?}", other),
    }
    match require_round(None) {
        Err(EngineError::NotFound(m)) => assert_eq!(m, "Round not found"),
        other => panic!("unexpected {:?}", other),
    }
    assert!(require_round(Some(round("guest_quiz", None, None, RoundStatus::Active))).is_ok());
}

#[test]
fn closing_a_plain_round_scores_it() {
    let p = close_round::decide(state(Some(7), 1, 3), 7, round("guest_quiz", None, None, RoundStatus::Active), 99);
    assert_eq!(p.round.status, RoundStatus::Scored);
    assert_eq!(p.round.closed_at, Some(99));
    assert_eq!(p.round.correct_answer, "B");
    assert_eq!(p.state.status, GameStatus::Question);
    assert_eq!(p.state.updated_at, 99);
    assert_eq!(p.result.correct_answer, "B");
    assert!(!p.result.has_ich_oder_du);
    assert_eq!(p.result.ich_oder_du_text, None);
    assert_eq!(p.events.len(), 1);
    match &p.events[0] {
        GameEvent::RoundClosed { round_id, correct_answer, closed_at } => {
            assert_eq!(*round_id, 7);
            assert_eq!(correct_answer, "B");
            assert_eq!(*closed_at, 99);
        }
        other => panic!("unexpected {:?}", other),
    }
}

#[test]
fn closing_a_paired_round_waits_for_the_couple() {
    let r = round("ich_oder_du", Some("Wer tanzt?"), Some("Braut"), RoundStatus::Active);
    let p = close_round::decide(state(Some(7), 1, 3), 7, r, 99);
    assert_eq!(p.round.status, RoundStatus::IchOderDu);
    assert_eq!(p.round.correct_answer, "Braut");
    assert_eq!(p.state.status, GameStatus::IchOderDu);
    assert!(p.result.has_ich_oder_du);
    assert_eq!(p.result.ich_oder_du_text, Some("Wer tanzt?".to_string()));
    assert_eq!(p.events.len(), 2);
    match &p.events[0] {
        GameEvent::IchOderDuStarted { round_id, ich_oder_du_text } => {
            assert_eq!(*round_id, 7);
            assert_eq!(ich_oder_du_text, "Wer tanzt?");
        }
        other => panic!("unexpected {:?}", other),
    }
    match &p.events[1] {
        GameEvent::RoundClosed { correct_answer, .. } => assert_eq!(correct_answer, "Braut"),
        other => panic!("unexpected {:?}", other),
    }
}

#[test]
fn disagreeing_couple_leaves_no_correct_answer() {
    let r = round("ich_oder_du", None, Some("uneinig"), RoundStatus::Active);
    let p = close_round::decide(state(Some(7), 1, 3), 7, r, 99);
    assert_eq!(p.result.correct_answer, "");
    let r = round("ich_oder_du", None, None, RoundStatus::Active);
    let p = close_round::decide(state(Some(7), 1, 3), 7, r, 99);
    assert_eq!(p.result.correct_answer, "");
}

#[test]
fn closed_round_no_longer_takes_answers() {
    let p = close_round::decide(state(Some(7), 1, 3), 7, round("guest_quiz", None, None, RoundStatus::Active), 99);
    let cmd = SubmitAnswerCommand {
        session_code: "ABC".to_string(),
        player_id: 1,
        player_name: "Anna".to_string(),
        answer: "B".to_string(),
    };
    let s = submit_answer::decide(cmd, 7, &p.round, 500, 100);
    assert_eq!(s.result, SubmitAnswerResult { accepted: false, is_correct: false });
    assert!(s.record.is_none());
}

#[test]
fn couple_answer_scores_the_round() {
    let r = round("ich_oder_du", Some("Wer tanzt?"), None, RoundStatus::IchOderDu);
    let p = couple_answer::decide(state(Some(7), 1, 3), 7, r, "Braut".to_string(), 42);
    assert_eq!(p.round.couple_answer, Some("Braut".to_string()));
    assert_eq!(p.round.status, RoundStatus::Scored);
    assert_eq!(p.state.status, GameStatus::Question);
    assert_eq!(p.state.updated_at, 42);
    match p.event {
        GameEvent::CoupleAnswered { round_id, couple_answer, answer_a, answer_b } => {
            assert_eq!(round_id, 7);
            assert_eq!(couple_answer, "Braut");
            assert_eq!(answer_a, None);
            assert_eq!(answer_b, None);
        }
        other => panic!("unexpected {:?}", other),
    }
}

#[test]
fn reset_keeps_number_of_questions() {
    let s = reset_game::decide("ABC", Some(state(Some(7), 2, 6)), 11);
    assert_eq!(s.session_code, "ABC");
    assert_eq!(s.status, GameStatus::Waiting);
    assert_eq!(s.current_round_id, None);
    assert_eq!(s.current_round_number, 0);
    assert_eq!(s.total_questions, 6);
    assert_eq!(s.updated_at, 11);
    let s = reset_game::decide("XYZ", None, 11);
    assert_eq!(s.total_questions, 0);
    assert_eq!(s.session_code, "XYZ");
}

#[test]
fn submitted_answer_is_compared_ignoring_case() {
    let cmd = SubmitAnswerCommand {
        session_code: "ABC".to_string(),
        player_id: 3,
        player_name: "Ben".to_string(),
        answer: "b".to_string(),
    };
    let r = round("guest_quiz", None, None, RoundStatus::Active);
    let p = submit_answer::decide(cmd, 7, &r, 500, 13_600_000);
    assert_eq!(p.result, SubmitAnswerResult { accepted: true, is_correct: true });
    let rec = p.record.expect("record");
    assert_eq!(rec.id, 500);
    assert_eq!(rec.round_id, 7);
    assert_eq!(rec.player_id, 3);
    assert_eq!(rec.player_name, "Ben");
    assert_eq!(rec.answer, "b");
    assert!(rec.is_correct);
    assert_eq!(rec.answered_at, 13_600_000);
    assert_eq!(rec.time_taken_seconds, 12);
}

#[test]
fn wrong_answer_and_clock_skew() {
    let cmd = SubmitAnswerCommand {
        session_code: "ABC".to_string(),
        player_id: 3,
        player_name: "Ben".to_string(),
        answer: "A".to_string(),
    };
    let r = round("guest_quiz", None, None, RoundStatus::Active);
    let p = submit_answer::decide(cmd, 7, &r, 500, 500_000);
    assert_eq!(p.result, SubmitAnswerResult { accepted: true, is_correct: false });
    assert_eq!(p.record.expect("record").time_taken_seconds, 0);
}

fn sample_questions() -> Vec<QuestionDto> {
    vec![
        question(1, "guest_quiz", "G3", 3),
        question(2, "ich_oder_du", "I2", 2),
        question(3, "guest_quiz", "G1", 1),
        question(4, "ich_oder_du", "I1", 1),
        question(5, "guest_quiz", "G2", 2),
        question(6, "guest_quiz", "G1b", 1),
    ]
}

#[test]
fn play_order_sorts_stably_by_order_index() {
    let qs = sample_questions();
    assert_eq!(play_order_of(&qs, "guest_quiz"), vec![2, 5, 4, 0]);
    assert_eq!(play_order_of(&qs, "ich_oder_du"), vec![3, 1]);
    assert_eq!(play_order_of(&qs, "other"), Vec::<usize>::new());
}

#[test]
fn start_game_begins_with_first_guest_question() {
    let qs = sample_questions();
    let p = start_game::decide("ABC", &qs, None, 900, 77).ok().expect("plan");
    assert_eq!(p.round.id, 900);
    assert_eq!(p.round.question_id, 3);
    assert_eq!(p.round.question_text, "G1");
    assert_eq!(p.round.round_number, 1);
    assert_eq!(p.round.status, RoundStatus::Active);
    assert_eq!(p.round.started_at, 77);
    assert_eq!(p.round.ich_oder_du_id, None);
    assert_eq!(p.state.current_round_id, Some(900));
    assert_eq!(p.state.current_round_number, 1);
    assert_eq!(p.state.total_questions, 3);
    assert_eq!(p.state.status, GameStatus::Question);
    assert_eq!(p.result.question_text, "G1");
    assert_eq!(p.result.correct_answer, "B");
    assert_eq!(p.result.total_questions, 3);
    match p.event {
        GameEvent::QuestionStarted { round_id, question_id, round_number, started_at, .. } => {
            assert_eq!((round_id, question_id, round_number, started_at), (900, 3, 1, 77));
        }
        other => panic!("unexpected {:?}", other),
    }
}

#[test]
fn start_game_with_requested_question() {
    let qs = sample_questions();
    let p = start_game::decide("ABC", &qs, Some(4), 900, 77).ok().expect("plan");
    assert_eq!(p.round.question_id, 4);
    assert_eq!(p.round.question_text, "I1");
    match start_game::decide("ABC", &qs, Some(42), 900, 77) {
        Err(EngineError::NotFound(m)) => assert_eq!(m, "Requested question not found"),
        other => panic!("unexpected {:?}", other.is_ok()),
    }
}

#[test]
fn start_game_refuses_sessions_without_questions() {
    match start_game::decide("ABC", &Vec::new(), None, 900, 77) {
        Err(EngineError::BadRequest(m)) => assert_eq!(m, "No questions found for this session"),
        other => panic!("unexpected {:?}", other.is_ok()),
    }
    let only_couple = vec![question(2, "ich_oder_du", "I2", 2)];
    match start_game::decide("ABC", &only_couple, None, 900, 77) {
        Err(EngineError::BadRequest(m)) => assert_eq!(m, "No questions available"),
        other => panic!("unexpected {:?}", other.is_ok()),
    }
    let p = start_game::decide("ABC", &only_couple, Some(2), 900, 77).ok().expect("plan");
    assert_eq!(p.state.total_questions, 0);
}

#[test]
fn next_question_ends_after_last_round() {
    match next_question::step("ABC", &state(Some(7), 3, 3), 50) {
        NextStep::Finish { state, event } => {
            assert_eq!(state.status, GameStatus::Finished);
            assert_eq!(state.current_round_id, None);
            assert_eq!(state.current_round_number, 3);
            assert_eq!(state.updated_at, 50);
            match event {
                GameEvent::GameEnded { session_code } => assert_eq!(session_code, "ABC"),
                other => panic!("unexpected {:?}", other),
            }
        }
        other => panic!("unexpected {:?}", other),
    }
    assert!(matches!(next_question::step("ABC", &state(Some(7), 2, 3), 50), NextStep::FetchQuestions));
}

#[test]
fn next_question_pairs_guest_and_couple_questions() {
    let qs = sample_questions();
    let p = next_question::next_round("ABC", &state(Some(7), 1, 3), &qs, 901, 60).ok().expect("plan");
    assert_eq!(p.round.question_id, 6);
    assert_eq!(p.round.round_number, 2);
    assert_eq!(p.round.ich_oder_du_id, Some(2));
    assert_eq!(p.round.ich_oder_du_text, Some("I2".to_string()));
    assert_eq!(p.round.ich_oder_du_correct, Some("B".to_string()));
    assert_eq!(p.state.current_round_number, 2);
    assert_eq!(p.state.current_round_id, Some(901));
    match p.result {
        NextQuestionResult::NextRound { round_id, question_text, round_number, total_questions, .. } => {
            assert_eq!((round_id, round_number, total_questions), (901, 2, 3));
            assert_eq!(question_text, "G1b");
        }
        NextQuestionResult::GameOver => panic!("game over"),
    }
    let p = next_question::next_round("ABC", &state(Some(7), 3, 5), &qs, 902, 60).ok().expect("plan");
    assert_eq!(p.round.question_text, "G3");
    assert_eq!(p.round.ich_oder_du_id, None);
}

#[test]
fn next_question_past_the_list_is_refused() {
    let qs = sample_questions();
    for number in [4, -1] {
        match next_question::next_round("ABC", &state(Some(7), number, 9), &qs, 902, 60) {
            Err(EngineError::BadRequest(m)) => assert_eq!(m, "No question at that index"),
            other => panic!("unexpected {:?}", other.is_ok()),
        }
    }
}

#[test]
fn couple_members_agreeing_score_the_round() {
    let r = round("ich_oder_du", Some("Wer tanzt?"), None, RoundStatus::IchOderDu);
    let p = couple_member::decide(7, r, "a", "Braut".to_string());
    assert_eq!(p.answered.couple_answer_a, Some("Braut".to_string()));
    assert!(p.finalized.is_none());
    assert!(p.event.is_none());
    assert!(!p.response.both_answered);
    let p = couple_member::decide(7, p.answered, "b", "Braut".to_string());
    let f = p.finalized.expect("finalized");
    assert_eq!(f.couple_answer, Some("Braut".to_string()));
    assert_eq!(f.status, RoundStatus::Scored);
    assert!(p.response.both_answered);
    assert_eq!(p.response.agree, Some(true));
    assert_eq!(p.response.final_answer, Some("Braut".to_string()));
    match p.event.expect("event") {
        GameEvent::CoupleAnswered { couple_answer, answer_a, answer_b, .. } => {
            assert_eq!(couple_answer, "Braut");
            assert_eq!(answer_a, Some("Braut".to_string()));
            assert_eq!(answer_b, Some("Braut".to_string()));
        }
        other => panic!("unexpected {:?}", other),
    }
}

#[test]
fn couple_members_disagreeing_mark_the_round() {
    let r = round("ich_oder_du", Some("Wer tanzt?"), None, RoundStatus::IchOderDu);
    let p = couple_member::decide(7, r, "b", "Braeutigam".to_string());
    assert_eq!(p.answered.couple_answer_b, Some("Braeutigam".to_string()));
    let p = couple_member::decide(7, p.answered, "a", "Braut".to_string());
    assert_eq!(p.finalized.expect("finalized").couple_answer, Some("uneinig".to_string()));
    assert_eq!(p.response.agree, Some(false));
    assert_eq!(p.response.final_answer, Some(String::new()));
}

#[test]
fn errors_map_to_http_answers() {
    match to_http_error(EngineError::NotFound("Round not found".to_string())) {
        HttpError::NotFound { resource } => assert_eq!(resource, "Round not found"),
        other => panic!("unexpected {:?}", other),
    }
    match to_http_error(EngineError::BadRequest("x".to_string())) {
        HttpError::BadRequest { message } => assert_eq!(message, "x"),
        other => panic!("unexpected {:?}", other),
    }
    match to_http_error(EngineError::Conflict("y".to_string())) {
        HttpError::Conflict { message } => assert_eq!(message, "y"),
        other => panic!("unexpected {:?}", other),
    }
    match to_http_error(EngineError::Database("boom".to_string())) {
        HttpError::Internal { message } => assert_eq!(message, "Database error: boom"),
        other => panic!("unexpected {:?}", other),
    }
    match to_http_error(EngineError::Cache("down".to_string())) {
        HttpError::Internal { message } => assert_eq!(message, "Cache error: down"),
        other => panic!("unexpected {:?}", other),
    }
    assert_eq!(EngineError::Http("t".to_string()).message(), "HTTP client error: t");
    assert_eq!(EngineError::Internal("i".to_string()).message(), "Internal error: i");
}

#[test]
fn state_response_shows_current_question() {
    let s = state(Some(7), 1, 3);
    let r = round("guest_quiz", None, None, RoundStatus::Active);
    let v = GameStateResponse::from_state(&s, Some(&r));
    assert_eq!(v.status, "question");
    assert_eq!(v.current_round_id, Some(7));
    assert_eq!(v.question_text, Some("Wer kocht?".to_string()));
    assert_eq!(v.option_a, Some("Braut".to_string()));
    assert_eq!(v.started_at, Some(1_000_000));
    let v = GameStateResponse::from_state(&s, None);
    assert_eq!(v.question_type, None);
    assert_eq!(v.started_at, None);
    assert!(NextQuestionResponse::from_result(NextQuestionResult::GameOver).is_none());
}

#[test]
fn requested_question_reads_uuid_text() {
    assert_eq!(
        requested_question_id(Some("67e55044-10b1-426f-9247-bb680e5fe0c8")),
        Some(0x67e5504410b1426f9247bb680e5fe0c8)
    );
    assert_eq!(requested_question_id(Some("not-a-uuid")), None);
    assert_eq!(requested_question_id(None), None);
}
