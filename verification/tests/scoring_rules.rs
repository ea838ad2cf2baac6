use std::collections::HashSet;

use wedding_quest::scoring::calculator::{
    calculate_round_scores, keeps_lucky_boost, regrade_ich_oder_du, PlayerAnswerDto, TimeTier,
};
use wedding_quest::scoring::config::{
    default_bp, default_ct, default_tier1, default_tier2, falls_back_to_defaults, Config, ScoreRules,
};
use wedding_quest::scoring::entity::PlayerScore;
use wedding_quest::scoring::leaderboard::{assign_ranks, leaderboard};
use wedding_quest::scoring::lucky_boost::{
    choose_lucky_multiplier, lucky_boost_target, lucky_multiplier_of_draw, LuckyBoostTarget,
    LuckyMultiplier,
};
use wedding_quest::settings::ConfigError;

fn answer(id: u128, given: &str, correct: bool, kind: &str, secs: i64) -> PlayerAnswerDto {
    PlayerAnswerDto {
        player_id: id,
        player_name: format!("P{}", id),
        answer: given.to_string(),
        is_correct: correct,
        question_type: kind.to_string(),
        time_taken_seconds: secs,
    }
}

fn score(id: u128, total: i32) -> PlayerScore {
    PlayerScore {
        id: 1000 + id,
        session_code: "ABC".to_string(),
        player_id: id,
        player_name: format!("P{}", id),
        total_score: total,
        rounds_played: 2,
        last_round_score: 100,
        updated_at: 0,
    }
}

#[test]
fn score_config_defaults() {
    assert_eq!(default_tier1(), 10);
    assert_eq!(default_tier2(), 20);
    assert_eq!(default_ct(), 50);
    assert_eq!(default_bp(), 100);
    assert_eq!(
        ScoreRules::defaults(),
        ScoreRules { tier1_max_seconds: 10, tier2_max_seconds: 20, catchup_threshold_percent: 50, base_points: 100 }
    );
}

#[test]
fn score_config_falls_back_unless_success() {
    assert!(falls_back_to_defaults(404));
    assert!(falls_back_to_defaults(500));
    assert!(falls_back_to_defaults(302));
    assert!(!falls_back_to_defaults(200));
    assert!(!falls_back_to_defaults(204));
}

#[test]
fn ranks_share_ties() {
    assert_eq!(assign_ranks(&vec![300, 200, 200, 100]), vec![1, 2, 2, 4]);
    assert_eq!(assign_ranks(&vec![5, 5, 5]), vec![1, 1, 1]);
    assert_eq!(assign_ranks(&vec![]), Vec::<usize>::new());
    assert_eq!(assign_ranks(&vec![3, 2, 1]), vec![1, 2, 3]);
}

#[test]
fn leaderboard_lists_ranked_players() {
    let scores = vec![score(1, 300), score(2, 200), score(3, 200), score(4, 0)];
    let lb = leaderboard("ABC".to_string(), &scores);
    assert_eq!(lb.session_code, "ABC");
    let ranks: Vec<usize> = lb.scores.iter().map(|e| e.rank).collect();
    assert_eq!(ranks, vec![1, 2, 2, 4]);
    assert_eq!(lb.scores[2].player_id, 3);
    assert_eq!(lb.scores[2].player_name, "P3");
    assert_eq!(lb.scores[0].rounds_played, 2);
    assert_eq!(lb.scores[3].total_score, 0);
}

#[test]
fn lucky_boost_goes_to_sole_last_player() {
    assert_eq!(
        lucky_boost_target(false, &vec![300, 200, 100]),
        Some(LuckyBoostTarget { index: 2, gap_to_leader: 200 })
    );
    assert_eq!(lucky_boost_target(false, &vec![300, 100, 100]), None);
    assert_eq!(lucky_boost_target(false, &vec![100, 100]), None);
    assert_eq!(lucky_boost_target(false, &vec![100]), None);
    assert_eq!(lucky_boost_target(true, &vec![300, 200, 100]), None);
}

#[test]
fn lucky_multiplier_is_one_of_three() {
    for _ in 0..20 {
        let m = choose_lucky_multiplier();
        assert!([15, 20, 30].contains(&m.tenths()));
    }
    assert_eq!(LuckyMultiplier::OneAndHalf.tenths(), 15);
    assert_eq!(LuckyMultiplier::Double.tenths(), 20);
    assert_eq!(LuckyMultiplier::Triple.tenths(), 30);
}

#[test]
fn ich_oder_du_answers_are_graded_against_the_couple() {
    let answers = vec![
        answer(1, "braut", false, "ich_oder_du", 3),
        answer(2, "Braeutigam", true, "ich_oder_du", 3),
    ];
    let r = regrade_ich_oder_du(&answers, "BRAUT");
    assert!(r[0].is_correct);
    assert!(!r[1].is_correct);
    assert_eq!(r[1].answer, "Braeutigam");
    let r = regrade_ich_oder_du(&answers, "");
    assert!(!r[0].is_correct && !r[1].is_correct);
    let quiz = vec![answer(1, "A", true, "guest_quiz", 3)];
    let r = regrade_ich_oder_du(&quiz, "B");
    assert!(r[0].is_correct);
}

#[test]
fn round_scores_follow_tiers_and_bonuses() {
    let rules = ScoreRules::defaults();
    let answers = vec![
        answer(1, "B", true, "guest_quiz", 4),
        answer(2, "B", true, "guest_quiz", 10),
        answer(3, "A", false, "guest_quiz", 25),
        answer(4, "B", true, "guest_quiz", 20),
    ];
    let existing = vec![score(1, 400), score(2, 150), score(3, 300), score(4, 250)];
    let mut boosted = HashSet::new();
    boosted.insert(2u128);
    boosted.insert(3u128);
    let r = calculate_round_scores(&answers, &rules, &existing, &boosted);
    assert_eq!(r.len(), 4);
    assert_eq!((r[0].base_points, r[0].time_tier, r[0].catch_up, r[0].lucky_boost), (100, TimeTier::Tier1, false, false));
    assert_eq!((r[1].base_points, r[1].time_tier, r[1].catch_up, r[1].lucky_boost), (100, TimeTier::Tier2, true, true));
    assert_eq!((r[2].base_points, r[2].time_tier, r[2].catch_up, r[2].lucky_boost), (0, TimeTier::Tier3, false, false));
    assert_eq!((r[3].base_points, r[3].time_tier, r[3].catch_up), (100, TimeTier::Tier3, false));
    assert_eq!(r[3].player_name, "P4");
}

#[test]
fn no_lucky_boost_in_ich_oder_du_round_and_newcomers_catch_up() {
    let rules = ScoreRules::defaults();
    let answers = vec![answer(9, "Braut", true, "ich_oder_du", 2)];
    let existing = vec![score(1, 400)];
    let mut boosted = HashSet::new();
    boosted.insert(9u128);
    let r = calculate_round_scores(&answers, &rules, &existing, &boosted);
    assert!(!r[0].lucky_boost);
    assert!(r[0].catch_up);
    let r = calculate_round_scores(&answers, &rules, &Vec::new(), &boosted);
    assert!(!r[0].catch_up);
}

#[test]
fn player_score_accumulates_rounds() {
    let mut s = PlayerScore::new("ABC".to_string(), 5, "Eva".to_string());
    assert_eq!((s.total_score, s.rounds_played, s.last_round_score), (0, 0, 0));
    assert_eq!(s.player_id, 5);
    assert_eq!(s.player_name, "Eva");
    let id = s.id;
    s.apply_round_score(150);
    s.apply_round_score(0);
    assert_eq!((s.total_score, s.rounds_played, s.last_round_score), (150, 2, 0));
    assert_eq!(s.id, id);
    let other = PlayerScore::new("ABC".to_string(), 6, "Tom".to_string());
    assert_ne!(other.id, id);
}

#[test]
fn scoring_settings_need_a_database_url() {
    match Config::from_settings(None, None, None, None, None) {
        Err(e) => assert_eq!(e, ConfigError::MissingDatabaseUrl),
        Ok(_) => panic!("accepted"),
    }
    match Config::from_settings(Some("x".to_string()), Some("db".to_string()), None, None, None) {
        Err(e) => assert_eq!(e, ConfigError::InvalidPort),
        Ok(_) => panic!("accepted"),
    }
    let c = Config::from_settings(None, Some("postgres://db".to_string()), None, None, None).ok().expect("config");
    assert_eq!(c.port, 3004);
    assert_eq!(c.database_url, "postgres://db");
    assert_eq!(c.redis_url, "redis://localhost:6379");
    assert_eq!(c.engine_service_url, "http://localhost:3003");
    assert_eq!(c.session_service_url, "http://localhost:3002");
}

#[test]
fn lucky_draws_map_to_multipliers() {
    assert_eq!(lucky_multiplier_of_draw(0), LuckyMultiplier::OneAndHalf);
    assert_eq!(lucky_multiplier_of_draw(1), LuckyMultiplier::Double);
    assert_eq!(lucky_multiplier_of_draw(2), LuckyMultiplier::Triple);
}

#[test]
fn lucky_boost_is_used_up_only_by_the_answer_it_multiplied() {
    let rules = ScoreRules::defaults();
    let answers = vec![answer(1, "B", true, "guest_quiz", 4), answer(2, "A", false, "guest_quiz", 4)];
    let mut boosted = HashSet::new();
    boosted.insert(1u128);
    boosted.insert(2u128);
    let r = calculate_round_scores(&answers, &rules, &Vec::new(), &boosted);
    assert!(!keeps_lucky_boost(true, &r[0]));
    assert!(keeps_lucky_boost(true, &r[1]));
    assert!(!keeps_lucky_boost(false, &r[1]));
}
