use vstd::prelude::*;
use std::collections::HashSet;

use crate::scoring::config::ScoreRules;
use crate::scoring::entity::PlayerScore;
use crate::text::{same_text, to_lower, unicode_lower};

verus! {

broadcast use vstd::std_specs::hash::group_hash_axioms;

/// A player's answer to a round, as the engine lists it for scoring.
#[derive(Debug)]
pub struct PlayerAnswerDto {
    pub player_id: u128,
    pub player_name: String,
    pub answer: String,
    pub is_correct: bool,
    pub question_type: String,
    /// Whole seconds the player took to answer.
    pub time_taken_seconds: i64,
}

/// How a player's answer in one round is scored.
#[derive(Debug)]
pub struct RoundScoreResult {
    pub player_id: u128,
    pub player_name: String,
    pub base_points: i32,
    pub time_tier: TimeTier,
    /// The catch-up bonus multiplies this answer.
    pub catch_up: bool,
    /// The player's pending Lucky Boost multiplies this answer, and is used up by it.
    pub lucky_boost: bool,
    pub is_correct: bool,
}

/// A round counts as an ich-oder-du round when its first answer is to an ich-oder-du question.
pub open spec fn is_ich_oder_du_round(answers: Seq<PlayerAnswerDto>) -> bool {
    answers.len() > 0 && answers[0].question_type@ == "ich_oder_du"@
}

/// Whether a guest's answer to an ich-oder-du question is right: the couple agreed
/// on `couple_answer` (it is not empty) and the guest picked it, ignoring case.
pub open spec fn matches_couple(given: Seq<char>, couple_answer: Seq<char>) -> bool {
    couple_answer.len() > 0 && unicode_lower(given) == unicode_lower(couple_answer)
}

/// Whether the answers are those of an ich-oder-du round.
pub fn is_ich_oder_du(answers: &Vec<PlayerAnswerDto>) -> (r: bool)
    ensures
        r == is_ich_oder_du_round(answers@),
{
    answers.len() > 0 && same_text(answers[0].question_type.as_str(), "ich_oder_du")
}

/// Grades the answers of an ich-oder-du round against the couple's answer as the
/// closing event gives it; answers of other rounds keep their grade.
pub fn regrade_ich_oder_du(answers: &Vec<PlayerAnswerDto>, couple_answer: &str) -> (r: Vec<
    PlayerAnswerDto,
>)
    ensures
        r@.len() == answers@.len(),
        forall|i: int|
            #![trigger r@[i]]
            0 <= i < r@.len() ==> {
                &&& r@[i].player_id == answers@[i].player_id
                &&& r@[i].player_name == answers@[i].player_name
                &&& r@[i].answer == answers@[i].answer
                &&& r@[i].question_type == answers@[i].question_type
                &&& r@[i].time_taken_seconds == answers@[i].time_taken_seconds
                &&& r@[i].is_correct == if is_ich_oder_du_round(answers@) {
                    matches_couple(answers@[i].answer@, couple_answer@)
                } else {
                    answers@[i].is_correct
                }
            },
{
    let iod = is_ich_oder_du(answers);
    let couple_lower = to_lower(couple_answer);
    let couple_empty = couple_answer.unicode_len() == 0;
    let mut out: Vec<PlayerAnswerDto> = Vec::new();
    let mut i: usize = 0;
    while i < answers.len()
        invariant
            i <= answers@.len(),
            out@.len() == i,
            iod == is_ich_oder_du_round(answers@),
            couple_lower@ == unicode_lower(couple_answer@),
            couple_empty == (couple_answer@.len() == 0),
            forall|j: int|
                #![trigger out@[j]]
                0 <= j < i ==> {
                    &&& out@[j].player_id == answers@[j].player_id
                    &&& out@[j].player_name == answers@[j].player_name
                    &&& out@[j].answer == answers@[j].answer
                    &&& out@[j].question_type == answers@[j].question_type
                    &&& out@[j].time_taken_seconds == answers@[j].time_taken_seconds
                    &&& out@[j].is_correct == if iod {
                        matches_couple(answers@[j].answer@, couple_answer@)
                    } else {
                        answers@[j].is_correct
                    }
                },
        decreases answers@.len() - i,
    {
        let a = &answers[i];
        let is_correct = if iod {
            if couple_empty {
                false
            } else {
                to_lower(a.answer.as_str()) == couple_lower
            }
        } else {
            a.is_correct
        };
        out.push(
            PlayerAnswerDto {
                player_id: a.player_id,
                player_name: a.player_name.clone(),
                answer: a.answer.clone(),
                is_correct,
                question_type: a.question_type.clone(),
                time_taken_seconds: a.time_taken_seconds,
            },
        );
        i = i + 1;
    }
    out
}

/// How fast an answer came, by the session's answer-time tiers.
#[derive(Debug, Clone, Copy, PartialEq, Eq, Structural)]
pub enum TimeTier {
    /// Under `tier1_max_seconds` whole seconds.
    Tier1,
    /// Under `tier2_max_seconds` whole seconds.
    Tier2,
    Tier3,
}

/// The tier of an answer given after `seconds` whole seconds.
pub open spec fn time_tier(rules: ScoreRules, seconds: i64) -> TimeTier {
    if seconds < rules.tier1_max_seconds {
        TimeTier::Tier1
    } else if seconds < rules.tier2_max_seconds {
        TimeTier::Tier2
    } else {
        TimeTier::Tier3
    }
}

/// With the tier bounds in order, a faster answer never lands in a slower tier.
pub proof fn lemma_faster_answer_never_slower_tier(rules: ScoreRules, fast: i64, slow: i64)
    requires
        rules.tier1_max_seconds <= rules.tier2_max_seconds,
        fast <= slow,
    ensures
        time_tier(rules, slow) == TimeTier::Tier1 ==> time_tier(rules, fast) == TimeTier::Tier1,
        time_tier(rules, slow) == TimeTier::Tier2 ==> time_tier(rules, fast) != TimeTier::Tier3,
{
}

/// A player's total before the round: that of their first entry in `existing`, or 0.
pub open spec fn total_before(existing: Seq<PlayerScore>, player_id: u128) -> int
    decreases existing.len(),
{
    if existing.len() == 0 {
        0
    } else if existing[0].player_id == player_id {
        existing[0].total_score as int
    } else {
        total_before(existing.drop_first(), player_id)
    }
}

/// The leader's total before the round (0 when nobody has a score yet).
pub open spec fn leader_total(existing: Seq<PlayerScore>) -> int
    decreases existing.len(),
{
    if existing.len() == 0 {
        0
    } else {
        let rest = leader_total(existing.drop_first());
        if existing.len() == 1 || existing[0].total_score >= rest {
            existing[0].total_score as int
        } else {
            rest
        }
    }
}

/// A player catches up when their total is below `catchup_threshold_percent` percent
/// of the leader's total.
pub open spec fn catches_up(rules: ScoreRules, existing: Seq<PlayerScore>, player_id: u128) -> bool {
    total_before(existing, player_id) * 100 < rules.catchup_threshold_percent * leader_total(existing)
}

/// How one answer is scored: its base points (the session's points when right,
/// else none), its time tier, and which bonuses multiply a right answer: the
/// catch-up bonus for a player far behind, and a pending Lucky Boost outside
/// ich-oder-du rounds.
pub open spec fn scores_answer(
    r: RoundScoreResult,
    answers: Seq<PlayerAnswerDto>,
    i: int,
    rules: ScoreRules,
    existing: Seq<PlayerScore>,
    boosted: Set<u128>,
) -> bool {
    let a = answers[i];
    &&& r.player_id == a.player_id
    &&& r.player_name == a.player_name
    &&& r.is_correct == a.is_correct
    &&& r.base_points == if a.is_correct {
        rules.base_points
    } else {
        0
    }
    &&& r.time_tier == time_tier(rules, a.time_taken_seconds)
    &&& r.catch_up == (a.is_correct && catches_up(rules, existing, a.player_id))
    &&& r.lucky_boost == (a.is_correct && !is_ich_oder_du_round(answers) && boosted.contains(
        a.player_id,
    ))
}

/// Whether a player who held a Lucky Boost (`held`) still holds it after the round:
/// the boost is used up by the right answer it multiplied, and kept otherwise.
pub fn keeps_lucky_boost(held: bool, result: &RoundScoreResult) -> (r: bool)
    ensures
        r == (held && !result.lucky_boost),
{
    held && !result.lucky_boost
}

/// A right answer earns exactly the points the session's rules set for a right
/// answer, whatever that setting is; a wrong answer earns none. Bonuses never
/// touch an answer that is wrong.
pub proof fn lemma_right_answer_earns_configured_points(
    r: RoundScoreResult,
    answers: Seq<PlayerAnswerDto>,
    i: int,
    rules: ScoreRules,
    existing: Seq<PlayerScore>,
    boosted: Set<u128>,
)
    requires
        0 <= i < answers.len(),
        scores_answer(r, answers, i, rules, existing, boosted),
    ensures
        answers[i].is_correct ==> r.base_points == rules.base_points,
        !answers[i].is_correct ==> r.base_points == 0 && !r.catch_up && !r.lucky_boost,
        r.player_id == answers[i].player_id,
        r.is_correct == answers[i].is_correct,
{
}

fn find_total(existing: &Vec<PlayerScore>, player_id: u128) -> (r: i32)
    ensures
        r == total_before(existing@, player_id),
{
    let mut k: usize = 0;
    assert(existing@.skip(0) =~= existing@);
    while k < existing.len()
        invariant
            k <= existing@.len(),
            total_before(existing@, player_id) == total_before(existing@.skip(k as int), player_id),
        decreases existing@.len() - k,
    {
        assert(existing@.skip(k as int)[0] == existing@[k as int]);
        assert(existing@.skip(k as int).drop_first() =~= existing@.skip(k + 1));
        if existing[k].player_id == player_id {
            return existing[k].total_score;
        }
        k = k + 1;
    }
    0
}

fn find_leader_total(existing: &Vec<PlayerScore>) -> (r: i32)
    ensures
        r == leader_total(existing@),
{
    if existing.len() == 0 {
        return 0;
    }
    let mut k: usize = existing.len() - 1;
    let mut best: i32 = existing[k].total_score;
    assert(existing@.skip(k as int).drop_first().len() == 0);
    while k > 0
        invariant
            0 < existing@.len(),
            k < existing@.len(),
            best == leader_total(existing@.skip(k as int)),
        decreases k,
    {
        k = k - 1;
        assert(existing@.skip(k as int).drop_first() =~= existing@.skip(k + 1));
        assert(existing@.skip(k as int)[0] == existing@[k as int]);
        if existing[k].total_score >= best {
            best = existing[k].total_score;
        }
    }
    assert(existing@.skip(0) =~= existing@);
    best
}

/// Scores every answer of a closed round. `existing` holds the players' scores
/// before the round; `boosted` the players holding a pending Lucky Boost.
/// The caller multiplies the base points of a right answer by the session's
/// multipliers for its tier and bonuses.
pub fn calculate_round_scores(
    answers: &Vec<PlayerAnswerDto>,
    rules: &ScoreRules,
    existing: &Vec<PlayerScore>,
    boosted: &HashSet<u128>,
) -> (r: Vec<RoundScoreResult>)
    ensures
        r@.len() == answers@.len(),
        forall|i: int|
            #![trigger r@[i]]
            0 <= i < r@.len() ==> scores_answer(r@[i], answers@, i, *rules, existing@, boosted@),
{
    let iod = is_ich_oder_du(answers);
    let leader = find_leader_total(existing);
    let mut out: Vec<RoundScoreResult> = Vec::new();
    let mut i: usize = 0;
    while i < answers.len()
        invariant
            i <= answers@.len(),
            out@.len() == i,
            iod == is_ich_oder_du_round(answers@),
            leader == leader_total(existing@),
            forall|j: int|
                #![trigger out@[j]]
                0 <= j < i ==> scores_answer(out@[j], answers@, j, *rules, existing@, boosted@),
        decreases answers@.len() - i,
    {
        let a = &answers[i];
        let base: i32 = if a.is_correct {
            rules.base_points
        } else {
            0
        };
        let tier = if a.time_taken_seconds < rules.tier1_max_seconds as i64 {
            TimeTier::Tier1
        } else if a.time_taken_seconds < rules.tier2_max_seconds as i64 {
            TimeTier::Tier2
        } else {
            TimeTier::Tier3
        };
        let total = find_total(existing, a.player_id);
        let threshold = rules.catchup_threshold_percent as i64;
        let lead = leader as i64;
        proof {
            assert(-0x4000_0000_0000_0000 <= threshold * lead <= 0x4000_0000_0000_0000)
                by (nonlinear_arith)
                requires
                    i32::MIN <= threshold <= i32::MAX,
                    i32::MIN <= lead <= i32::MAX,
            ;
        }
        let catch_up = a.is_correct && (total as i64) * 100 < threshold * lead;
        let lucky_boost = a.is_correct && !iod && boosted.contains(&a.player_id);
        out.push(
            RoundScoreResult {
                player_id: a.player_id,
                player_name: a.player_name.clone(),
                base_points: base,
                time_tier: tier,
                catch_up,
                lucky_boost,
                is_correct: a.is_correct,
            },
        );
        i = i + 1;
    }
    out
}

} // verus!
