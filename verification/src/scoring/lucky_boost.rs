use vstd::prelude::*;

use crate::platform::random_below;

verus! {

/// The player of a leaderboard (listed by score) who gets a Lucky Boost, and how
/// far behind the leader they are.
#[derive(Debug, Clone, Copy, PartialEq, Eq, Structural)]
pub struct LuckyBoostTarget {
    pub index: usize,
    pub gap_to_leader: i32,
}

/// A Lucky Boost is handed out after a round that is not an ich-oder-du round, to the
/// last entry of a leaderboard of at least two, when it is alone in last place and
/// behind the first.
pub open spec fn lucky_boost_due(is_ich_oder_du: bool, s: Seq<i32>) -> bool {
    &&& !is_ich_oder_du
    &&& s.len() >= 2
    &&& s[0] > s.last()
    &&& forall|j: int| 0 <= j < s.len() - 1 ==> s[j] != s.last()
}

/// On a leaderboard listed from highest to lowest score, the Lucky Boost goes to the
/// one player with the lowest score: everyone else is strictly ahead of them.
pub proof fn lemma_lucky_boost_goes_to_sole_last(s: Seq<i32>)
    requires
        forall|i: int, j: int| 0 <= i <= j < s.len() ==> s[i] >= s[j],
        lucky_boost_due(false, s),
    ensures
        forall|j: int| 0 <= j < s.len() - 1 ==> s[j] > s.last(),
{
    assert forall|j: int| 0 <= j < s.len() - 1 implies s[j] > s.last() by {
        assert(s[j] >= s[s.len() - 1]);
        assert(s[j] != s.last());
    }
}

/// No Lucky Boost is handed out after an ich-oder-du round.
pub proof fn lemma_no_lucky_boost_after_ich_oder_du(s: Seq<i32>)
    ensures
        !lucky_boost_due(true, s),
{
}

/// After a round that is not an ich-oder-du round, a leaderboard of two or more
/// whose last score is strictly below every other score hands the Lucky Boost to
/// its last entry: with two players, whenever the first is ahead.
pub proof fn lemma_sole_last_place_gets_boost(s: Seq<i32>)
    requires
        s.len() >= 2,
        forall|j: int| 0 <= j < s.len() - 1 ==> #[trigger] s[j] > s[s.len() - 1],
    ensures
        lucky_boost_due(false, s),
{
    assert(s[0] > s[s.len() - 1]);
}

/// Picks who gets the Lucky Boost after a round, from the scores of the
/// leaderboard in its order (highest first).
pub fn lucky_boost_target(is_ich_oder_du: bool, totals: &Vec<i32>) -> (r: Option<LuckyBoostTarget>)
    requires
        lucky_boost_due(is_ich_oder_du, totals@) ==> totals@[0] - totals@.last() <= i32::MAX,
    ensures
        r is Some <==> lucky_boost_due(is_ich_oder_du, totals@),
        r matches Some(t) ==> t.index == totals@.len() - 1 && t.gap_to_leader == totals@[0]
            - totals@.last(),
{
    if is_ich_oder_du || totals.len() < 2 {
        return None;
    }
    let last = totals.len() - 1;
    let max_score = totals[0];
    let min_score = totals[last];
    if max_score <= min_score {
        return None;
    }
    // The last entry is alone in last place when no earlier entry shares its score.
    let mut j: usize = 0;
    while j < last
        invariant
            j <= last,
            last == totals@.len() - 1,
            min_score == totals@[last as int],
            forall|k: int| 0 <= k < j ==> totals@[k] != min_score,
        decreases last - j,
    {
        if totals[j] == min_score {
            return None;
        }
        j = j + 1;
    }
    Some(LuckyBoostTarget { index: last, gap_to_leader: max_score - min_score })
}

/// The multipliers a Lucky Boost can carry: x1.5, x2 or x3.
#[derive(Debug, Clone, Copy, PartialEq, Eq, Structural)]
pub enum LuckyMultiplier {
    OneAndHalf,
    Double,
    Triple,
}

impl LuckyMultiplier {
    /// The multiplier in tenths.
    pub fn tenths(&self) -> (r: u32)
        ensures
            r == match self {
                LuckyMultiplier::OneAndHalf => 15u32,
                LuckyMultiplier::Double => 20u32,
                LuckyMultiplier::Triple => 30u32,
            },
    {
        match self {
            LuckyMultiplier::OneAndHalf => 15,
            LuckyMultiplier::Double => 20,
            LuckyMultiplier::Triple => 30,
        }
    }
}

/// The multiplier a draw of `k` among three stands for: 0 is x1.5, 1 is x2, 2 is x3.
pub open spec fn multiplier_for_draw(k: u32) -> LuckyMultiplier {
    if k == 0 {
        LuckyMultiplier::OneAndHalf
    } else if k == 1 {
        LuckyMultiplier::Double
    } else {
        LuckyMultiplier::Triple
    }
}

/// The multiplier a draw of `k` among three stands for.
pub fn lucky_multiplier_of_draw(k: u32) -> (m: LuckyMultiplier)
    requires
        k < 3,
    ensures
        m == multiplier_for_draw(k),
{
    if k == 0 {
        LuckyMultiplier::OneAndHalf
    } else if k == 1 {
        LuckyMultiplier::Double
    } else {
        LuckyMultiplier::Triple
    }
}

/// Draws the multiplier of a new Lucky Boost at random among x1.5, x2 and x3:
/// it is the multiplier of a number drawn below 3. Which number is drawn is chance.
pub fn choose_lucky_multiplier() -> (m: LuckyMultiplier)
    ensures
        exists|k: u32| k < 3 && m == multiplier_for_draw(k),
{
    let k = random_below(3);
    let m = lucky_multiplier_of_draw(k);
    assert(k < 3 && m == multiplier_for_draw(k));
    m
}

} // verus!
