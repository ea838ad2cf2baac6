use vstd::prelude::*;

use crate::scoring::entity::PlayerScore;

verus! {

/// Where the run of equal scores that ends at position `i` starts.
pub open spec fn tie_start(s: Seq<i32>, i: int) -> int
    decreases i,
{
    if i > 0 && s[i - 1] == s[i] {
        tie_start(s, i - 1)
    } else {
        i
    }
}

/// The scores of a leaderboard, in its order.
pub open spec fn totals_of(scores: Seq<PlayerScore>) -> Seq<i32> {
    Seq::new(scores.len(), |i: int| scores[i].total_score)
}

proof fn lemma_tie_start_bounds(s: Seq<i32>, i: int)
    requires
        0 <= i < s.len(),
    ensures
        0 <= tie_start(s, i) <= i,
    decreases i,
{
    if i > 0 && s[i - 1] == s[i] {
        lemma_tie_start_bounds(s, i - 1);
    }
}

/// The rank of each entry of a leaderboard listed by score: equal neighbours
/// share the rank of the first of their run, every other entry ranks by its position.
pub fn assign_ranks(totals: &Vec<i32>) -> (r: Vec<usize>)
    ensures
        r@.len() == totals@.len(),
        forall|i: int| 0 <= i < r@.len() ==> #[trigger] r@[i] == tie_start(totals@, i) + 1,
{
    let mut r: Vec<usize> = Vec::new();
    let mut i: usize = 0;
    while i < totals.len()
        invariant
            i <= totals@.len(),
            r@.len() == i,
            forall|j: int| 0 <= j < i ==> #[trigger] r@[j] == tie_start(totals@, j) + 1,
        decreases totals@.len() - i,
    {
        proof {
            lemma_tie_start_bounds(totals@, i as int);
        }
        if i > 0 && totals[i] == totals[i - 1] {
            let prev = r[i - 1];
            r.push(prev);
        } else {
            r.push(i + 1);
        }
        i = i + 1;
    }
    r
}

/// How many scores in `s` are strictly higher than `x`.
pub open spec fn higher_count(s: Seq<i32>, x: i32) -> nat
    decreases s.len(),
{
    if s.len() == 0 {
        0
    } else {
        higher_count(s.drop_last(), x) + if s.last() > x {
            1nat
        } else {
            0nat
        }
    }
}

/// Scores listed from highest to lowest.
pub open spec fn descending(s: Seq<i32>) -> bool {
    forall|i: int, j: int| 0 <= i <= j < s.len() ==> s[i] >= s[j]
}

proof fn lemma_higher_count_split(s: Seq<i32>, x: i32, t: int)
    requires
        0 <= t <= s.len(),
        forall|j: int| 0 <= j < t ==> s[j] > x,
        forall|j: int| t <= j < s.len() ==> s[j] <= x,
    ensures
        higher_count(s, x) == t,
    decreases s.len(),
{
    if s.len() > 0 {
        if t == s.len() {
            lemma_higher_count_split(s.drop_last(), x, t - 1);
        } else {
            lemma_higher_count_split(s.drop_last(), x, t);
        }
    }
}

proof fn lemma_tie_start_run(s: Seq<i32>, i: int)
    requires
        0 <= i < s.len(),
    ensures
        forall|j: int| tie_start(s, i) <= j <= i ==> s[j] == s[i],
        tie_start(s, i) > 0 ==> s[tie_start(s, i) - 1] != s[i],
    decreases i,
{
    if i > 0 && s[i - 1] == s[i] {
        lemma_tie_start_run(s, i - 1);
    }
}

/// On a leaderboard listed from highest to lowest score, the rank of an entry is
/// one more than the number of players with a strictly higher score (ties share a rank).
pub proof fn lemma_rank_counts_higher_scores(s: Seq<i32>, i: int)
    requires
        descending(s),
        0 <= i < s.len(),
    ensures
        tie_start(s, i) == higher_count(s, s[i]),
{
    lemma_tie_start_run(s, i);
    lemma_tie_start_bounds(s, i);
    let t = tie_start(s, i);
    assert forall|j: int| 0 <= j < t implies s[j] > s[i] by {
        assert(s[j] >= s[t - 1]);
        assert(s[t - 1] >= s[i]);
    }
    assert forall|j: int| t <= j < s.len() implies s[j] <= s[i] by {
        if j <= i {
            assert(s[j] == s[i]);
        }
    }
    lemma_higher_count_split(s, s[i], t);
}

/// On a leaderboard listed from highest to lowest score, two players with the same
/// score share their rank, and a higher score ranks strictly better.
pub proof fn lemma_ranks_follow_scores(s: Seq<i32>, i: int, j: int)
    requires
        descending(s),
        0 <= i < s.len(),
        0 <= j < s.len(),
    ensures
        s[i] == s[j] ==> tie_start(s, i) == tie_start(s, j),
        s[i] > s[j] ==> tie_start(s, i) < tie_start(s, j),
{
    lemma_rank_counts_higher_scores(s, i);
    lemma_rank_counts_higher_scores(s, j);
    if s[i] > s[j] {
        lemma_tie_start_run(s, i);
        lemma_tie_start_bounds(s, i);
        let ti = tie_start(s, i);
        assert forall|k: int| 0 <= k < ti implies s[k] > s[j] by {
            assert(s[k] >= s[i]);
        }
        lemma_higher_count_more(s, s[i], s[j], i);
    }
}

proof fn lemma_higher_count_more(s: Seq<i32>, hi: i32, lo: i32, w: int)
    requires
        lo < hi,
        0 <= w < s.len(),
        s[w] == hi,
    ensures
        higher_count(s, hi) < higher_count(s, lo),
    decreases s.len(),
{
    if w == s.len() - 1 {
        lemma_higher_count_mono(s.drop_last(), hi, lo);
    } else {
        lemma_higher_count_more(s.drop_last(), hi, lo, w);
    }
}

proof fn lemma_higher_count_mono(s: Seq<i32>, hi: i32, lo: i32)
    requires
        lo <= hi,
    ensures
        higher_count(s, hi) <= higher_count(s, lo),
    decreases s.len(),
{
    if s.len() > 0 {
        lemma_higher_count_mono(s.drop_last(), hi, lo);
    }
}

/// One leaderboard entry.
#[derive(Debug)]
pub struct PlayerScoreResponse {
    pub player_id: u128,
    pub player_name: String,
    pub total_score: i32,
    pub rounds_played: i32,
    pub last_round_score: i32,
    pub rank: usize,
}

/// The leaderboard of a session.
#[derive(Debug)]
pub struct LeaderboardResponse {
    pub session_code: String,
    pub scores: Vec<PlayerScoreResponse>,
}

/// The leaderboard of a session from its players' scores, listed by score, with ranks.
pub fn leaderboard(session_code: String, scores: &Vec<PlayerScore>) -> (r: LeaderboardResponse)
    ensures
        r.session_code == session_code,
        r.scores@.len() == scores@.len(),
        forall|i: int|
            #![trigger r.scores@[i]]
            0 <= i < scores@.len() ==> {
                &&& r.scores@[i].player_id == scores@[i].player_id
                &&& r.scores@[i].player_name == scores@[i].player_name
                &&& r.scores@[i].total_score == scores@[i].total_score
                &&& r.scores@[i].rounds_played == scores@[i].rounds_played
                &&& r.scores@[i].last_round_score == scores@[i].last_round_score
                &&& r.scores@[i].rank == tie_start(totals_of(scores@), i) + 1
            },
{
    let mut totals: Vec<i32> = Vec::new();
    let mut k: usize = 0;
    while k < scores.len()
        invariant
            k <= scores@.len(),
            totals@ =~= totals_of(scores@).take(k as int),
        decreases scores@.len() - k,
    {
        totals.push(scores[k].total_score);
        k = k + 1;
    }
    assert(totals@ =~= totals_of(scores@));
    let ranks = assign_ranks(&totals);
    let mut out: Vec<PlayerScoreResponse> = Vec::new();
    let mut i: usize = 0;
    while i < scores.len()
        invariant
            i <= scores@.len(),
            out@.len() == i,
            ranks@.len() == scores@.len(),
            forall|j: int| 0 <= j < ranks@.len() ==> #[trigger] ranks@[j] == tie_start(totals_of(scores@), j) + 1,
            forall|j: int|
                #![trigger out@[j]]
                0 <= j < i ==> {
                    &&& out@[j].player_id == scores@[j].player_id
                    &&& out@[j].player_name == scores@[j].player_name
                    &&& out@[j].total_score == scores@[j].total_score
                    &&& out@[j].rounds_played == scores@[j].rounds_played
                    &&& out@[j].last_round_score == scores@[j].last_round_score
                    &&& out@[j].rank == tie_start(totals_of(scores@), j) + 1
                },
        decreases scores@.len() - i,
    {
        let ps = &scores[i];
        out.push(
            PlayerScoreResponse {
                player_id: ps.player_id,
                player_name: ps.player_name.clone(),
                total_score: ps.total_score,
                rounds_played: ps.rounds_played,
                last_round_score: ps.last_round_score,
                rank: ranks[i],
            },
        );
        i = i + 1;
    }
    LeaderboardResponse { session_code, scores: out }
}

} // verus!
