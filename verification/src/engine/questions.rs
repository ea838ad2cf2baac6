use vstd::prelude::*;

use crate::text::same_text;

verus! {

/// A question of a session as the session service lists it.
#[derive(Debug)]
pub struct QuestionDto {
    pub id: u128,
    pub question_type: String,
    pub text: String,
    pub option_a: Option<String>,
    pub option_b: Option<String>,
    pub option_c: Option<String>,
    pub option_d: Option<String>,
    pub correct_answer: String,
    pub order_index: i32,
    pub points: i32,
}

/// Question `a` is played before question `b` of the same kind: by `order_index`,
/// and in list order where two share an `order_index`.
pub open spec fn precedes(qs: Seq<QuestionDto>, a: int, b: int) -> bool {
    ||| qs[a].order_index < qs[b].order_index
    ||| (qs[a].order_index == qs[b].order_index && a < b)
}

/// `order` lists the positions in `qs` of every question of type `kind`, each once,
/// in play order (the list stably sorted by `order_index`).
pub open spec fn is_play_order(qs: Seq<QuestionDto>, kind: Seq<char>, order: Seq<usize>) -> bool {
    &&& forall|i: int|
        0 <= i < order.len() ==> #[trigger] order[i] < qs.len() && qs[order[i] as int].question_type@
            == kind
    &&& forall|i: int, j: int|
        0 <= i < j < order.len() ==> precedes(qs, #[trigger] order[i] as int, #[trigger] order[j] as int)
    &&& forall|k: int|
        0 <= k < qs.len() && #[trigger] qs[k].question_type@ == kind ==> order.contains(k as usize)
}

/// The play order of the questions of type `kind`.
pub open spec fn play_order(qs: Seq<QuestionDto>, kind: Seq<char>) -> Seq<usize> {
    choose|order: Seq<usize>| is_play_order(qs, kind, order)
}

proof fn lemma_prefix_agree(
    qs: Seq<QuestionDto>,
    kind: Seq<char>,
    o1: Seq<usize>,
    o2: Seq<usize>,
    i: int,
)
    requires
        is_play_order(qs, kind, o1),
        is_play_order(qs, kind, o2),
        0 <= i < o1.len(),
        i < o2.len(),
    ensures
        o1[i] == o2[i],
    decreases i,
{
    assert forall|m: int| 0 <= m < i implies o1[m] == o2[m] by {
        lemma_prefix_agree(qs, kind, o1, o2, m);
    }
    let a = o1[i];
    let b = o2[i];
    if a != b {
        assert(qs[a as int].question_type@ == kind);
        assert(qs[b as int].question_type@ == kind);
        assert(o2.contains(a));
        assert(o1.contains(b));
        let j = choose|j: int| 0 <= j < o2.len() && o2[j] == a;
        let k = choose|k: int| 0 <= k < o1.len() && o1[k] == b;
        if j < i {
            assert(o1[j] == o2[j]);
            assert(precedes(qs, o1[j] as int, o1[i] as int));
        } else if k < i {
            assert(o1[k] == o2[k]);
            assert(precedes(qs, o2[k] as int, o2[i] as int));
        } else {
            assert(j > i && k > i);
            assert(precedes(qs, o2[i] as int, o2[j] as int));
            assert(precedes(qs, o1[i] as int, o1[k] as int));
        }
    }
}

/// There is at most one play order.
pub proof fn lemma_play_order_unique(
    qs: Seq<QuestionDto>,
    kind: Seq<char>,
    o1: Seq<usize>,
    o2: Seq<usize>,
)
    requires
        is_play_order(qs, kind, o1),
        is_play_order(qs, kind, o2),
    ensures
        o1 == o2,
{
    assert forall|i: int| 0 <= i < o1.len() && i < o2.len() implies o1[i] == o2[i] by {
        lemma_prefix_agree(qs, kind, o1, o2, i);
    }
    if o1.len() > o2.len() {
        let x = o1[o2.len() as int];
        assert(qs[x as int].question_type@ == kind);
        assert(o2.contains(x));
        let j = choose|j: int| 0 <= j < o2.len() && o2[j] == x;
        assert(o1[j] == o2[j]);
        assert(precedes(qs, o1[j] as int, o1[o2.len() as int] as int));
    }
    if o2.len() > o1.len() {
        let x = o2[o1.len() as int];
        assert(qs[x as int].question_type@ == kind);
        assert(o1.contains(x));
        let j = choose|j: int| 0 <= j < o1.len() && o1[j] == x;
        assert(o1[j] == o2[j]);
        assert(precedes(qs, o2[j] as int, o2[o1.len() as int] as int));
    }
    assert(o1 =~= o2);
}

/// The positions of the questions of type `kind`, in play order.
pub fn play_order_of(qs: &Vec<QuestionDto>, kind: &str) -> (r: Vec<usize>)
    ensures
        is_play_order(qs@, kind@, r@),
        r@ == play_order(qs@, kind@),
{
    let mut r: Vec<usize> = Vec::new();
    let mut k: usize = 0;
    while k < qs.len()
        invariant
            k <= qs.len(),
            forall|i: int|
                0 <= i < r.len() ==> #[trigger] r@[i] < k && qs@[r@[i] as int].question_type@
                    == kind@,
            forall|i: int, j: int|
                0 <= i < j < r.len() ==> precedes(qs@, #[trigger] r@[i] as int, #[trigger] r@[j] as int),
            forall|m: int|
                0 <= m < k && #[trigger] qs@[m].question_type@ == kind@ ==> r@.contains(m as usize),
        decreases qs.len() - k,
    {
        if same_text(qs[k].question_type.as_str(), kind) {
            let key = qs[k].order_index;
            let mut p: usize = 0;
            while p < r.len() && qs[r[p]].order_index <= key
                invariant
                    p <= r.len(),
                    k < qs.len(),
                    key == qs@[k as int].order_index,
                    forall|i: int| 0 <= i < r.len() ==> #[trigger] r@[i] < k,
                    forall|i: int| 0 <= i < p ==> qs@[#[trigger] r@[i] as int].order_index <= key,
                decreases r.len() - p,
            {
                p = p + 1;
            }
            let ghost old_r = r@;
            r.insert(p, k);
            assert(r@ == old_r.insert(p as int, k));
            assert forall|i: int, j: int| 0 <= i < j < r.len() implies precedes(
                qs@,
                #[trigger] r@[i] as int,
                #[trigger] r@[j] as int,
            ) by {
                if j < p {
                    assert(r@[i] == old_r[i] && r@[j] == old_r[j]);
                } else if j == p {
                    assert(r@[i] == old_r[i]);
                    assert(qs@[old_r[i] as int].order_index <= key);
                } else if i < p {
                    assert(r@[i] == old_r[i] && r@[j] == old_r[j - 1]);
                } else if i == p {
                    assert(r@[j] == old_r[j - 1]);
                    assert(p < old_r.len());
                    assert(key < qs@[old_r[p as int] as int].order_index);
                    if j - 1 > p {
                        assert(precedes(qs@, old_r[p as int] as int, old_r[j - 1] as int));
                    }
                } else {
                    assert(r@[i] == old_r[i - 1] && r@[j] == old_r[j - 1]);
                }
            }
            assert forall|m: int|
                0 <= m < k + 1 && #[trigger] qs@[m].question_type@ == kind@ implies r@.contains(
                m as usize,
            ) by {
                if m < k {
                    assert(old_r.contains(m as usize));
                    let t = choose|t: int| 0 <= t < old_r.len() && old_r[t] == m as usize;
                    if t < p {
                        assert(r@[t] == old_r[t]);
                    } else {
                        assert(r@[t + 1] == old_r[t]);
                    }
                } else {
                    assert(r@[p as int] == k);
                }
            }
        }
        k = k + 1;
    }
    proof {
        assert(is_play_order(qs@, kind@, r@));
        lemma_play_order_unique(qs@, kind@, r@, play_order(qs@, kind@));
    }
    r
}

} // verus!
