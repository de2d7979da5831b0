//! The leaderboard: one line per stored save, best score first.

use vstd::prelude::*;
use vstd::set_lib::{lemma_int_range, lemma_subset_equality, set_int_range};
use crate::save::SaveSlot;
use crate::settings::{Difficulty, GameMode};

verus! {

/// One line of the leaderboard: who played, how far they got, and how.
#[derive(Clone, Debug)]
pub struct LeaderboardEntry {
    pub name: String,
    pub score: u32,
    pub mode: GameMode,
    pub difficulty: Difficulty,
}

/// The line that a save contributes to the leaderboard.
pub open spec fn entry_of(save: SaveSlot) -> LeaderboardEntry {
    LeaderboardEntry {
        name: save.profile.name,
        score: save.score,
        mode: save.mode,
        difficulty: save.difficulty,
    }
}

/// The lines of the slots that hold a save, in slot order.
pub open spec fn entries_of(saves: Seq<Option<SaveSlot>>) -> Seq<LeaderboardEntry>
    decreases saves.len(),
{
    if saves.len() == 0 {
        Seq::empty()
    } else {
        let rest = entries_of(saves.drop_last());
        match saves.last() {
            Some(save) => rest.push(entry_of(save)),
            None => rest,
        }
    }
}

/// `output` holds the entries of `input`, where `output[i]` is
/// `input[p[i]]` and no entry of `input` is used twice, ordered by
/// descending score, with entries of equal score in their input order.
pub open spec fn is_ranking_by(
    input: Seq<LeaderboardEntry>,
    output: Seq<LeaderboardEntry>,
    p: Seq<int>,
) -> bool {
    &&& p.len() == input.len()
    &&& output.len() == input.len()
    &&& forall|i: int| 0 <= i < p.len() ==> 0 <= #[trigger] p[i] < input.len()
    &&& forall|i: int| 0 <= i < p.len() ==> #[trigger] output[i] == input[p[i]]
    &&& forall|i: int, j: int| 0 <= i < j < p.len() ==> #[trigger] p[i] != #[trigger] p[j]
    &&& forall|i: int, j: int|
        0 <= i < j < output.len() ==> #[trigger] output[i].score >= #[trigger] output[j].score
    &&& forall|i: int, j: int|
        0 <= i < j < output.len() && #[trigger] output[i].score == #[trigger] output[j].score
            ==> p[i] < p[j]
}

/// `output` is `input` sorted by descending score, ties kept in order.
pub open spec fn is_ranking(input: Seq<LeaderboardEntry>, output: Seq<LeaderboardEntry>) -> bool {
    exists|p: Seq<int>| is_ranking_by(input, output, p)
}

impl LeaderboardEntry {
    pub fn from_save(save: &SaveSlot) -> (r: LeaderboardEntry)
        ensures
            r == entry_of(*save),
    {
        LeaderboardEntry {
            name: save.profile.name.clone(),
            score: save.score,
            mode: save.mode,
            difficulty: save.difficulty,
        }
    }
}

proof fn lemma_insert_index<A>(s: Seq<A>, pos: int, a: A)
    requires
        0 <= pos <= s.len(),
    ensures
        s.insert(pos, a).len() == s.len() + 1,
        forall|i: int|
            0 <= i <= s.len() ==> #[trigger] s.insert(pos, a)[i] == if i < pos {
                s[i]
            } else if i == pos {
                a
            } else {
                s[i - 1]
            },
{
    s.insert_ensures(pos, a);
    assert forall|i: int| 0 <= i <= s.len() implies #[trigger] s.insert(pos, a)[i] == if i < pos {
        s[i]
    } else if i == pos {
        a
    } else {
        s[i - 1]
    } by {
        if i > pos {
            assert(s.insert(pos, a)[(i - 1) + 1] == s[i - 1]);
        }
    }
}

/// Sorts the entries by descending score; entries of equal score keep
/// their order.
pub fn rank_entries(entries: Vec<LeaderboardEntry>) -> (r: Vec<LeaderboardEntry>)
    ensures
        is_ranking(entries@, r@),
{
    let ghost input = entries@;
    let mut rest = entries;
    let mut out: Vec<LeaderboardEntry> = Vec::new();
    let ghost mut p: Seq<int> = Seq::empty();
    while rest.len() > 0
        invariant
            rest@ == input.subrange(0, rest@.len() as int),
            rest@.len() <= input.len(),
            out@.len() == p.len(),
            p.len() + rest@.len() == input.len(),
            forall|i: int| 0 <= i < p.len() ==> rest@.len() <= #[trigger] p[i] < input.len(),
            forall|i: int| 0 <= i < p.len() ==> #[trigger] out@[i] == input[p[i]],
            forall|i: int, j: int| 0 <= i < j < p.len() ==> #[trigger] p[i] != #[trigger] p[j],
            forall|i: int, j: int|
                0 <= i < j < out@.len() ==> #[trigger] out@[i].score >= #[trigger] out@[j].score,
            forall|i: int, j: int|
                0 <= i < j < out@.len() && #[trigger] out@[i].score == #[trigger] out@[j].score
                    ==> p[i] < p[j],
        decreases rest@.len(),
    {
        let e = rest.pop().unwrap();
        let ghost k: int = rest@.len() as int;
        assert(e == input[k]);
        let mut j: usize = 0;
        while j < out.len() && out[j].score > e.score
            invariant
                j <= out@.len(),
                forall|i: int| 0 <= i < j ==> #[trigger] out@[i].score > e.score,
            decreases out@.len() - j,
        {
            j = j + 1;
        }
        assert forall|i: int| j <= i < out@.len() implies #[trigger] out@[i].score <= e.score by {
            if i > j {
                assert(out@[j as int].score >= out@[i].score);
            }
        }
        let ghost old_out = out@;
        let ghost old_p = p;
        proof {
            lemma_insert_index(old_out, j as int, e);
            lemma_insert_index(old_p, j as int, k);
        }
        out.insert(j, e);
        proof {
            p = old_p.insert(j as int, k);
        }
        assert forall|a: int, b: int|
            0 <= a < b < out@.len() implies #[trigger] out@[a].score >= #[trigger] out@[b].score by {
            if b < j {
            } else if b == j {
            } else if a < j {
            } else if a == j {
            } else {
                assert(old_out[a - 1].score >= old_out[b - 1].score);
            }
        }
        assert forall|a: int, b: int|
            0 <= a < b < out@.len() && #[trigger] out@[a].score == #[trigger] out@[b].score
                implies p[a] < p[b] by {
            if b < j {
                assert(old_p[a] < old_p[b]);
            } else if b == j {
                assert(old_out[a].score > e.score);
            } else if a < j {
                assert(old_out[a].score > e.score);
                assert(old_out[b - 1].score <= e.score);
            } else if a == j {
            } else {
                assert(old_out[a - 1].score == old_out[b - 1].score);
                assert(old_p[a - 1] < old_p[b - 1]);
            }
        }
        assert forall|a: int, b: int| 0 <= a < b < p.len() implies #[trigger] p[a] != #[trigger] p[b] by {
            if b < j {
                assert(old_p[a] != old_p[b]);
            } else if b == j {
            } else if a < j {
            } else if a == j {
            } else {
                assert(old_p[a - 1] != old_p[b - 1]);
            }
        }
        assert(rest@ =~= input.subrange(0, rest@.len() as int));
    }
    assert(is_ranking_by(input, out@, p));
    out
}

/// Builds the leaderboard from the contents of the save slots, in slot
/// order; empty slots contribute nothing.
pub fn build_leaderboard(saves: &Vec<Option<SaveSlot>>) -> (r: Vec<LeaderboardEntry>)
    ensures
        is_ranking(entries_of(saves@), r@),
{
    let mut entries: Vec<LeaderboardEntry> = Vec::new();
    let mut i: usize = 0;
    while i < saves.len()
        invariant
            i <= saves@.len(),
            entries@ == entries_of(saves@.subrange(0, i as int)),
        decreases saves@.len() - i,
    {
        assert(saves@.subrange(0, i + 1).drop_last() =~= saves@.subrange(0, i as int));
        match &saves[i] {
            Some(save) => {
                entries.push(LeaderboardEntry::from_save(save));
            },
            None => {},
        }
        i = i + 1;
    }
    assert(saves@.subrange(0, saves@.len() as int) =~= saves@);
    rank_entries(entries)
}

/// Entry `m` of `input` comes before entry `k` in a ranking: it scored
/// more, or as much and stands earlier.
pub open spec fn ranks_before(input: Seq<LeaderboardEntry>, m: int, k: int) -> bool {
    input[m].score > input[k].score || (input[m].score == input[k].score && m < k)
}

/// A ranking uses every entry of its input.
proof fn lemma_ranking_covers(input: Seq<LeaderboardEntry>, output: Seq<LeaderboardEntry>, p: Seq<int>)
    requires
        is_ranking_by(input, output, p),
    ensures
        forall|m: int| 0 <= m < input.len() ==> #[trigger] p.contains(m),
{
    assert(p.no_duplicates()) by {
        assert forall|i: int, j: int| 0 <= i < p.len() && 0 <= j < p.len() && i != j implies p[i]
            != p[j] by {
            if i < j {
                assert(p[i] != p[j]);
            } else {
                assert(p[j] != p[i]);
            }
        }
    }
    p.unique_seq_to_set();
    lemma_int_range(0, input.len() as int);
    let range = set_int_range(0, input.len() as int);
    assert(p.to_set().subset_of(range)) by {
        assert forall|m: int| p.to_set().contains(m) implies range.contains(m) by {
            let i = choose|i: int| 0 <= i < p.len() && p[i] == m;
            assert(0 <= p[i] < input.len());
        }
    }
    lemma_subset_equality(p.to_set(), range);
    assert forall|m: int| 0 <= m < input.len() implies #[trigger] p.contains(m) by {
        assert(range.contains(m));
        assert(p.to_set().contains(m));
    }
}

/// Along a ranking, each entry ranks before every later one.
proof fn lemma_ranking_ordered(input: Seq<LeaderboardEntry>, output: Seq<LeaderboardEntry>, p: Seq<int>)
    requires
        is_ranking_by(input, output, p),
    ensures
        forall|i: int, j: int| 0 <= i < j < p.len() ==> ranks_before(input, #[trigger] p[i], #[trigger] p[j]),
{
    assert forall|i: int, j: int| 0 <= i < j < p.len() implies ranks_before(input, #[trigger] p[i], #[trigger] p[j]) by {
        assert(output[i] == input[p[i]]);
        assert(output[j] == input[p[j]]);
        assert(output[i].score >= output[j].score);
        if output[i].score == output[j].score {
            assert(p[i] < p[j]);
        }
    }
}

/// There is only one ranking of a list of entries: any two outputs that
/// rank the same input are equal.
pub proof fn lemma_ranking_unique(
    input: Seq<LeaderboardEntry>,
    a: Seq<LeaderboardEntry>,
    b: Seq<LeaderboardEntry>,
)
    requires
        is_ranking(input, a),
        is_ranking(input, b),
    ensures
        a == b,
{
    let p = choose|p: Seq<int>| is_ranking_by(input, a, p);
    let q = choose|q: Seq<int>| is_ranking_by(input, b, q);
    lemma_ranking_covers(input, a, p);
    lemma_ranking_covers(input, b, q);
    lemma_ranking_ordered(input, a, p);
    lemma_ranking_ordered(input, b, q);
    let n = input.len() as int;
    assert forall|k: int| 0 <= k < n implies p[k] == q[k] by {
        lemma_same_order_upto(input, a, b, p, q, k + 1);
    }
    assert forall|i: int| 0 <= i < n implies a[i] == b[i] by {
        assert(a[i] == input[p[i]]);
        assert(b[i] == input[q[i]]);
    }
    assert(a =~= b);
}

/// Two rankings of one input use the entries in the same order, up to `k`.
proof fn lemma_same_order_upto(
    input: Seq<LeaderboardEntry>,
    a: Seq<LeaderboardEntry>,
    b: Seq<LeaderboardEntry>,
    p: Seq<int>,
    q: Seq<int>,
    k: int,
)
    requires
        is_ranking_by(input, a, p),
        is_ranking_by(input, b, q),
        forall|m: int| 0 <= m < input.len() ==> #[trigger] p.contains(m),
        forall|m: int| 0 <= m < input.len() ==> #[trigger] q.contains(m),
        forall|i: int, j: int| 0 <= i < j < p.len() ==> ranks_before(input, #[trigger] p[i], #[trigger] p[j]),
        forall|i: int, j: int| 0 <= i < j < q.len() ==> ranks_before(input, #[trigger] q[i], #[trigger] q[j]),
        0 <= k <= input.len(),
    ensures
        forall|i: int| 0 <= i < k ==> p[i] == q[i],
    decreases k,
{
    if k > 0 {
        lemma_same_order_upto(input, a, b, p, q, k - 1);
        let i = k - 1;
        if p[i] != q[i] {
            assert(0 <= p[i] < input.len());
            assert(0 <= q[i] < input.len());
            if ranks_before(input, p[i], q[i]) {
                assert(q.contains(p[i]));
                let j = choose|j: int| 0 <= j < q.len() && q[j] == p[i];
                if j < i {
                    assert(p[j] == q[j]);
                    assert(p[j] != p[i]);
                } else {
                    assert(ranks_before(input, q[i], q[j]));
                }
            } else {
                assert(ranks_before(input, q[i], p[i]));
                assert(p.contains(q[i]));
                let j = choose|j: int| 0 <= j < p.len() && p[j] == q[i];
                if j < i {
                    assert(p[j] == q[j]);
                    assert(q[j] != q[i]);
                } else {
                    assert(ranks_before(input, p[i], p[j]));
                }
            }
        }
    }
}

} // verus!
