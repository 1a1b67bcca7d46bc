//! Reordering the matches by how similar their names are to the query.
use vstd::prelude::*;
use crate::scan::MatchedFile;

verus! {

/// `perm` lists each of the positions `0 .. n` exactly once.
pub open spec fn is_permutation(perm: Seq<int>, n: int) -> bool {
    &&& perm.len() == n
    &&& forall|k: int| 0 <= k < n ==> 0 <= #[trigger] perm[k] < n
    &&& forall|k: int, l: int| 0 <= k < l < n ==> #[trigger] perm[k] != #[trigger] perm[l]
}

/// Taking the items in the order `perm` puts higher scores first, and keeps
/// the original order among items with equal scores.
pub open spec fn ranks_stably(perm: Seq<int>, scores: Seq<u32>) -> bool {
    &&& is_permutation(perm, scores.len() as int)
    &&& forall|k: int, l: int|
        0 <= k < l < perm.len() ==> {
            ||| scores[#[trigger] perm[k]] > scores[#[trigger] perm[l]]
            ||| (scores[perm[k]] == scores[perm[l]] && perm[k] < perm[l])
        }
}

/// `after` holds the items of `before` in the order `perm`.
pub open spec fn reordered(before: Seq<MatchedFile>, after: Seq<MatchedFile>, perm: Seq<int>) -> bool {
    &&& after.len() == perm.len()
    &&& forall|k: int| 0 <= k < perm.len() ==> after[k] == before[#[trigger] perm[k]]
}

/// Sorts the matches by descending similarity, where `similarity[i]` is how
/// similar the name of the `i`-th match is to the query. The sort is stable:
/// matches of equal similarity keep their scan order.
pub fn sort_files_by_similarity(matched_files: &mut Vec<MatchedFile>, similarity: &Vec<u32>)
    requires
        similarity@.len() == old(matched_files)@.len(),
    ensures
        exists|perm: Seq<int>|
            ranks_stably(perm, similarity@) && reordered(
                old(matched_files)@,
                final(matched_files)@,
                perm,
            ),
{
    let ghost orig = matched_files@;
    let n = similarity.len();
    let mut input: Vec<MatchedFile> = Vec::new();
    std::mem::swap(&mut input, matched_files);
    let mut out: Vec<MatchedFile> = Vec::new();
    let mut out_scores: Vec<u32> = Vec::new();
    let ghost mut perm: Seq<int> = seq![];
    let mut i: usize = 0;
    while i < n
        invariant
            n == similarity@.len(),
            n == orig.len(),
            i <= n,
            input@ == orig.subrange(i as int, n as int),
            out@.len() == i,
            out_scores@.len() == i,
            perm.len() == i,
            forall|k: int| 0 <= k < i ==> 0 <= #[trigger] perm[k] < i,
            forall|k: int, l: int| 0 <= k < l < i ==> #[trigger] perm[k] != #[trigger] perm[l],
            forall|k: int| 0 <= k < i ==> out@[k] == orig[#[trigger] perm[k]],
            forall|k: int| 0 <= k < i ==> out_scores@[k] == similarity@[#[trigger] perm[k]],
            forall|k: int, l: int|
                0 <= k < l < i ==> {
                    ||| similarity@[#[trigger] perm[k]] > similarity@[#[trigger] perm[l]]
                    ||| (similarity@[perm[k]] == similarity@[perm[l]] && perm[k] < perm[l])
                },
        decreases n - i,
    {
        let item = input.remove(0);
        let s = similarity[i];
        let mut pos: usize = 0;
        while pos < out.len() && out_scores[pos] >= s
            invariant
                out@.len() == i,
                out_scores@.len() == i,
                pos <= i,
                forall|k: int| 0 <= k < pos ==> out_scores@[k] >= s,
            decreases i - pos,
        {
            pos = pos + 1;
        }
        proof {
            assert forall|l: int| pos <= l < i implies out_scores@[l] < s by {
                if pos < l {
                    assert(similarity@[perm[pos as int]] >= similarity@[perm[l]]);
                }
            }
        }
        let ghost scores_before = out_scores@;
        out.insert(pos, item);
        out_scores.insert(pos, s);
        proof {
            let old_perm = perm;
            perm = old_perm.insert(pos as int, i as int);
            assert forall|k: int, l: int| 0 <= k < l < i + 1 implies {
                ||| similarity@[#[trigger] perm[k]] > similarity@[#[trigger] perm[l]]
                ||| (similarity@[perm[k]] == similarity@[perm[l]] && perm[k] < perm[l])
            } by {
                if l < pos {
                    assert(perm[k] == old_perm[k] && perm[l] == old_perm[l]);
                } else if l == pos {
                    assert(perm[k] == old_perm[k]);
                    assert(out_scores@[k] >= s);
                } else if k < pos {
                    assert(perm[k] == old_perm[k] && perm[l] == old_perm[l - 1]);
                } else if k == pos {
                    assert(perm[l] == old_perm[l - 1]);
                    assert(scores_before[l - 1] < s);
                } else {
                    assert(perm[k] == old_perm[k - 1] && perm[l] == old_perm[l - 1]);
                }
            }
            assert forall|k: int, l: int| 0 <= k < l < i + 1 implies #[trigger] perm[k]
                != #[trigger] perm[l] by {
                if k < pos && l < pos {
                } else if l == pos || k == pos {
                } else if k < pos {
                    assert(perm[l] == old_perm[l - 1]);
                } else {
                    assert(perm[k] == old_perm[k - 1] && perm[l] == old_perm[l - 1]);
                }
            }
            assert(orig[i as int] == item);
        }
        i = i + 1;
    }
    *matched_files = out;
    proof {
        assert(ranks_stably(perm, similarity@));
        assert(reordered(orig, matched_files@, perm));
    }
}

} // verus!
