//! Levenshtein edit distance.
//!
//! A small library that computes the Levenshtein edit distance of two strings
//! with the memory-efficient two-row sweep, verified against a recursive
//! definition of the distance; the usual metric laws of the distance are
//! proved in `laws`.

pub mod laws;
pub mod model;

use vstd::prelude::*;

use crate::model::edit_dist;

verus! {

/// Collects the characters of `s` into a vector, in order.
fn chars_of(s: &str) -> (v: Vec<char>)
    ensures
        v@ == s@,
{
    let n = s.unicode_len();
    let mut v: Vec<char> = Vec::new();
    let mut i: usize = 0;
    while i < n
        invariant
            n == s@.len(),
            i <= n,
            v@ == s@.take(i as int),
        decreases n - i,
    {
        let c = s.get_char(i);
        v.push(c);
        proof {
            assert(s@.take(i + 1) =~= s@.take(i as int).push(s@[i as int]));
        }
        i += 1;
    }
    proof {
        assert(s@.take(n as int) =~= s@);
    }
    v
}

/// The two-row dynamic-programming sweep over character vectors.
///
/// `prev` holds the distances from the first `i` characters of `s` to every
/// prefix of `t`; each outer iteration fills `curr` with the same distances
/// for the first `i + 1` characters and then exchanges the two buffers, so
/// the full distance matrix is never materialized.
fn two_row_sweep(s: &Vec<char>, t: &Vec<char>) -> (r: usize)
    requires
        s@.len() < usize::MAX,
        t@.len() < usize::MAX,
    ensures
        r == edit_dist(s@, t@),
{
    let m = s.len();
    let n = t.len();

    let mut prev: Vec<usize> = Vec::new();
    let mut curr: Vec<usize> = Vec::new();
    let mut j: usize = 0;
    while j <= n
        invariant
            n < usize::MAX,
            j <= n + 1,
            prev@.len() == j,
            curr@.len() == j,
            forall|k: int| 0 <= k < j ==> prev@[k] == k,
        decreases n + 1 - j,
    {
        prev.push(j);
        curr.push(0);
        j += 1;
    }
    proof {
        assert forall|k: int| 0 <= k <= n implies edit_dist(
            s@.take(0),
            t@.take(k),
        ) == k by {
            assert(s@.take(0).len() == 0);
            assert(t@.take(k).len() == k);
        }
    }

    let mut i: usize = 0;
    while i < m
        invariant
            m == s@.len(),
            n == t@.len(),
            m < usize::MAX,
            n < usize::MAX,
            i <= m,
            prev@.len() == n + 1,
            curr@.len() == n + 1,
            forall|k: int|
                0 <= k <= n ==> prev@[k] == edit_dist(s@.take(i as int), t@.take(k)),
        decreases m - i,
    {
        curr.set(0, i + 1);
        proof {
            assert(t@.take(0).len() == 0);
            assert(s@.take(i + 1).len() == i + 1);
            assert(edit_dist(s@.take(i + 1), t@.take(0)) == i + 1);
        }
        let mut j: usize = 0;
        while j < n
            invariant
                m == s@.len(),
                n == t@.len(),
                m < usize::MAX,
                n < usize::MAX,
                i < m,
                j <= n,
                prev@.len() == n + 1,
                curr@.len() == n + 1,
                forall|k: int|
                    0 <= k <= n ==> prev@[k] == edit_dist(s@.take(i as int), t@.take(k)),
                forall|k: int|
                    0 <= k <= j ==> curr@[k] == edit_dist(s@.take(i + 1), t@.take(k)),
            decreases n - j,
        {
            let cost: usize = if s[i] == t[j] {
                0
            } else {
                1
            };
            proof {
                model::lemma_edit_dist_le_max(s@.take(i as int), t@.take(j + 1));
                model::lemma_edit_dist_le_max(s@.take(i + 1), t@.take(j as int));
                model::lemma_edit_dist_le_max(s@.take(i as int), t@.take(j as int));
                model::lemma_edit_dist_step(s@, t@, i + 1, j + 1);
            }
            let deletion: usize = prev[j + 1] + 1;
            let insertion: usize = curr[j] + 1;
            let substitution: usize = prev[j] + cost;
            let mut best: usize = if insertion <= deletion {
                insertion
            } else {
                deletion
            };
            if substitution <= best {
                best = substitution;
            }
            curr.set(j + 1, best);
            j += 1;
        }
        std::mem::swap(&mut prev, &mut curr);
        i += 1;
    }
    proof {
        assert(s@.take(m as int) =~= s@);
        assert(t@.take(n as int) =~= t@);
    }
    prev[n]
}

/// Calculates the Levenshtein distance between strings `s` and `t`: the
/// minimum number of single-character insertions, deletions, and
/// substitutions that turns `s` into `t`, counted over Unicode scalar values.
///
/// The length bounds only rule out inputs whose working row of `len + 1`
/// entries could not be addressed on the machine at all.
pub fn distance(s: &str, t: &str) -> (r: usize)
    requires
        s@.len() < usize::MAX,
        t@.len() < usize::MAX,
    ensures
        r == edit_dist(s@, t@),
{
    let sc = chars_of(s);
    let tc = chars_of(t);
    two_row_sweep(&sc, &tc)
}

} // verus!
