//! The mathematical model of Levenshtein edit distance.
//!
//! `edit_dist` defines the distance recursively over the last elements of the
//! two sequences; the executable code and all stated laws are proved against
//! this one definition.

use vstd::prelude::*;

verus! {

/// Cost of turning character `a` into character `b` by one substitution:
/// free when they already match, one edit otherwise.
pub open spec fn sub_cost(a: char, b: char) -> nat {
    if a == b {
        0
    } else {
        1
    }
}

/// The least of three natural numbers.
pub open spec fn min3(a: nat, b: nat, c: nat) -> nat {
    if a <= b && a <= c {
        a
    } else if b <= c {
        b
    } else {
        c
    }
}

/// Levenshtein edit distance between two character sequences: the minimum
/// number of single-character insertions, deletions, and substitutions that
/// turns `s` into `t`.
///
/// An empty sequence is reached from the other sequence by deleting (or built
/// by inserting) every element; otherwise the last elements either align, at
/// `sub_cost`, or one of them is removed at cost one.
pub open spec fn edit_dist(s: Seq<char>, t: Seq<char>) -> nat
    decreases s.len() + t.len(),
{
    if s.len() == 0 {
        t.len()
    } else if t.len() == 0 {
        s.len()
    } else {
        min3(
            edit_dist(s.drop_last(), t) + 1,
            edit_dist(s, t.drop_last()) + 1,
            edit_dist(s.drop_last(), t.drop_last()) + sub_cost(s.last(), t.last()),
        )
    }
}

/// The distance between prefixes obeys the dynamic-programming recurrence
/// over prefix lengths: this is the form the row-based computation uses.
pub proof fn lemma_edit_dist_step(s: Seq<char>, t: Seq<char>, i: int, j: int)
    requires
        1 <= i <= s.len(),
        1 <= j <= t.len(),
    ensures
        edit_dist(s.take(i), t.take(j)) == min3(
            edit_dist(s.take(i - 1), t.take(j)) + 1,
            edit_dist(s.take(i), t.take(j - 1)) + 1,
            edit_dist(s.take(i - 1), t.take(j - 1)) + sub_cost(s[i - 1], t[j - 1]),
        ),
{
    assert(s.take(i).drop_last() =~= s.take(i - 1));
    assert(t.take(j).drop_last() =~= t.take(j - 1));
    assert(s.take(i).last() == s[i - 1]);
    assert(t.take(j).last() == t[j - 1]);
}

/// The distance never exceeds the length of the longer sequence: aligning the
/// common positions and inserting or deleting the overhang is always possible.
pub proof fn lemma_edit_dist_le_max(s: Seq<char>, t: Seq<char>)
    ensures
        edit_dist(s, t) <= s.len() || edit_dist(s, t) <= t.len(),
        edit_dist(s, t) <= s.len() + t.len(),
    decreases s.len() + t.len(),
{
    if s.len() == 0 {
    } else if t.len() == 0 {
    } else {
        lemma_edit_dist_le_max(s.drop_last(), t.drop_last());
    }
}

/// The distance is at least the difference of the two lengths: every edit
/// changes the length by at most one.
pub proof fn lemma_edit_dist_ge_len_diff(s: Seq<char>, t: Seq<char>)
    ensures
        edit_dist(s, t) + s.len() >= t.len(),
        edit_dist(s, t) + t.len() >= s.len(),
    decreases s.len() + t.len(),
{
    if s.len() == 0 {
    } else if t.len() == 0 {
    } else {
        lemma_edit_dist_ge_len_diff(s.drop_last(), t);
        lemma_edit_dist_ge_len_diff(s, t.drop_last());
        lemma_edit_dist_ge_len_diff(s.drop_last(), t.drop_last());
    }
}

} // verus!
