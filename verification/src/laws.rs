//! The metric laws of the edit distance.
//!
//! These proof functions state, over the model in `model`, the properties the
//! distance is expected to have: it is zero exactly on equal sequences,
//! symmetric, bounded by the length of either side when one is empty, changed
//! by exactly one by a single edit, and it satisfies the triangle inequality.

use vstd::prelude::*;

use crate::model::{edit_dist, lemma_edit_dist_ge_len_diff, lemma_edit_dist_le_max, sub_cost};

verus! {

/// Identity: a sequence is at distance zero from itself.
pub proof fn lemma_identity(s: Seq<char>)
    ensures
        edit_dist(s, s) == 0,
    decreases s.len(),
{
    if s.len() == 0 {
    } else {
        lemma_identity(s.drop_last());
        assert(sub_cost(s.last(), s.last()) == 0);
    }
}

/// The distance is zero only between equal sequences; together with
/// `lemma_identity` this makes `edit_dist(s, t) == 0` equivalent to `s == t`.
pub proof fn lemma_zero_only_on_equal(s: Seq<char>, t: Seq<char>)
    requires
        edit_dist(s, t) == 0,
    ensures
        s == t,
    decreases s.len() + t.len(),
{
    if s.len() == 0 {
        assert(t.len() == 0);
        assert(s =~= t);
    } else if t.len() == 0 {
    } else {
        assert(edit_dist(s.drop_last(), t.drop_last()) + sub_cost(s.last(), t.last()) == 0);
        lemma_zero_only_on_equal(s.drop_last(), t.drop_last());
        assert(s =~= t) by {
            assert(s.len() == t.len());
            assert(forall|k: int|
                0 <= k < s.len() - 1 ==> s[k] == s.drop_last()[k] && t[k] == t.drop_last()[k]);
        }
    }
}

/// Symmetry: the distance from `s` to `t` equals the distance from `t` to `s`.
pub proof fn lemma_symmetry(s: Seq<char>, t: Seq<char>)
    ensures
        edit_dist(s, t) == edit_dist(t, s),
    decreases s.len() + t.len(),
{
    if s.len() == 0 {
    } else if t.len() == 0 {
    } else {
        lemma_symmetry(s.drop_last(), t);
        lemma_symmetry(s, t.drop_last());
        lemma_symmetry(s.drop_last(), t.drop_last());
    }
}

/// Dropping the last element of the left sequence moves the distance by at
/// most one in either direction.
pub proof fn lemma_drop_last_left(s: Seq<char>, t: Seq<char>)
    requires
        s.len() > 0,
    ensures
        edit_dist(s, t) <= edit_dist(s.drop_last(), t) + 1,
        edit_dist(s.drop_last(), t) <= edit_dist(s, t) + 1,
    decreases s.len() + t.len(),
{
    if t.len() == 0 {
    } else if s.len() == 1 {
        assert(s.drop_last().len() == 0);
        lemma_edit_dist_ge_len_diff(s, t);
    } else {
        // Dropping the last of `t` from the already shortened `s` costs at
        // most one; the inductive hypothesis relates that to `s` itself.
        assert(edit_dist(s.drop_last(), t) <= edit_dist(s.drop_last(), t.drop_last()) + 1);
        lemma_drop_last_left(s, t.drop_last());
    }
}

/// Dropping the last element of the right sequence moves the distance by at
/// most one in either direction.
pub proof fn lemma_drop_last_right(s: Seq<char>, t: Seq<char>)
    requires
        t.len() > 0,
    ensures
        edit_dist(s, t) <= edit_dist(s, t.drop_last()) + 1,
        edit_dist(s, t.drop_last()) <= edit_dist(s, t) + 1,
{
    lemma_symmetry(s, t);
    lemma_symmetry(s, t.drop_last());
    lemma_drop_last_left(t, s);
}

/// Triangle inequality: editing `x` into `y` and then `y` into `z` is one way
/// of editing `x` into `z`, so the direct distance can only be smaller.
pub proof fn lemma_triangle(x: Seq<char>, y: Seq<char>, z: Seq<char>)
    ensures
        edit_dist(x, z) <= edit_dist(x, y) + edit_dist(y, z),
    decreases x.len() + y.len() + z.len(),
{
    if y.len() == 0 {
        lemma_edit_dist_le_max(x, z);
    } else if x.len() == 0 {
        lemma_edit_dist_ge_len_diff(y, z);
    } else if z.len() == 0 {
        lemma_edit_dist_ge_len_diff(x, y);
    } else {
        let dxy = edit_dist(x, y);
        let dyz = edit_dist(y, z);
        if dxy == edit_dist(x.drop_last(), y) + 1 {
            lemma_triangle(x.drop_last(), y, z);
            lemma_drop_last_left(x, z);
        } else if dxy == edit_dist(x, y.drop_last()) + 1 {
            lemma_triangle(x, y.drop_last(), z);
            lemma_drop_last_left(y, z);
        } else {
            assert(dxy == edit_dist(x.drop_last(), y.drop_last()) + sub_cost(x.last(), y.last()));
            if dyz == edit_dist(y, z.drop_last()) + 1 {
                lemma_triangle(x, y, z.drop_last());
                lemma_drop_last_right(x, z);
            } else if dyz == edit_dist(y.drop_last(), z) + 1 {
                lemma_triangle(x, y.drop_last(), z);
                lemma_drop_last_right(x, y);
            } else {
                assert(dyz == edit_dist(y.drop_last(), z.drop_last())
                    + sub_cost(y.last(), z.last()));
                lemma_triangle(x.drop_last(), y.drop_last(), z.drop_last());
                assert(edit_dist(x, z) <= edit_dist(x.drop_last(), z.drop_last())
                    + sub_cost(x.last(), z.last()));
                assert(sub_cost(x.last(), z.last())
                    <= sub_cost(x.last(), y.last()) + sub_cost(y.last(), z.last()));
            }
        }
    }
}

/// Empty-sequence boundary: against the empty sequence, the distance is the
/// length of the other sequence.
pub proof fn lemma_empty(s: Seq<char>, t: Seq<char>)
    ensures
        edit_dist(Seq::<char>::empty(), t) == t.len(),
        edit_dist(s, Seq::<char>::empty()) == s.len(),
{
}

/// Appending the same suffix to both sequences cannot increase the distance:
/// the suffix positions align with matching characters at no cost.
pub proof fn lemma_common_suffix_le(p: Seq<char>, q: Seq<char>, u: Seq<char>)
    ensures
        edit_dist(p + u, q + u) <= edit_dist(p, q),
    decreases u.len(),
{
    if u.len() == 0 {
        assert(p + u =~= p);
        assert(q + u =~= q);
    } else {
        lemma_common_suffix_le(p, q, u.drop_last());
        assert((p + u).drop_last() =~= p + u.drop_last());
        assert((q + u).drop_last() =~= q + u.drop_last());
        assert((p + u).last() == u.last());
        assert((q + u).last() == u.last());
        assert(sub_cost((p + u).last(), (q + u).last()) == 0);
    }
}

/// Appending one element to a sequence puts it at distance exactly one.
pub proof fn lemma_append_one(s: Seq<char>, c: char)
    ensures
        edit_dist(s, s + seq![c]) == 1,
{
    let t = s + seq![c];
    assert(t.len() == s.len() + 1);
    if s.len() == 0 {
        assert(edit_dist(s, t) == 1);
    } else {
        assert(t.drop_last() =~= s);
        lemma_identity(s);
        assert(edit_dist(s, t) <= edit_dist(s, t.drop_last()) + 1);
    }
    lemma_edit_dist_ge_len_diff(s, t);
}

/// Single insertion: inserting one element anywhere in a sequence yields a
/// sequence at distance exactly one.
pub proof fn lemma_single_insertion(a: Seq<char>, b: Seq<char>, c: char)
    ensures
        edit_dist(a + b, a + seq![c] + b) == 1,
{
    lemma_common_suffix_le(a, a + seq![c], b);
    lemma_append_one(a, c);
    lemma_edit_dist_ge_len_diff(a + b, a + seq![c] + b);
    assert((a + b).len() + 1 == (a + seq![c] + b).len());
    assert((a + seq![c]) + b =~= a + seq![c] + b);
}

/// Single deletion: removing one element anywhere from a sequence yields a
/// sequence at distance exactly one.
pub proof fn lemma_single_deletion(a: Seq<char>, b: Seq<char>, c: char)
    ensures
        edit_dist(a + seq![c] + b, a + b) == 1,
{
    lemma_single_insertion(a, b, c);
    lemma_symmetry(a + b, a + seq![c] + b);
}

/// Single substitution: replacing one element of a sequence by a different
/// one yields a sequence at distance exactly one.
pub proof fn lemma_single_substitution(a: Seq<char>, b: Seq<char>, c1: char, c2: char)
    requires
        c1 != c2,
    ensures
        edit_dist(a + seq![c1] + b, a + seq![c2] + b) == 1,
{
    let x = a + seq![c1] + b;
    let y = a + seq![c2] + b;
    // At most one: align the common prefix and suffix and substitute once.
    lemma_common_suffix_le(a + seq![c1], a + seq![c2], b);
    assert((a + seq![c1]) + b =~= x);
    assert((a + seq![c2]) + b =~= y);
    assert((a + seq![c1]).drop_last() =~= a);
    assert((a + seq![c2]).drop_last() =~= a);
    lemma_identity(a);
    assert((a + seq![c1]).last() == c1);
    assert((a + seq![c2]).last() == c2);
    assert(edit_dist(a + seq![c1], a + seq![c2]) <= 1);
    // At least one: the sequences differ at the substituted position.
    assert(x[a.len() as int] == c1);
    assert(y[a.len() as int] == c2);
    if edit_dist(x, y) == 0 {
        lemma_zero_only_on_equal(x, y);
    }
}

/// Non-negativity: the distance is never below zero.
pub proof fn lemma_nonnegative(s: Seq<char>, t: Seq<char>)
    ensures
        edit_dist(s, t) >= 0,
{
}

} // verus!
