//! The order of labels: that of strings, character by character.

use vstd::prelude::*;
use vstd::relations::{sorted_by, total_ordering};
use vstd::seq_lib::lemma_sorted_unique;

verus! {

/// Whether `a` stands before `b`, or equals it, in the order of strings:
/// character by character, by code point, a prefix before what extends it.
pub open spec fn label_le(a: Seq<char>, b: Seq<char>) -> bool
    decreases a.len(),
{
    if a.len() == 0 {
        true
    } else if b.len() == 0 {
        false
    } else if a[0] != b[0] {
        (a[0] as u32) < (b[0] as u32)
    } else {
        label_le(a.drop_first(), b.drop_first())
    }
}

/// Whether each label stands before, or equals, every later one.
pub open spec fn ascending(names: Seq<Seq<char>>) -> bool {
    forall|i: int, j: int| 0 <= i <= j < names.len() ==> label_le(names[i], names[j])
}

/// Different characters have different code points.
proof fn lemma_code_points_differ(c: char, d: char)
    requires
        c != d,
    ensures
        (c as u32) != (d as u32),
{
}

/// Every label stands before or equals itself.
pub proof fn lemma_label_le_reflexive(a: Seq<char>)
    ensures
        label_le(a, a),
    decreases a.len(),
{
    if a.len() > 0 {
        lemma_label_le_reflexive(a.drop_first());
    }
}

/// Of two labels one stands before the other, or they are equal.
pub proof fn lemma_label_le_connected(a: Seq<char>, b: Seq<char>)
    ensures
        label_le(a, b) || label_le(b, a),
    decreases a.len(),
{
    if a.len() > 0 && b.len() > 0 {
        if a[0] == b[0] {
            lemma_label_le_connected(a.drop_first(), b.drop_first());
        } else {
            lemma_code_points_differ(a[0], b[0]);
        }
    }
}

/// Two labels that each stand before or equal the other are equal.
pub proof fn lemma_label_le_antisymmetric(a: Seq<char>, b: Seq<char>)
    requires
        label_le(a, b),
        label_le(b, a),
    ensures
        a == b,
    decreases a.len(),
{
    if a.len() == 0 {
        assert(a =~= b);
    } else {
        lemma_label_le_antisymmetric(a.drop_first(), b.drop_first());
        assert(a =~= seq![a[0]] + a.drop_first());
        assert(b =~= seq![b[0]] + b.drop_first());
    }
}

/// What stands before or equals a label stands before or equals all that
/// the label does.
pub proof fn lemma_label_le_transitive(a: Seq<char>, b: Seq<char>, c: Seq<char>)
    requires
        label_le(a, b),
        label_le(b, c),
    ensures
        label_le(a, c),
    decreases a.len(),
{
    if a.len() > 0 && a[0] == b[0] && b[0] == c[0] {
        lemma_label_le_transitive(a.drop_first(), b.drop_first(), c.drop_first());
    }
}

/// Labels have one ascending arrangement: two ascending lists that hold the
/// same labels, each as often, are the same list. So the
/// order in which sorted labels are shown depends on the labels alone, not on
/// the order in which they were given.
pub proof fn lemma_ascending_is_unique(x: Seq<Seq<char>>, y: Seq<Seq<char>>)
    requires
        ascending(x),
        ascending(y),
        x.to_multiset() == y.to_multiset(),
    ensures
        x == y,
{
    let le = |a: Seq<char>, b: Seq<char>| label_le(a, b);
    assert(total_ordering(le)) by {
        assert forall|a: Seq<char>| #[trigger] le(a, a) by {
            lemma_label_le_reflexive(a);
        }
        assert forall|a: Seq<char>, b: Seq<char>| #[trigger] le(a, b) && #[trigger] le(b, a)
            implies a == b by {
            lemma_label_le_antisymmetric(a, b);
        }
        assert forall|a: Seq<char>, b: Seq<char>, c: Seq<char>| #[trigger]
            le(a, b) && #[trigger] le(b, c) implies le(a, c) by {
            lemma_label_le_transitive(a, b, c);
        }
        assert forall|a: Seq<char>, b: Seq<char>| #[trigger] le(a, b) || #[trigger] le(b, a) by {
            lemma_label_le_connected(a, b);
        }
    }
    assert(sorted_by(x, le));
    assert(sorted_by(y, le));
    lemma_sorted_unique(x, y, le);
}

} // verus!
