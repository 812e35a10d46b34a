//! The order of named values, as sets of them are listed: by variant first,
//! then by the text of a value that holds one, character by character.

use crate::item_set::{view_set, views_unique, SetItem};
use vstd::prelude::*;

verus! {

/// Whether the text `a` comes before the text `b`: at the first character
/// where they differ, `a` has the smaller code point, or `a` is a proper
/// prefix of `b`. On UTF-8 text this is the order of the bytes.
pub open spec fn chars_lt(a: Seq<char>, b: Seq<char>) -> bool
    decreases a.len(),
{
    if a.len() == 0 {
        b.len() > 0
    } else if b.len() == 0 {
        false
    } else if a[0] != b[0] {
        (a[0] as int) < (b[0] as int)
    } else {
        chars_lt(a.drop_first(), b.drop_first())
    }
}

/// Whether the named value `x` comes before `y`: a smaller variant first,
/// then, within one variant, the smaller text.
pub open spec fn name_lt(x: (u8, Seq<char>), y: (u8, Seq<char>)) -> bool {
    x.0 < y.0 || (x.0 == y.0 && chars_lt(x.1, y.1))
}

/// No text comes before itself, and of two texts at most one comes first.
pub proof fn lemma_chars_lt_asymmetric(a: Seq<char>, b: Seq<char>)
    ensures
        chars_lt(a, b) ==> !chars_lt(b, a),
    decreases a.len(),
{
    if a.len() > 0 && b.len() > 0 && a[0] == b[0] {
        lemma_chars_lt_asymmetric(a.drop_first(), b.drop_first());
    }
}

/// Of two different texts, one comes first.
pub proof fn lemma_chars_lt_total(a: Seq<char>, b: Seq<char>)
    ensures
        a != b ==> chars_lt(a, b) || chars_lt(b, a),
    decreases a.len(),
{
    if a.len() > 0 && b.len() > 0 {
        if a[0] == b[0] {
            lemma_chars_lt_total(a.drop_first(), b.drop_first());
            if a.drop_first() == b.drop_first() {
                assert(a =~= seq![a[0]] + a.drop_first());
                assert(b =~= seq![b[0]] + b.drop_first());
            }
        } else {
            assert((a[0] as int) != (b[0] as int));
        }
    } else if a.len() == 0 && b.len() == 0 {
        assert(a =~= b);
    }
}

/// The order of texts is transitive.
pub proof fn lemma_chars_lt_transitive(a: Seq<char>, b: Seq<char>, c: Seq<char>)
    requires
        chars_lt(a, b),
        chars_lt(b, c),
    ensures
        chars_lt(a, c),
    decreases a.len(),
{
    if a.len() > 0 && a[0] == b[0] && b[0] == c[0] {
        lemma_chars_lt_transitive(a.drop_first(), b.drop_first(), c.drop_first());
    }
}

/// The order of named values is a strict total order.
pub proof fn lemma_name_lt_order(x: (u8, Seq<char>), y: (u8, Seq<char>), z: (u8, Seq<char>))
    ensures
        !name_lt(x, x),
        name_lt(x, y) ==> !name_lt(y, x),
        x != y ==> name_lt(x, y) || name_lt(y, x),
        name_lt(x, y) && name_lt(y, z) ==> name_lt(x, z),
{
    lemma_chars_lt_asymmetric(x.1, x.1);
    lemma_chars_lt_asymmetric(x.1, y.1);
    lemma_chars_lt_total(x.1, y.1);
    if name_lt(x, y) && name_lt(y, z) && x.0 == y.0 && y.0 == z.0 {
        lemma_chars_lt_transitive(x.1, y.1, z.1);
    }
}

/// Whether each value of `s` comes before every later one.
pub open spec fn names_sorted<T: View<V = (u8, Seq<char>)>>(s: Seq<T>) -> bool {
    forall|i: int, j: int| 0 <= i < j < s.len() ==> name_lt(#[trigger] s[i]@, #[trigger] s[j]@)
}

/// A sorted sequence holds no value twice.
pub proof fn lemma_sorted_unique<T: View<V = (u8, Seq<char>)>>(s: Seq<T>)
    requires
        names_sorted(s),
    ensures
        views_unique(s),
{
    assert forall|i: int, j: int| 0 <= i < j < s.len() implies s[i]@ != s[j]@ by {
        lemma_name_lt_order(s[i]@, s[j]@, s[j]@);
    }
}

/// A value whose place among named values can be decided.
pub trait NamedItem: SetItem + View<V = (u8, Seq<char>)> {
    /// Whether the value comes before `other`.
    fn precedes(&self, other: &Self) -> (r: bool)
        ensures
            r == name_lt(self@, other@),
    ;
}

/// Inserting a value at a position adds its view to the view set.
proof fn lemma_view_set_insert<T: View>(s: Seq<T>, p: int, t: T)
    requires
        0 <= p <= s.len(),
    ensures
        view_set(s.insert(p, t)) == view_set(s).insert(t@),
{
    let u = s.insert(p, t);
    assert forall|x: T::V| view_set(u).contains(x) implies view_set(s).insert(t@).contains(x) by {
        let k = choose|k: int| 0 <= k < u.len() && #[trigger] u[k]@ == x;
        if k < p {
            assert(u[k] == s[k]);
        } else if k > p {
            assert(u[k] == s[k - 1]);
        }
    }
    assert forall|x: T::V| view_set(s).insert(t@).contains(x) implies view_set(u).contains(x) by {
        if x == t@ {
            assert(u[p] == t);
        } else {
            let k = choose|k: int| 0 <= k < s.len() && #[trigger] s[k]@ == x;
            if k < p {
                assert(u[k] == s[k]);
            } else {
                assert(u[k + 1] == s[k]);
            }
        }
    }
    assert(view_set(u) =~= view_set(s).insert(t@));
}

/// The values of `items`, each once, in the order of named values.
pub fn sort_names<T: NamedItem>(items: &Vec<T>) -> (r: Vec<T>)
    ensures
        view_set(r@) == view_set(items@),
        names_sorted(r@),
        views_unique(r@),
{
    let mut out: Vec<T> = Vec::new();
    let mut i: usize = 0;
    proof {
        assert(view_set(items@.take(0)) =~= view_set(out@));
    }
    while i < items.len()
        invariant
            i <= items@.len(),
            view_set(out@) == view_set(items@.take(i as int)),
            names_sorted(out@),
        decreases items@.len() - i,
    {
        let x = items[i].duplicate();
        let mut p: usize = 0;
        while p < out.len() && out[p].precedes(&x)
            invariant
                p <= out@.len(),
                forall|k: int| 0 <= k < p ==> name_lt(#[trigger] out@[k]@, x@),
            decreases out@.len() - p,
        {
            p = p + 1;
        }
        proof {
            assert(items@.take(i + 1) =~= items@.take(i as int).push(items@[i as int]));
            crate::item_set::lemma_view_set_push(items@.take(i as int), items@[i as int]);
        }
        if p < out.len() && !x.precedes(&out[p]) {
            proof {
                lemma_name_lt_order(x@, out@[p as int]@, x@);
                assert(view_set(out@).contains(x@));
                assert(view_set(out@).insert(x@) =~= view_set(out@));
            }
        } else {
            let ghost before = out@;
            out.insert(p, x);
            proof {
                lemma_view_set_insert(before, p as int, x);
                assert forall|a: int, b: int| 0 <= a < b < out@.len() implies name_lt(
                    #[trigger] out@[a]@,
                    #[trigger] out@[b]@,
                ) by {
                    if b == p {
                        assert(out@[a] == before[a]);
                    } else if a == p {
                        assert(out@[b] == before[b - 1]);
                        if b - 1 > p {
                            lemma_name_lt_order(x@, before[p as int]@, before[b - 1]@);
                        }
                    } else if a < p && b < p {
                        assert(out@[a] == before[a] && out@[b] == before[b]);
                    } else if a < p {
                        assert(out@[a] == before[a] && out@[b] == before[b - 1]);
                    } else {
                        assert(out@[a] == before[a - 1] && out@[b] == before[b - 1]);
                    }
                }
            }
        }
        i = i + 1;
    }
    proof {
        assert(items@.take(items@.len() as int) =~= items@);
        lemma_sorted_unique(out@);
    }
    out
}

} // verus!
