use vstd::prelude::*;

verus! {

/// A value that a set of this library can hold: equality and copying are
/// decided by the value's view.
pub trait SetItem: View + Sized {
    /// Whether the two values are the same.
    fn same_as(&self, other: &Self) -> (r: bool)
        ensures
            r == (self@ == other@),
    ;

    /// A copy of the value.
    fn duplicate(&self) -> (r: Self)
        ensures
            r@ == self@,
    ;
}

impl SetItem for u64 {
    fn same_as(&self, other: &u64) -> (r: bool) {
        *self == *other
    }

    fn duplicate(&self) -> (r: u64) {
        *self
    }
}

impl SetItem for String {
    fn same_as(&self, other: &String) -> (r: bool) {
        crate::strings::str_eq(self.as_str(), other.as_str())
    }

    fn duplicate(&self) -> (r: String) {
        crate::strings::owned(self.as_str())
    }
}

/// Whether no value occurs twice in `items`.
pub fn all_unique<T: SetItem>(items: &[T]) -> (r: bool)
    ensures
        r == views_unique(items@),
{
    let n = items.len();
    let mut i: usize = 0;
    while i < n
        invariant
            n == items@.len(),
            i <= n,
            forall|a: int, b: int| 0 <= a < b < n && a < i ==> items@[a]@ != items@[b]@,
        decreases n - i,
    {
        let mut j: usize = i + 1;
        while j < n
            invariant
                n == items@.len(),
                i < n,
                i < j <= n,
                forall|a: int, b: int| 0 <= a < b < n && a < i ==> items@[a]@ != items@[b]@,
                forall|b: int| i < b < j ==> items@[i as int]@ != items@[b]@,
            decreases n - j,
        {
            if items[i].same_as(&items[j]) {
                return false;
            }
            j = j + 1;
        }
        i = i + 1;
    }
    true
}

/// The views of the values in a sequence, as a set.
pub open spec fn view_set<T: View>(s: Seq<T>) -> Set<T::V> {
    Set::new(|v: T::V| exists|i: int| 0 <= i < s.len() && #[trigger] s[i]@ == v)
}

/// No view occurs twice in the sequence.
pub open spec fn views_unique<T: View>(s: Seq<T>) -> bool {
    forall|i: int, j: int| 0 <= i < j < s.len() ==> s[i]@ != s[j]@
}

/// A finite set of values, held without duplicates in the order in which
/// they were first inserted.
#[derive(Debug)]
pub struct ItemSet<T: SetItem> {
    items: Vec<T>,
}

impl<T: SetItem> View for ItemSet<T> {
    type V = Set<T::V>;

    closed spec fn view(&self) -> Set<T::V> {
        view_set(self.items@)
    }
}

/// Appending a value adds its view to the view set.
pub proof fn lemma_view_set_push<T: View>(s: Seq<T>, t: T)
    ensures
        view_set(s.push(t)) == view_set(s).insert(t@),
{
    assert forall|x: T::V| view_set(s.push(t)).contains(x) implies view_set(s).insert(
        t@,
    ).contains(x) by {
        let k = choose|k: int| 0 <= k < s.push(t).len() && #[trigger] s.push(t)[k]@ == x;
        if k < s.len() {
            assert(s.push(t)[k] == s[k]);
        }
    }
    assert forall|x: T::V| view_set(s).insert(t@).contains(x) implies view_set(
        s.push(t),
    ).contains(x) by {
        if x == t@ {
            assert(s.push(t)[s.len() as int] == t);
        } else {
            let k = choose|k: int| 0 <= k < s.len() && #[trigger] s[k]@ == x;
            assert(s.push(t)[k] == s[k]);
        }
    }
    assert(view_set(s.push(t)) =~= view_set(s).insert(t@));
}

/// A sequence without duplicates has as many views as values.
pub proof fn lemma_view_set_len<T: View>(s: Seq<T>)
    requires
        views_unique(s),
    ensures
        view_set(s).finite(),
        view_set(s).len() == s.len(),
    decreases s.len(),
{
    if s.len() == 0 {
        assert(view_set(s) =~= Set::empty());
    } else {
        let p = s.drop_last();
        lemma_view_set_len(p);
        assert(s =~= p.push(s.last()));
        lemma_view_set_push(p, s.last());
        if view_set(p).contains(s.last()@) {
            let k = choose|k: int| 0 <= k < p.len() && #[trigger] p[k]@ == s.last()@;
            assert(s[k] == p[k]);
        }
    }
}

/// The empty sequence has no views.
pub proof fn lemma_view_set_empty<T: View>(s: Seq<T>)
    requires
        s.len() == 0,
    ensures
        view_set(s) == Set::<T::V>::empty(),
{
    assert(view_set(s) =~= Set::<T::V>::empty());
}

impl<T: SetItem> ItemSet<T> {
    #[verifier::type_invariant]
    closed spec fn well_formed(self) -> bool {
        views_unique(self.items@)
    }

    /// The values in insertion order.
    pub closed spec fn seq(self) -> Seq<T> {
        self.items@
    }

    /// The empty set.
    pub fn new() -> (r: Self)
        ensures
            r@ == Set::<T::V>::empty(),
            r.seq().len() == 0,
    {
        let r = ItemSet { items: Vec::new() };
        proof {
            lemma_view_set_empty(r.items@);
        }
        r
    }

    /// Whether a value with the view of `t` is in the set.
    pub fn contains(&self, t: &T) -> (r: bool)
        ensures
            r == self@.contains(t@),
    {
        let mut i: usize = 0;
        while i < self.items.len()
            invariant
                i <= self.items@.len(),
                forall|k: int| 0 <= k < i ==> self.items@[k]@ != t@,
            decreases self.items@.len() - i,
        {
            if self.items[i].same_as(t) {
                assert(view_set(self.items@).contains(self.items@[i as int]@));
                assert(self@.contains(t@));
                return true;
            }
            i = i + 1;
        }
        false
    }

    /// Adds a value unless a value with its view is present already.
    pub fn insert(&mut self, t: T)
        ensures
            final(self)@ == old(self)@.insert(t@),
            old(self)@.contains(t@) ==> final(self).seq() == old(self).seq(),
            !old(self)@.contains(t@) ==> final(self).seq() == old(self).seq().push(t),
    {
        proof {
            use_type_invariant(&*self);
        }
        if self.contains(&t) {
            proof {
                assert(self@.insert(t@) =~= self@);
            }
            return;
        }
        let mut items: Vec<T> = Vec::new();
        std::mem::swap(&mut items, &mut self.items);
        let ghost before = items@;
        items.push(t);
        proof {
            lemma_view_set_push(before, t);
            assert forall|i: int, j: int| 0 <= i < j < items@.len() implies items@[i]@
                != items@[j]@ by {
                if j == before.len() {
                    assert(items@[i] == before[i]);
                    assert(view_set(before).contains(before[i]@));
                } else {
                    assert(items@[i] == before[i]);
                    assert(items@[j] == before[j]);
                }
            }
        }
        self.items = items;
    }

    /// The number of values in the set.
    pub fn len(&self) -> (r: usize)
        ensures
            r == self@.len(),
            r == self.seq().len(),
            self@.finite(),
    {
        proof {
            use_type_invariant(self);
            lemma_view_set_len(self.items@);
        }
        self.items.len()
    }

    /// Whether the set holds no value.
    pub fn is_empty(&self) -> (r: bool)
        ensures
            r <==> self@ == Set::<T::V>::empty(),
    {
        proof {
            if self.items@.len() > 0 {
                let v0 = self.items@[0]@;
                assert(view_set(self.items@).contains(v0));
                assert(!Set::<T::V>::empty().contains(v0));
                assert(self@.contains(v0));
            } else {
                lemma_view_set_empty(self.items@);
            }
        }
        self.items.len() == 0
    }

    /// The values present in both sets, in the order of `self`.
    pub fn intersect(&self, other: &ItemSet<T>) -> (r: ItemSet<T>)
        ensures
            r@ == self@.intersect(other@),
    {
        proof {
            use_type_invariant(self);
        }
        let mut items: Vec<T> = Vec::new();
        let mut i: usize = 0;
        proof {
            lemma_view_set_empty(items@);
            assert(view_set(self.items@.take(0)) =~= Set::<T::V>::empty());
        }
        while i < self.items.len()
            invariant
                i <= self.items@.len(),
                views_unique(self.items@),
                views_unique(items@),
                forall|j: int|
                    0 <= j < items@.len() ==> exists|k: int|
                        0 <= k < i && #[trigger] items@[j]@ == self.items@[k]@,
                view_set(items@) == view_set(self.items@.take(i as int)).intersect(other@),
            decreases self.items@.len() - i,
        {
            let ghost prev = items@;
            let ghost t = self.items@[i as int];
            if other.contains(&self.items[i]) {
                let d = self.items[i].duplicate();
                items.push(d);
                proof {
                    lemma_view_set_push(prev, d);
                    assert forall|a: int, b: int| 0 <= a < b < items@.len() implies items@[a]@
                        != items@[b]@ by {
                        if b == prev.len() {
                            assert(items@[a] == prev[a]);
                            let k = choose|k: int| 0 <= k < i && #[trigger] prev[a]@ == self.items@[k]@;
                        } else {
                            assert(items@[a] == prev[a]);
                            assert(items@[b] == prev[b]);
                        }
                    }
                    assert forall|j: int| 0 <= j < items@.len() implies exists|k: int|
                        0 <= k < i + 1 && #[trigger] items@[j]@ == self.items@[k]@ by {
                        if j < prev.len() {
                            assert(items@[j] == prev[j]);
                            let k = choose|k: int| 0 <= k < i && #[trigger] prev[j]@ == self.items@[k]@;
                            assert(items@[j]@ == self.items@[k]@);
                        } else {
                            assert(items@[j]@ == self.items@[i as int]@);
                        }
                    }
                }
            } else {
                proof {
                    assert forall|j: int| 0 <= j < items@.len() implies exists|k: int|
                        0 <= k < i + 1 && #[trigger] items@[j]@ == self.items@[k]@ by {
                        let k = choose|k: int| 0 <= k < i && #[trigger] items@[j]@ == self.items@[k]@;
                        assert(items@[j]@ == self.items@[k]@);
                    }
                }
            }
            proof {
                let tk = self.items@.take(i as int);
                let tk1 = self.items@.take(i + 1);
                assert(tk1 =~= tk.push(t));
                lemma_view_set_push(tk, t);
                assert(view_set(items@) =~= view_set(tk1).intersect(other@));
            }
            i = i + 1;
        }
        proof {
            assert(self.items@.take(self.items@.len() as int) =~= self.items@);
        }
        ItemSet { items }
    }

    /// A copy of the set.
    pub fn duplicate(&self) -> (r: ItemSet<T>)
        ensures
            r@ == self@,
            r.seq().len() == self.seq().len(),
            forall|i: int| 0 <= i < self.seq().len() ==> #[trigger] r.seq()[i]@ == self.seq()[i]@,
    {
        proof {
            use_type_invariant(self);
        }
        let mut items: Vec<T> = Vec::new();
        let mut i: usize = 0;
        while i < self.items.len()
            invariant
                i <= self.items@.len(),
                items@.len() == i,
                forall|k: int| 0 <= k < i ==> #[trigger] items@[k]@ == self.items@[k]@,
            decreases self.items@.len() - i,
        {
            items.push(self.items[i].duplicate());
            i = i + 1;
        }
        proof {
            assert forall|a: int, b: int| 0 <= a < b < items@.len() implies items@[a]@
                != items@[b]@ by {
                assert(items@[a]@ == self.items@[a]@);
                assert(items@[b]@ == self.items@[b]@);
            }
            assert(view_set(items@) =~= view_set(self.items@)) by {
                assert forall|v: T::V| view_set(items@).contains(v) implies view_set(
                    self.items@,
                ).contains(v) by {
                    let k = choose|k: int| 0 <= k < items@.len() && #[trigger] items@[k]@ == v;
                    assert(self.items@[k]@ == v);
                }
                assert forall|v: T::V| view_set(self.items@).contains(v) implies view_set(
                    items@,
                ).contains(v) by {
                    let k = choose|k: int| 0 <= k < self.items@.len() && #[trigger] self.items@[k]@ == v;
                    assert(items@[k]@ == v);
                }
            }
        }
        ItemSet { items }
    }

    /// Copies of the values, in insertion order.
    pub fn to_vec(&self) -> (r: Vec<T>)
        ensures
            r@.len() == self.seq().len(),
            forall|i: int| 0 <= i < r@.len() ==> #[trigger] r@[i]@ == self.seq()[i]@,
            view_set(r@) == self@,
            views_unique(r@),
    {
        let d = self.duplicate();
        proof {
            use_type_invariant(&d);
        }
        let r = d.items;
        proof {
            assert(view_set(r@) == d@);
        }
        r
    }

    /// Whether both sets hold values with the same views.
    pub fn same_set(&self, other: &ItemSet<T>) -> (r: bool)
        ensures
            r == (self@ == other@),
    {
        proof {
            use_type_invariant(self);
            use_type_invariant(other);
            lemma_view_set_len(self.items@);
            lemma_view_set_len(other.items@);
        }
        if self.items.len() != other.items.len() {
            return false;
        }
        let mut i: usize = 0;
        while i < self.items.len()
            invariant
                i <= self.items@.len(),
                forall|k: int| 0 <= k < i ==> other@.contains(#[trigger] self.items@[k]@),
            decreases self.items@.len() - i,
        {
            if !other.contains(&self.items[i]) {
                proof {
                    assert(self@.contains(self.items@[i as int]@));
                }
                return false;
            }
            i = i + 1;
        }
        proof {
            assert(self@.subset_of(other@)) by {
                assert forall|v: T::V| self@.contains(v) implies other@.contains(v) by {
                    let k = choose|k: int| 0 <= k < self.items@.len() && #[trigger] self.items@[k]@ == v;
                }
            }
            vstd::set_lib::lemma_subset_equality(self@, other@);
        }
        true
    }
}

} // verus!
