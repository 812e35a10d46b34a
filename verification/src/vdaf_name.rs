use crate::item_set::{ItemSet, SetItem};
use crate::name_order::{names_sorted, sort_names, NamedItem};
use crate::strings::{owned, str_eq, str_lt};
use vstd::prelude::*;

verus! {

/// VDAF names as registered in the VDAF specification, with any other name
/// kept as given. Parsing does not recognize `Poplar1`.
#[derive(Debug)]
pub enum VdafName {
    Prio3Count,
    Prio3Sum,
    Prio3Histogram,
    Prio3CountVec,
    Prio3SumVec,
    Poplar1,
    Other(String),
}

/// The tag of the variant, with the text of an `Other` value.
impl View for VdafName {
    type V = (u8, Seq<char>);

    open spec fn view(&self) -> (u8, Seq<char>) {
        match self {
            VdafName::Prio3Count => (0, Seq::empty()),
            VdafName::Prio3Sum => (1, Seq::empty()),
            VdafName::Prio3Histogram => (2, Seq::empty()),
            VdafName::Prio3CountVec => (3, Seq::empty()),
            VdafName::Prio3SumVec => (4, Seq::empty()),
            VdafName::Poplar1 => (5, Seq::empty()),
            VdafName::Other(s) => (6, s@),
        }
    }
}

/// The text of a value.
pub open spec fn vdaf_name_text(n: (u8, Seq<char>)) -> Seq<char> {
    if n.0 == 0 {
        "Prio3Count"@
    } else if n.0 == 1 {
        "Prio3Sum"@
    } else if n.0 == 2 {
        "Prio3Histogram"@
    } else if n.0 == 3 {
        "Prio3CountVec"@
    } else if n.0 == 4 {
        "Prio3SumVec"@
    } else if n.0 == 5 {
        "Poplar1"@
    } else {
        n.1
    }
}

/// The value that a text parses to.
pub open spec fn vdaf_name_parse(s: Seq<char>) -> (u8, Seq<char>) {
    if s == "Prio3Count"@ {
        (0, Seq::empty())
    } else if s == "Prio3Sum"@ {
        (1, Seq::empty())
    } else if s == "Prio3Histogram"@ {
        (2, Seq::empty())
    } else if s == "Prio3CountVec"@ {
        (3, Seq::empty())
    } else if s == "Prio3SumVec"@ {
        (4, Seq::empty())
    } else {
        (6, s)
    }
}

/// VDAF names are read from, and written as, the texts of the VDAF
/// specification: "Prio3Count", "Prio3Sum", "Prio3Histogram",
/// "Prio3CountVec" and "Prio3SumVec" name those variants, and any other text
/// is kept as it is; `Poplar1` is written as "Poplar1" but not read.
pub proof fn lemma_vdaf_name_texts(s: Seq<char>)
    ensures
        (vdaf_name_parse(s) == VdafName::Prio3Count@) <==> s == "Prio3Count"@,
        (vdaf_name_parse(s) == VdafName::Prio3Sum@) <==> s == "Prio3Sum"@,
        (vdaf_name_parse(s) == VdafName::Prio3Histogram@) <==> s == "Prio3Histogram"@,
        (vdaf_name_parse(s) == VdafName::Prio3CountVec@) <==> s == "Prio3CountVec"@,
        (vdaf_name_parse(s) == VdafName::Prio3SumVec@) <==> s == "Prio3SumVec"@,
        vdaf_name_parse(s).0 == 6 <==> (s != "Prio3Count"@ && s != "Prio3Sum"@ && s != "Prio3Histogram"@ && s != "Prio3CountVec"@ && s != "Prio3SumVec"@),
        vdaf_name_parse(s).0 == 6 ==> vdaf_name_parse(s).1 == s,
        vdaf_name_parse(s).0 != 5,
        vdaf_name_text(VdafName::Prio3Count@) == "Prio3Count"@,
        vdaf_name_text(VdafName::Prio3Sum@) == "Prio3Sum"@,
        vdaf_name_text(VdafName::Prio3Histogram@) == "Prio3Histogram"@,
        vdaf_name_text(VdafName::Prio3CountVec@) == "Prio3CountVec"@,
        vdaf_name_text(VdafName::Prio3SumVec@) == "Prio3SumVec"@,
        vdaf_name_text(VdafName::Poplar1@) == "Poplar1"@,
        vdaf_name_text((6u8, s)) == s,
{
    reveal_strlit("Prio3Count");
    reveal_strlit("Prio3Sum");
    reveal_strlit("Prio3Histogram");
    reveal_strlit("Prio3CountVec");
    reveal_strlit("Prio3SumVec");
    assert("Prio3Count"@.len() == 10);
    assert("Prio3Sum"@.len() == 8);
    assert("Prio3Histogram"@.len() == 14);
    assert("Prio3CountVec"@.len() == 13);
    assert("Prio3SumVec"@.len() == 11);
}

impl VdafName {
    /// Parses a text; one that is not recognized becomes `Other`.
    pub fn parse(s: &str) -> (r: VdafName)
        ensures
            r@ == vdaf_name_parse(s@),
            r is Prio3Count <==> s@ == "Prio3Count"@,
            r is Prio3Sum <==> s@ == "Prio3Sum"@,
            r is Prio3Histogram <==> s@ == "Prio3Histogram"@,
            r is Prio3CountVec <==> s@ == "Prio3CountVec"@,
            r is Prio3SumVec <==> s@ == "Prio3SumVec"@,
            r matches VdafName::Other(o) ==> o@ == s@,
    {
        proof {
            lemma_vdaf_name_texts(s@);
        }
        if str_eq(s, "Prio3Count") {
            VdafName::Prio3Count
        } else if str_eq(s, "Prio3Sum") {
            VdafName::Prio3Sum
        } else if str_eq(s, "Prio3Histogram") {
            VdafName::Prio3Histogram
        } else if str_eq(s, "Prio3CountVec") {
            VdafName::Prio3CountVec
        } else if str_eq(s, "Prio3SumVec") {
            VdafName::Prio3SumVec
        } else {
            VdafName::Other(owned(s))
        }
    }

    /// The text of the value.
    pub fn as_ref(&self) -> (r: &str)
        ensures
            r@ == vdaf_name_text(self@),
            self is Prio3Count ==> r@ == "Prio3Count"@,
            self is Prio3Sum ==> r@ == "Prio3Sum"@,
            self is Prio3Histogram ==> r@ == "Prio3Histogram"@,
            self is Prio3CountVec ==> r@ == "Prio3CountVec"@,
            self is Prio3SumVec ==> r@ == "Prio3SumVec"@,
            self is Poplar1 ==> r@ == "Poplar1"@,
            self matches VdafName::Other(o) ==> r@ == o@,
    {
        match self {
            VdafName::Prio3Count => "Prio3Count",
            VdafName::Prio3Sum => "Prio3Sum",
            VdafName::Prio3Histogram => "Prio3Histogram",
            VdafName::Prio3CountVec => "Prio3CountVec",
            VdafName::Prio3SumVec => "Prio3SumVec",
            VdafName::Poplar1 => "Poplar1",
            VdafName::Other(o) => o.as_str(),
        }
    }

    /// The text of the value, owned.
    pub fn to_string(&self) -> (r: String)
        ensures
            r@ == vdaf_name_text(self@),
    {
        owned(self.as_ref())
    }
}

impl VdafName {
    /// The number of the variant.
    fn tag(&self) -> (r: u8)
        ensures
            r == self@.0,
    {
        match self {
            VdafName::Prio3Count => 0,
            VdafName::Prio3Sum => 1,
            VdafName::Prio3Histogram => 2,
            VdafName::Prio3CountVec => 3,
            VdafName::Prio3SumVec => 4,
            VdafName::Poplar1 => 5,
            VdafName::Other(_) => 6,
        }
    }
}

impl NamedItem for VdafName {
    fn precedes(&self, other: &VdafName) -> (r: bool) {
        let a = self.tag();
        let b = other.tag();
        if a != b {
            return a < b;
        }
        match (self, other) {
            (VdafName::Other(x), VdafName::Other(y)) => str_lt(x.as_str(), y.as_str()),
            _ => {
                proof {
                    assert(self@.1 =~= Seq::<char>::empty());
                    assert(other@.1 =~= Seq::<char>::empty());
                }
                false
            },
        }
    }
}

impl SetItem for VdafName {
    fn same_as(&self, other: &VdafName) -> (r: bool) {
        match (self, other) {
            (VdafName::Other(a), VdafName::Other(b)) => str_eq(a.as_str(), b.as_str()),
            (VdafName::Prio3Count, VdafName::Prio3Count) => true,
            (VdafName::Prio3Sum, VdafName::Prio3Sum) => true,
            (VdafName::Prio3Histogram, VdafName::Prio3Histogram) => true,
            (VdafName::Prio3CountVec, VdafName::Prio3CountVec) => true,
            (VdafName::Prio3SumVec, VdafName::Prio3SumVec) => true,
            (VdafName::Poplar1, VdafName::Poplar1) => true,
            _ => false,
        }
    }

    fn duplicate(&self) -> (r: VdafName) {
        match self {
            VdafName::Prio3Count => VdafName::Prio3Count,
            VdafName::Prio3Sum => VdafName::Prio3Sum,
            VdafName::Prio3Histogram => VdafName::Prio3Histogram,
            VdafName::Prio3CountVec => VdafName::Prio3CountVec,
            VdafName::Prio3SumVec => VdafName::Prio3SumVec,
            VdafName::Poplar1 => VdafName::Poplar1,
            VdafName::Other(o) => VdafName::Other(owned(o.as_str())),
        }
    }
}

impl Clone for VdafName {
    fn clone(&self) -> (r: VdafName)
        ensures
            r@ == self@,
    {
        self.duplicate()
    }
}

impl PartialEq for VdafName {
    fn eq(&self, other: &VdafName) -> (r: bool) {
        self.same_as(other)
    }
}

impl vstd::std_specs::cmp::PartialEqSpecImpl for VdafName {
    open spec fn obeys_eq_spec() -> bool {
        true
    }

    open spec fn eq_spec(&self, other: &VdafName) -> bool {
        self@ == other@
    }
}

impl Eq for VdafName {}

/// Parsing the text of a value gives the value back, for every value but
/// an `Other` value that holds the text of a recognized one and those whose text parsing does not recognize.
pub proof fn lemma_vdaf_name_roundtrip(n: (u8, Seq<char>))
    requires
        n.0 <= 6,
        n.0 != 6 ==> n.1 == Seq::<char>::empty(),
        n.0 != 5,
        n.0 == 6 ==> vdaf_name_parse(n.1).0 == 6,
    ensures
        vdaf_name_parse(vdaf_name_text(n)) == n,
{
    reveal_strlit("Prio3Count");
    reveal_strlit("Prio3Sum");
    reveal_strlit("Prio3Histogram");
    reveal_strlit("Prio3CountVec");
    reveal_strlit("Prio3SumVec");
    assert("Prio3Count"@.len() == 10);
    assert("Prio3Sum"@.len() == 8);
    assert("Prio3Histogram"@.len() == 14);
    assert("Prio3CountVec"@.len() == 13);
    assert("Prio3SumVec"@.len() == 11);
}

/// A set of VDAF names.
#[derive(Debug)]
pub struct VdafNameSet(ItemSet<VdafName>);

impl View for VdafNameSet {
    type V = Set<(u8, Seq<char>)>;

    closed spec fn view(&self) -> Set<(u8, Seq<char>)> {
        self.0@
    }
}

impl VdafNameSet {
    /// The set of the values in `items`.
    pub fn from_iter<const N: usize>(items: [VdafName; N]) -> (r: VdafNameSet)
        ensures
            r@ == crate::item_set::view_set(items@),
    {
        let mut set = ItemSet::new();
        let mut i: usize = 0;
        proof {
            assert(crate::item_set::view_set(items@.take(0)) =~= Set::empty());
        }
        while i < N
            invariant
                i <= N,
                items@.len() == N,
                set@ == crate::item_set::view_set(items@.take(i as int)),
            decreases N - i,
        {
            let d = items[i].duplicate();
            set.insert(d);
            proof {
                assert(items@.take(i + 1) =~= items@.take(i as int).push(items@[i as int]));
                crate::item_set::lemma_view_set_push(items@.take(i as int), items@[i as int]);
            }
            i = i + 1;
        }
        proof {
            assert(items@.take(N as int) =~= items@);
        }
        VdafNameSet(set)
    }

    /// The set of the values in `items`.
    pub fn from_vec(items: Vec<VdafName>) -> (r: VdafNameSet)
        ensures
            r@ == crate::item_set::view_set(items@),
    {
        let mut set = ItemSet::new();
        let mut i: usize = 0;
        proof {
            assert(crate::item_set::view_set(items@.take(0)) =~= Set::empty());
        }
        while i < items.len()
            invariant
                i <= items@.len(),
                set@ == crate::item_set::view_set(items@.take(i as int)),
            decreases items@.len() - i,
        {
            let d = items[i].duplicate();
            set.insert(d);
            proof {
                assert(items@.take(i + 1) =~= items@.take(i as int).push(items@[i as int]));
                crate::item_set::lemma_view_set_push(items@.take(i as int), items@[i as int]);
            }
            i = i + 1;
        }
        proof {
            assert(items@.take(items@.len() as int) =~= items@);
        }
        VdafNameSet(set)
    }

    /// The values of the set, each once, in order: by variant, then by
    /// the text of an `Other` value.
    pub fn to_vec(&self) -> (r: Vec<VdafName>)
        ensures
            crate::item_set::view_set(r@) == self@,
            crate::item_set::views_unique(r@),
            names_sorted(r@),
    {
        let items = self.0.to_vec();
        sort_names(&items)
    }

    /// The number of values in the set.
    pub fn len(&self) -> (r: usize)
        ensures
            r == self@.len(),
            self@.finite(),
    {
        self.0.len()
    }

    /// Whether the set holds no value.
    pub fn is_empty(&self) -> (r: bool)
        ensures
            r <==> self@ == Set::<(u8, Seq<char>)>::empty(),
    {
        self.0.is_empty()
    }

    /// Whether the set holds `value`.
    pub fn contains(&self, value: &VdafName) -> (r: bool)
        ensures
            r == self@.contains(value@),
    {
        self.0.contains(value)
    }

    /// The values in both sets.
    pub fn intersect(&self, other: &VdafNameSet) -> (r: VdafNameSet)
        ensures
            r@ == self@.intersect(other@),
    {
        VdafNameSet(self.0.intersect(&other.0))
    }
}

impl Clone for VdafNameSet {
    fn clone(&self) -> (r: VdafNameSet)
        ensures
            r@ == self@,
    {
        VdafNameSet(self.0.duplicate())
    }
}

impl PartialEq for VdafNameSet {
    fn eq(&self, other: &VdafNameSet) -> (r: bool) {
        self.0.same_set(&other.0)
    }
}

impl vstd::std_specs::cmp::PartialEqSpecImpl for VdafNameSet {
    open spec fn obeys_eq_spec() -> bool {
        true
    }

    open spec fn eq_spec(&self, other: &VdafNameSet) -> bool {
        self@ == other@
    }
}

impl Eq for VdafNameSet {}

impl Default for VdafNameSet {
    /// The VDAFs that an aggregator supports unless it says otherwise.
    fn default() -> (r: VdafNameSet)
        ensures
            r@ == set![
                (0u8, Seq::<char>::empty()),
                (1u8, Seq::<char>::empty()),
                (2u8, Seq::<char>::empty()),
            ],
    {
        let r = VdafNameSet::from_iter(
            [VdafName::Prio3Count, VdafName::Prio3Sum, VdafName::Prio3Histogram],
        );
        proof {
            let items = [VdafName::Prio3Count, VdafName::Prio3Sum, VdafName::Prio3Histogram];
            assert(r@ =~= set![
                (0u8, Seq::<char>::empty()),
                (1u8, Seq::<char>::empty()),
                (2u8, Seq::<char>::empty()),
            ]) by {
                assert(items@[0]@ == (0u8, Seq::<char>::empty()));
                assert(items@[1]@ == (1u8, Seq::<char>::empty()));
                assert(items@[2]@ == (2u8, Seq::<char>::empty()));
            }
        }
        r
    }
}

} // verus!
