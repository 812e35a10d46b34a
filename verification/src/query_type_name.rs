use crate::item_set::{ItemSet, SetItem};
use crate::name_order::{names_sorted, sort_names, NamedItem};
use crate::strings::{owned, str_eq, str_lt};
use vstd::prelude::*;

verus! {

/// Query type names of the DAP protocol, with any other name kept as given.
#[derive(Debug)]
pub enum QueryTypeName {
    Reserved,
    TimeInterval,
    FixedSize,
    Other(String),
}

/// The tag of the variant, with the text of an `Other` value.
impl View for QueryTypeName {
    type V = (u8, Seq<char>);

    open spec fn view(&self) -> (u8, Seq<char>) {
        match self {
            QueryTypeName::Reserved => (0, Seq::empty()),
            QueryTypeName::TimeInterval => (1, Seq::empty()),
            QueryTypeName::FixedSize => (2, Seq::empty()),
            QueryTypeName::Other(s) => (3, s@),
        }
    }
}

/// The text of a value.
pub open spec fn query_type_name_text(n: (u8, Seq<char>)) -> Seq<char> {
    if n.0 == 0 {
        "Reserved"@
    } else if n.0 == 1 {
        "TimeInterval"@
    } else if n.0 == 2 {
        "FixedSize"@
    } else {
        n.1
    }
}

/// The value that a text parses to.
pub open spec fn query_type_name_parse(s: Seq<char>) -> (u8, Seq<char>) {
    if s == "Reserved"@ {
        (0, Seq::empty())
    } else if s == "TimeInterval"@ {
        (1, Seq::empty())
    } else if s == "FixedSize"@ {
        (2, Seq::empty())
    } else {
        (3, s)
    }
}

/// Query type names are read from, and written as, the texts that the DAP
/// protocol gives them: "Reserved", "TimeInterval" and "FixedSize" name the
/// three variants, in that order, and any other text is kept as it is.
pub proof fn lemma_query_type_name_texts(s: Seq<char>)
    ensures
        (query_type_name_parse(s) == QueryTypeName::Reserved@) <==> s == "Reserved"@,
        (query_type_name_parse(s) == QueryTypeName::TimeInterval@) <==> s == "TimeInterval"@,
        (query_type_name_parse(s) == QueryTypeName::FixedSize@) <==> s == "FixedSize"@,
        query_type_name_parse(s).0 == 3 <==> (s != "Reserved"@ && s != "TimeInterval"@ && s
            != "FixedSize"@),
        query_type_name_parse(s).0 == 3 ==> query_type_name_parse(s).1 == s,
        query_type_name_text(QueryTypeName::Reserved@) == "Reserved"@,
        query_type_name_text(QueryTypeName::TimeInterval@) == "TimeInterval"@,
        query_type_name_text(QueryTypeName::FixedSize@) == "FixedSize"@,
        query_type_name_text((3u8, s)) == s,
{
    reveal_strlit("Reserved");
    reveal_strlit("TimeInterval");
    reveal_strlit("FixedSize");
    assert("Reserved"@.len() == 8);
    assert("TimeInterval"@.len() == 12);
    assert("FixedSize"@.len() == 9);
}

impl QueryTypeName {
    /// Parses a text; one that is not recognized becomes `Other`.
    pub fn parse(s: &str) -> (r: QueryTypeName)
        ensures
            r@ == query_type_name_parse(s@),
            r is Reserved <==> s@ == "Reserved"@,
            r is TimeInterval <==> s@ == "TimeInterval"@,
            r is FixedSize <==> s@ == "FixedSize"@,
            r matches QueryTypeName::Other(o) ==> o@ == s@,
    {
        proof {
            lemma_query_type_name_texts(s@);
        }
        if str_eq(s, "Reserved") {
            QueryTypeName::Reserved
        } else if str_eq(s, "TimeInterval") {
            QueryTypeName::TimeInterval
        } else if str_eq(s, "FixedSize") {
            QueryTypeName::FixedSize
        } else {
            QueryTypeName::Other(owned(s))
        }
    }

    /// The text of the value.
    pub fn as_ref(&self) -> (r: &str)
        ensures
            r@ == query_type_name_text(self@),
            self is Reserved ==> r@ == "Reserved"@,
            self is TimeInterval ==> r@ == "TimeInterval"@,
            self is FixedSize ==> r@ == "FixedSize"@,
            self matches QueryTypeName::Other(o) ==> r@ == o@,
    {
        match self {
            QueryTypeName::Reserved => "Reserved",
            QueryTypeName::TimeInterval => "TimeInterval",
            QueryTypeName::FixedSize => "FixedSize",
            QueryTypeName::Other(o) => o.as_str(),
        }
    }

    /// The text of the value, owned.
    pub fn to_string(&self) -> (r: String)
        ensures
            r@ == query_type_name_text(self@),
    {
        owned(self.as_ref())
    }
}

impl QueryTypeName {
    /// The number of the variant.
    fn tag(&self) -> (r: u8)
        ensures
            r == self@.0,
    {
        match self {
            QueryTypeName::Reserved => 0,
            QueryTypeName::TimeInterval => 1,
            QueryTypeName::FixedSize => 2,
            QueryTypeName::Other(_) => 3,
        }
    }
}

impl NamedItem for QueryTypeName {
    fn precedes(&self, other: &QueryTypeName) -> (r: bool) {
        let a = self.tag();
        let b = other.tag();
        if a != b {
            return a < b;
        }
        match (self, other) {
            (QueryTypeName::Other(x), QueryTypeName::Other(y)) => str_lt(x.as_str(), y.as_str()),
            _ => {
                proof {
                    assert(self@.1 =~= Seq::<char>::empty());
                    assert(other@.1 =~= Seq::<char>::empty());
                }
                false
            },
        }
    }
}

impl SetItem for QueryTypeName {
    fn same_as(&self, other: &QueryTypeName) -> (r: bool) {
        match (self, other) {
            (QueryTypeName::Other(a), QueryTypeName::Other(b)) => str_eq(a.as_str(), b.as_str()),
            (QueryTypeName::Reserved, QueryTypeName::Reserved) => true,
            (QueryTypeName::TimeInterval, QueryTypeName::TimeInterval) => true,
            (QueryTypeName::FixedSize, QueryTypeName::FixedSize) => true,
            _ => false,
        }
    }

    fn duplicate(&self) -> (r: QueryTypeName) {
        match self {
            QueryTypeName::Reserved => QueryTypeName::Reserved,
            QueryTypeName::TimeInterval => QueryTypeName::TimeInterval,
            QueryTypeName::FixedSize => QueryTypeName::FixedSize,
            QueryTypeName::Other(o) => QueryTypeName::Other(owned(o.as_str())),
        }
    }
}

impl Clone for QueryTypeName {
    fn clone(&self) -> (r: QueryTypeName)
        ensures
            r@ == self@,
    {
        self.duplicate()
    }
}

impl PartialEq for QueryTypeName {
    fn eq(&self, other: &QueryTypeName) -> (r: bool) {
        self.same_as(other)
    }
}

impl vstd::std_specs::cmp::PartialEqSpecImpl for QueryTypeName {
    open spec fn obeys_eq_spec() -> bool {
        true
    }

    open spec fn eq_spec(&self, other: &QueryTypeName) -> bool {
        self@ == other@
    }
}

impl Eq for QueryTypeName {}

/// Parsing the text of a value gives the value back, for every value but
/// an `Other` value that holds the text of a recognized one.
pub proof fn lemma_query_type_name_roundtrip(n: (u8, Seq<char>))
    requires
        n.0 <= 3,
        n.0 != 3 ==> n.1 == Seq::<char>::empty(),
        n.0 == 3 ==> query_type_name_parse(n.1).0 == 3,
    ensures
        query_type_name_parse(query_type_name_text(n)) == n,
{
    reveal_strlit("Reserved");
    reveal_strlit("TimeInterval");
    reveal_strlit("FixedSize");
    assert("Reserved"@.len() == 8);
    assert("TimeInterval"@.len() == 12);
    assert("FixedSize"@.len() == 9);
}

/// A set of query type names.
#[derive(Debug)]
pub struct QueryTypeNameSet(ItemSet<QueryTypeName>);

impl View for QueryTypeNameSet {
    type V = Set<(u8, Seq<char>)>;

    closed spec fn view(&self) -> Set<(u8, Seq<char>)> {
        self.0@
    }
}

impl QueryTypeNameSet {
    /// The set of the values in `items`.
    pub fn from_iter<const N: usize>(items: [QueryTypeName; N]) -> (r: QueryTypeNameSet)
        ensures
            r@ == crate::item_set::view_set(items@),
    {
        let mut set = ItemSet::new();
        let mut i: usize = 0;
        proof {
            assert(crate::item_set::view_set(items@.take(0)) =~= Set::empty());
        }
        while i < N
            invariant
                i <= N,
                items@.len() == N,
                set@ == crate::item_set::view_set(items@.take(i as int)),
            decreases N - i,
        {
            let d = items[i].duplicate();
            set.insert(d);
            proof {
                assert(items@.take(i + 1) =~= items@.take(i as int).push(items@[i as int]));
                crate::item_set::lemma_view_set_push(items@.take(i as int), items@[i as int]);
            }
            i = i + 1;
        }
        proof {
            assert(items@.take(N as int) =~= items@);
        }
        QueryTypeNameSet(set)
    }

    /// The set of the values in `items`.
    pub fn from_vec(items: Vec<QueryTypeName>) -> (r: QueryTypeNameSet)
        ensures
            r@ == crate::item_set::view_set(items@),
    {
        let mut set = ItemSet::new();
        let mut i: usize = 0;
        proof {
            assert(crate::item_set::view_set(items@.take(0)) =~= Set::empty());
        }
        while i < items.len()
            invariant
                i <= items@.len(),
                set@ == crate::item_set::view_set(items@.take(i as int)),
            decreases items@.len() - i,
        {
            let d = items[i].duplicate();
            set.insert(d);
            proof {
                assert(items@.take(i + 1) =~= items@.take(i as int).push(items@[i as int]));
                crate::item_set::lemma_view_set_push(items@.take(i as int), items@[i as int]);
            }
            i = i + 1;
        }
        proof {
            assert(items@.take(items@.len() as int) =~= items@);
        }
        QueryTypeNameSet(set)
    }

    /// The values of the set, each once, in order: by variant, then by
    /// the text of an `Other` value.
    pub fn to_vec(&self) -> (r: Vec<QueryTypeName>)
        ensures
            crate::item_set::view_set(r@) == self@,
            crate::item_set::views_unique(r@),
            names_sorted(r@),
    {
        let items = self.0.to_vec();
        sort_names(&items)
    }

    /// The number of values in the set.
    pub fn len(&self) -> (r: usize)
        ensures
            r == self@.len(),
            self@.finite(),
    {
        self.0.len()
    }

    /// Whether the set holds no value.
    pub fn is_empty(&self) -> (r: bool)
        ensures
            r <==> self@ == Set::<(u8, Seq<char>)>::empty(),
    {
        self.0.is_empty()
    }

    /// Whether the set holds `value`.
    pub fn contains(&self, value: &QueryTypeName) -> (r: bool)
        ensures
            r == self@.contains(value@),
    {
        self.0.contains(value)
    }

    /// The values in both sets.
    pub fn intersect(&self, other: &QueryTypeNameSet) -> (r: QueryTypeNameSet)
        ensures
            r@ == self@.intersect(other@),
    {
        QueryTypeNameSet(self.0.intersect(&other.0))
    }
}

impl Clone for QueryTypeNameSet {
    fn clone(&self) -> (r: QueryTypeNameSet)
        ensures
            r@ == self@,
    {
        QueryTypeNameSet(self.0.duplicate())
    }
}

impl PartialEq for QueryTypeNameSet {
    fn eq(&self, other: &QueryTypeNameSet) -> (r: bool) {
        self.0.same_set(&other.0)
    }
}

impl vstd::std_specs::cmp::PartialEqSpecImpl for QueryTypeNameSet {
    open spec fn obeys_eq_spec() -> bool {
        true
    }

    open spec fn eq_spec(&self, other: &QueryTypeNameSet) -> bool {
        self@ == other@
    }
}

impl Eq for QueryTypeNameSet {}

impl Default for QueryTypeNameSet {
    /// The query types that an aggregator supports unless it says otherwise.
    fn default() -> (r: QueryTypeNameSet)
        ensures
            r@ == set![(1u8, Seq::<char>::empty()), (2u8, Seq::<char>::empty())],
    {
        let r = QueryTypeNameSet::from_iter([QueryTypeName::TimeInterval, QueryTypeName::FixedSize]);
        proof {
            let items = [QueryTypeName::TimeInterval, QueryTypeName::FixedSize];
            assert(r@ =~= set![(1u8, Seq::<char>::empty()), (2u8, Seq::<char>::empty())]) by {
                assert(items@[0]@ == (1u8, Seq::<char>::empty()));
                assert(items@[1]@ == (2u8, Seq::<char>::empty()));
            }
        }
        r
    }
}

} // verus!
