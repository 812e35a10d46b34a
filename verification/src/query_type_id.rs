use vstd::prelude::*;

verus! {

/// Query type identifiers of the DAP protocol. Two identifiers are equal when
/// their numeric codes are.
#[derive(Debug, Clone, Copy)]
pub enum QueryTypeId {
    Reserved,
    TimeInterval,
    FixedSize,
    Other(u8),
}

/// The numeric code of an identifier.
pub open spec fn query_type_id_code(id: QueryTypeId) -> u8 {
    match id {
        QueryTypeId::Reserved => 0,
        QueryTypeId::TimeInterval => 1,
        QueryTypeId::FixedSize => 2,
        QueryTypeId::Other(n) => n,
    }
}

/// The identifier that a numeric code decodes to.
pub open spec fn query_type_id_of_code(n: u8) -> QueryTypeId {
    if n == 0 {
        QueryTypeId::Reserved
    } else if n == 1 {
        QueryTypeId::TimeInterval
    } else if n == 2 {
        QueryTypeId::FixedSize
    } else {
        QueryTypeId::Other(n)
    }
}

impl QueryTypeId {
    /// The numeric code of this identifier.
    pub fn code(self) -> (r: u8)
        ensures
            r == query_type_id_code(self),
    {
        match self {
            QueryTypeId::Reserved => 0,
            QueryTypeId::TimeInterval => 1,
            QueryTypeId::FixedSize => 2,
            QueryTypeId::Other(n) => n,
        }
    }

    /// Decodes a numeric code.
    pub fn from_code(value: u8) -> (r: QueryTypeId)
        ensures
            r == query_type_id_of_code(value),
    {
        if value == 0 {
            QueryTypeId::Reserved
        } else if value == 1 {
            QueryTypeId::TimeInterval
        } else if value == 2 {
            QueryTypeId::FixedSize
        } else {
            QueryTypeId::Other(value)
        }
    }
}

impl From<QueryTypeId> for u8 {
    fn from(value: QueryTypeId) -> (r: u8) {
        value.code()
    }
}

impl vstd::std_specs::convert::FromSpecImpl<QueryTypeId> for u8 {
    open spec fn obeys_from_spec() -> bool {
        true
    }

    open spec fn from_spec(v: QueryTypeId) -> u8 {
        query_type_id_code(v)
    }
}

impl From<u8> for QueryTypeId {
    fn from(value: u8) -> (r: QueryTypeId) {
        QueryTypeId::from_code(value)
    }
}

impl vstd::std_specs::convert::FromSpecImpl<u8> for QueryTypeId {
    open spec fn obeys_from_spec() -> bool {
        true
    }

    open spec fn from_spec(v: u8) -> QueryTypeId {
        query_type_id_of_code(v)
    }
}

impl PartialEq for QueryTypeId {
    fn eq(&self, other: &QueryTypeId) -> (r: bool) {
        self.code() == other.code()
    }
}

impl vstd::std_specs::cmp::PartialEqSpecImpl for QueryTypeId {
    open spec fn obeys_eq_spec() -> bool {
        true
    }

    open spec fn eq_spec(&self, other: &QueryTypeId) -> bool {
        query_type_id_code(*self) == query_type_id_code(*other)
    }
}

impl Eq for QueryTypeId {}

/// The registered codes: Reserved is 0, TimeInterval 1, FixedSize 2, and
/// every other code stands for itself. A code decodes to the identifier
/// registered for it and to no other.
pub proof fn lemma_query_type_id_registered_codes(n: u8)
    ensures
        query_type_id_of_code(n) is Reserved <==> n == 0,
        query_type_id_of_code(n) is TimeInterval <==> n == 1,
        query_type_id_of_code(n) is FixedSize <==> n == 2,
        query_type_id_of_code(n) is Other <==> n > 2,
        query_type_id_code(QueryTypeId::Reserved) == 0,
        query_type_id_code(QueryTypeId::TimeInterval) == 1,
        query_type_id_code(QueryTypeId::FixedSize) == 2,
        query_type_id_code(QueryTypeId::Other(n)) == n,
{
}

/// Decoding a code and encoding the result gives the code back.
pub proof fn lemma_query_type_id_code_roundtrip(n: u8)
    ensures
        query_type_id_code(query_type_id_of_code(n)) == n,
{
}

/// Encoding an identifier and decoding the code gives an identifier equal
/// to it; for an identifier in canonical form, the very same value.
pub proof fn lemma_query_type_id_decode_encode(id: QueryTypeId)
    ensures
        query_type_id_code(query_type_id_of_code(query_type_id_code(id))) == query_type_id_code(id),
        query_type_id_is_canonical(id) ==> query_type_id_of_code(query_type_id_code(id)) == id,
{
}

/// An identifier in the form that decoding produces.
pub open spec fn query_type_id_is_canonical(id: QueryTypeId) -> bool {
    match id {
        QueryTypeId::Other(n) => n > 2,
        _ => true,
    }
}

/// Codes strictly increasing along the sequence.
pub open spec fn qt_codes_strictly_increasing(s: Seq<QueryTypeId>) -> bool {
    forall|i: int, j: int| 0 <= i < j < s.len() ==> query_type_id_code(s[i]) < query_type_id_code(s[j])
}

/// The set of codes in a sequence of identifiers.
pub open spec fn qt_code_set(s: Seq<QueryTypeId>) -> Set<u8> {
    Set::new(|c: u8| exists|i: int| 0 <= i < s.len() && query_type_id_code(s[i]) == c)
}

/// An ordered set of query type identifiers, kept sorted by code with no code
/// occurring twice.
#[derive(Debug)]
pub struct QueryTypeIdSet {
    ids: Vec<QueryTypeId>,
}

impl View for QueryTypeIdSet {
    type V = Set<u8>;

    closed spec fn view(&self) -> Set<u8> {
        qt_code_set(self.ids@)
    }
}

impl Clone for QueryTypeIdSet {
    fn clone(&self) -> (r: QueryTypeIdSet)
        ensures
            r@ == self@,
    {
        proof {
            use_type_invariant(self);
        }
        let mut ids: Vec<QueryTypeId> = Vec::new();
        let mut i: usize = 0;
        while i < self.ids.len()
            invariant
                i <= self.ids@.len(),
                ids@ == self.ids@.take(i as int),
            decreases self.ids@.len() - i,
        {
            ids.push(self.ids[i]);
            proof {
                assert(self.ids@.take(i + 1) =~= self.ids@.take(i as int).push(self.ids@[i as int]));
            }
            i = i + 1;
        }
        proof {
            assert(self.ids@.take(self.ids@.len() as int) =~= self.ids@);
        }
        QueryTypeIdSet { ids }
    }
}

impl QueryTypeIdSet {
    #[verifier::type_invariant]
    closed spec fn well_formed(self) -> bool {
        qt_codes_strictly_increasing(self.ids@)
    }

    /// Inserts an identifier, keeping the order by code; an identifier whose
    /// code is present already leaves the set unchanged.
    pub fn insert(&mut self, id: QueryTypeId)
        ensures
            final(self)@ == old(self)@.insert(query_type_id_code(id)),
    {
        proof {
            use_type_invariant(&*self);
        }
        let c = id.code();
        let mut pos: usize = 0;
        let n = self.ids.len();
        while pos < n && self.ids[pos].code() < c
            invariant
                n == self.ids@.len(),
                pos <= n,
                qt_codes_strictly_increasing(self.ids@),
                forall|k: int| 0 <= k < pos ==> query_type_id_code(self.ids@[k]) < c,
            decreases n - pos,
        {
            pos = pos + 1;
        }
        if pos < n && self.ids[pos].code() == c {
            return;
        }
        let ghost before = self.ids@;
        let mut ids: Vec<QueryTypeId> = Vec::new();
        std::mem::swap(&mut ids, &mut self.ids);
        ids.insert(pos, id);
        proof {
            assert forall|i: int, j: int| 0 <= i < j < ids@.len() implies query_type_id_code(ids@[i])
                < query_type_id_code(ids@[j]) by {
                if j < pos {
                } else if i > pos {
                    assert(ids@[i] == before[i - 1]);
                    assert(ids@[j] == before[j - 1]);
                } else if i == pos {
                    assert(ids@[j] == before[j - 1]);
                    if pos < n {
                        assert(query_type_id_code(before[pos as int]) > c);
                    }
                } else {
                    assert(ids@[i] == before[i]);
                }
            }
            assert(qt_code_set(ids@) =~= qt_code_set(before).insert(c)) by {
                assert forall|x: u8| qt_code_set(before).insert(c).contains(x) implies qt_code_set(
                    ids@,
                ).contains(x) by {
                    if x == c {
                        assert(ids@[pos as int] == id);
                    } else {
                        let k = choose|k: int| 0 <= k < before.len() && query_type_id_code(before[k]) == x;
                        if k < pos {
                            assert(ids@[k] == before[k]);
                        } else {
                            assert(ids@[k + 1] == before[k]);
                        }
                    }
                }
                assert forall|x: u8| qt_code_set(ids@).contains(x) implies qt_code_set(
                    before,
                ).insert(c).contains(x) by {
                    let k = choose|k: int| 0 <= k < ids@.len() && query_type_id_code(ids@[k]) == x;
                    if k < pos {
                        assert(ids@[k] == before[k]);
                    } else if k > pos {
                        assert(ids@[k] == before[k - 1]);
                    }
                }
            }
        }
        self.ids = ids;
    }

    /// The set holding the identifiers of `items`.
    pub fn from_iter<const N: usize>(items: [QueryTypeId; N]) -> (r: QueryTypeIdSet)
        ensures
            r@ == qt_code_set(items@),
    {
        let mut set = QueryTypeIdSet { ids: Vec::new() };
        proof {
            assert(qt_code_set(set.ids@) =~= Set::empty());
        }
        let mut i: usize = 0;
        while i < N
            invariant
                i <= N,
                items@.len() == N,
                set@ == qt_code_set(items@.take(i as int)),
            decreases N - i,
        {
            let id = items[i];
            set.insert(id);
            proof {
                assert(items@.take(i + 1) =~= items@.take(i as int).push(id));
                lemma_qt_code_set_push(items@.take(i as int), id);
            }
            i = i + 1;
        }
        proof {
            assert(items@.take(N as int) =~= items@);
        }
        set
    }

    /// The number of identifiers in the set.
    pub fn len(&self) -> (r: usize)
        ensures
            r == self@.len(),
    {
        proof {
            use_type_invariant(self);
            lemma_qt_code_set_len(self.ids@);
        }
        self.ids.len()
    }

    /// Whether the set holds no identifier.
    pub fn is_empty(&self) -> (r: bool)
        ensures
            r <==> self@ == Set::<u8>::empty(),
    {
        proof {
            use_type_invariant(self);
            lemma_qt_code_set_len(self.ids@);
            if self.ids@.len() > 0 {
                let c0 = query_type_id_code(self.ids@[0]);
                assert(qt_code_set(self.ids@).contains(c0));
                assert(!Set::<u8>::empty().contains(c0));
                assert(self@.contains(c0));
            } else {
                assert(self@ =~= Set::<u8>::empty());
            }
        }
        self.ids.len() == 0
    }

    /// Whether an identifier with the code of `id` is in the set.
    pub fn contains(&self, id: &QueryTypeId) -> (r: bool)
        ensures
            r == self@.contains(query_type_id_code(*id)),
    {
        let c = id.code();
        let mut i: usize = 0;
        while i < self.ids.len()
            invariant
                i <= self.ids@.len(),
                c == query_type_id_code(*id),
                forall|k: int| 0 <= k < i ==> query_type_id_code(self.ids@[k]) != c,
            decreases self.ids@.len() - i,
        {
            if self.ids[i].code() == c {
                assert(qt_code_set(self.ids@).contains(query_type_id_code(self.ids@[i as int])));
                assert(self@.contains(c));
                return true;
            }
            i = i + 1;
        }
        false
    }

    /// The identifiers present in both sets.
    pub fn intersect(&self, other: &QueryTypeIdSet) -> (r: QueryTypeIdSet)
        ensures
            r@ == self@.intersect(other@),
    {
        proof {
            use_type_invariant(self);
        }
        let mut ids: Vec<QueryTypeId> = Vec::new();
        let mut i: usize = 0;
        while i < self.ids.len()
            invariant
                i <= self.ids@.len(),
                qt_codes_strictly_increasing(self.ids@),
                qt_codes_strictly_increasing(ids@),
                ids@.len() > 0 ==> exists|k: int|
                    0 <= k < i && query_type_id_code(ids@.last()) == query_type_id_code(self.ids@[k]),
                qt_code_set(ids@) == qt_code_set(self.ids@.take(i as int)).intersect(other@),
            decreases self.ids@.len() - i,
        {
            let id = self.ids[i];
            let ghost prev = ids@;
            if other.contains(&id) {
                ids.push(id);
                proof {
                    if prev.len() > 0 {
                        let k = choose|k: int|
                            0 <= k < i && query_type_id_code(prev.last()) == query_type_id_code(self.ids@[k]);
                        assert(query_type_id_code(self.ids@[k]) < query_type_id_code(self.ids@[i as int]));
                    }
                    assert(ids@.last() == self.ids@[i as int]);
                }
            }
            proof {
                let t = self.ids@.take(i as int);
                let t1 = self.ids@.take(i + 1);
                assert(t1 =~= t.push(self.ids@[i as int]));
                lemma_qt_code_set_push(t, self.ids@[i as int]);
                lemma_qt_code_set_push(prev, id);
                assert(qt_code_set(ids@) =~= qt_code_set(t1).intersect(other@));
            }
            i = i + 1;
        }
        proof {
            assert(self.ids@.take(self.ids@.len() as int) =~= self.ids@);
        }
        QueryTypeIdSet { ids }
    }
}

/// Appending an identifier adds its code to the code set.
pub proof fn lemma_qt_code_set_push(s: Seq<QueryTypeId>, id: QueryTypeId)
    ensures
        qt_code_set(s.push(id)) == qt_code_set(s).insert(query_type_id_code(id)),
{
    assert forall|x: u8| qt_code_set(s.push(id)).contains(x) implies qt_code_set(s).insert(
        query_type_id_code(id),
    ).contains(x) by {
        let k = choose|k: int| 0 <= k < s.push(id).len() && query_type_id_code(s.push(id)[k]) == x;
        if k < s.len() {
            assert(s.push(id)[k] == s[k]);
        }
    }
    assert forall|x: u8| qt_code_set(s).insert(query_type_id_code(id)).contains(x) implies qt_code_set(
        s.push(id),
    ).contains(x) by {
        if x == query_type_id_code(id) {
            assert(s.push(id)[s.len() as int] == id);
        } else {
            let k = choose|k: int| 0 <= k < s.len() && query_type_id_code(s[k]) == x;
            assert(s.push(id)[k] == s[k]);
        }
    }
    assert(qt_code_set(s.push(id)) =~= qt_code_set(s).insert(query_type_id_code(id)));
}

/// A sequence with strictly increasing codes has as many codes as items.
pub proof fn lemma_qt_code_set_len(s: Seq<QueryTypeId>)
    requires
        qt_codes_strictly_increasing(s),
    ensures
        qt_code_set(s).finite(),
        qt_code_set(s).len() == s.len(),
    decreases s.len(),
{
    if s.len() == 0 {
        assert(qt_code_set(s) =~= Set::empty());
    } else {
        let p = s.drop_last();
        lemma_qt_code_set_len(p);
        assert(s =~= p.push(s.last()));
        lemma_qt_code_set_push(p, s.last());
        if qt_code_set(p).contains(query_type_id_code(s.last())) {
            let k = choose|k: int| 0 <= k < p.len() && query_type_id_code(p[k]) == query_type_id_code(s.last());
            assert(s[k] == p[k]);
        }
    }
}

impl Default for QueryTypeIdSet {
    /// The query types that an aggregator supports unless it says otherwise.
    fn default() -> (r: QueryTypeIdSet)
        ensures
            r@ == set![1u8, 2u8],
    {
        let r = QueryTypeIdSet::from_iter([QueryTypeId::TimeInterval, QueryTypeId::FixedSize]);
        proof {
            let items = [QueryTypeId::TimeInterval, QueryTypeId::FixedSize];
            assert(query_type_id_code(items@[0]) == 1);
            assert(query_type_id_code(items@[1]) == 2);
            assert(r@ =~= set![1u8, 2u8]);
        }
        r
    }
}

impl QueryTypeId {
    /// The identifier that a number read from JSON stands for; a number
    /// outside the range of `u8` is refused.
    pub fn from_wire(value: i128) -> (r: Option<QueryTypeId>)
        ensures
            match r {
                Some(id) => 0 <= value <= u8::MAX && id == query_type_id_of_code(value as u8),
                None => !(0 <= value <= u8::MAX),
            },
    {
        if 0 <= value && value <= u8::MAX as i128 {
            Some(QueryTypeId::from_code(value as u8))
        } else {
            None
        }
    }
}

} // verus!
