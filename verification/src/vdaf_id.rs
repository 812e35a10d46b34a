use vstd::prelude::*;

verus! {

/// VDAF identifiers as registered in the VDAF specification's IANA
/// considerations. Two identifiers are equal when their numeric codes are.
#[derive(Debug, Clone, Copy)]
pub enum VdafId {
    Prio3Count,
    Prio3Sum,
    Prio3Histogram,
    OtherPrio3(u32),
    Poplar1,
    Other(u32),
}

/// The numeric code of an identifier.
pub open spec fn vdaf_id_code(id: VdafId) -> u32 {
    match id {
        VdafId::Prio3Count => 0,
        VdafId::Prio3Sum => 1,
        VdafId::Prio3Histogram => 2,
        VdafId::OtherPrio3(n) => n,
        VdafId::Poplar1 => 4096,
        VdafId::Other(n) => n,
    }
}

/// The identifier that a numeric code decodes to.
pub open spec fn vdaf_id_of_code(n: u32) -> VdafId {
    if n == 0 {
        VdafId::Prio3Count
    } else if n == 1 {
        VdafId::Prio3Sum
    } else if n == 2 {
        VdafId::Prio3Histogram
    } else if 3 <= n <= 4095 {
        VdafId::OtherPrio3(n)
    } else if n == 4096 {
        VdafId::Poplar1
    } else {
        VdafId::Other(n)
    }
}

impl VdafId {
    /// The numeric code of this identifier.
    pub fn code(self) -> (r: u32)
        ensures
            r == vdaf_id_code(self),
    {
        match self {
            VdafId::Prio3Count => 0,
            VdafId::Prio3Sum => 1,
            VdafId::Prio3Histogram => 2,
            VdafId::OtherPrio3(n) => n,
            VdafId::Poplar1 => 4096,
            VdafId::Other(n) => n,
        }
    }

    /// Decodes a numeric code.
    pub fn from_code(value: u32) -> (r: VdafId)
        ensures
            r == vdaf_id_of_code(value),
    {
        if value == 0 {
            VdafId::Prio3Count
        } else if value == 1 {
            VdafId::Prio3Sum
        } else if value == 2 {
            VdafId::Prio3Histogram
        } else if value <= 4095 {
            VdafId::OtherPrio3(value)
        } else if value == 4096 {
            VdafId::Poplar1
        } else {
            VdafId::Other(value)
        }
    }
}

impl From<VdafId> for u32 {
    fn from(value: VdafId) -> (r: u32) {
        value.code()
    }
}

impl vstd::std_specs::convert::FromSpecImpl<VdafId> for u32 {
    open spec fn obeys_from_spec() -> bool {
        true
    }

    open spec fn from_spec(v: VdafId) -> u32 {
        vdaf_id_code(v)
    }
}

impl From<u32> for VdafId {
    fn from(value: u32) -> (r: VdafId) {
        VdafId::from_code(value)
    }
}

impl vstd::std_specs::convert::FromSpecImpl<u32> for VdafId {
    open spec fn obeys_from_spec() -> bool {
        true
    }

    open spec fn from_spec(v: u32) -> VdafId {
        vdaf_id_of_code(v)
    }
}

impl PartialEq for VdafId {
    fn eq(&self, other: &VdafId) -> (r: bool) {
        self.code() == other.code()
    }
}

impl vstd::std_specs::cmp::PartialEqSpecImpl for VdafId {
    open spec fn obeys_eq_spec() -> bool {
        true
    }

    open spec fn eq_spec(&self, other: &VdafId) -> bool {
        vdaf_id_code(*self) == vdaf_id_code(*other)
    }
}

impl Eq for VdafId {}

/// The registered codes: Prio3Count is 0, Prio3Sum 1, Prio3Histogram 2,
/// the other Prio3 codes run from 3 to 4095, Poplar1 is 4096, and every
/// other code stands for itself. A code decodes to the identifier registered
/// for it and to no other.
pub proof fn lemma_vdaf_id_registered_codes(n: u32)
    ensures
        vdaf_id_of_code(n) is Prio3Count <==> n == 0,
        vdaf_id_of_code(n) is Prio3Sum <==> n == 1,
        vdaf_id_of_code(n) is Prio3Histogram <==> n == 2,
        vdaf_id_of_code(n) is OtherPrio3 <==> 3 <= n <= 4095,
        vdaf_id_of_code(n) is Poplar1 <==> n == 4096,
        vdaf_id_of_code(n) is Other <==> n > 4096,
        vdaf_id_code(VdafId::Prio3Count) == 0,
        vdaf_id_code(VdafId::Prio3Sum) == 1,
        vdaf_id_code(VdafId::Prio3Histogram) == 2,
        vdaf_id_code(VdafId::Poplar1) == 4096,
        vdaf_id_code(VdafId::OtherPrio3(n)) == n,
        vdaf_id_code(VdafId::Other(n)) == n,
{
}

/// Decoding a code and encoding the result gives the code back.
pub proof fn lemma_vdaf_id_code_roundtrip(n: u32)
    ensures
        vdaf_id_code(vdaf_id_of_code(n)) == n,
{
}

/// Encoding an identifier and decoding the code gives an identifier equal
/// to it; for an identifier in canonical form, the very same value.
pub proof fn lemma_vdaf_id_decode_encode(id: VdafId)
    ensures
        vdaf_id_code(vdaf_id_of_code(vdaf_id_code(id))) == vdaf_id_code(id),
        vdaf_id_is_canonical(id) ==> vdaf_id_of_code(vdaf_id_code(id)) == id,
{
}

/// An identifier in the form that decoding produces.
pub open spec fn vdaf_id_is_canonical(id: VdafId) -> bool {
    match id {
        VdafId::OtherPrio3(n) => 3 <= n <= 4095,
        VdafId::Other(n) => n > 4096,
        _ => true,
    }
}

/// Codes strictly increasing along the sequence.
pub open spec fn codes_strictly_increasing(s: Seq<VdafId>) -> bool {
    forall|i: int, j: int| 0 <= i < j < s.len() ==> vdaf_id_code(s[i]) < vdaf_id_code(s[j])
}

/// The set of codes in a sequence of identifiers.
pub open spec fn code_set(s: Seq<VdafId>) -> Set<u32> {
    Set::new(|c: u32| exists|i: int| 0 <= i < s.len() && vdaf_id_code(s[i]) == c)
}

/// An ordered set of VDAF identifiers, kept sorted by code with no code
/// occurring twice.
#[derive(Debug)]
pub struct VdafIdSet {
    ids: Vec<VdafId>,
}

impl View for VdafIdSet {
    type V = Set<u32>;

    closed spec fn view(&self) -> Set<u32> {
        code_set(self.ids@)
    }
}

impl Clone for VdafIdSet {
    fn clone(&self) -> (r: VdafIdSet)
        ensures
            r@ == self@,
    {
        proof {
            use_type_invariant(self);
        }
        let mut ids: Vec<VdafId> = Vec::new();
        let mut i: usize = 0;
        while i < self.ids.len()
            invariant
                i <= self.ids@.len(),
                ids@ == self.ids@.take(i as int),
            decreases self.ids@.len() - i,
        {
            ids.push(self.ids[i]);
            proof {
                assert(self.ids@.take(i + 1) =~= self.ids@.take(i as int).push(self.ids@[i as int]));
            }
            i = i + 1;
        }
        proof {
            assert(self.ids@.take(self.ids@.len() as int) =~= self.ids@);
        }
        VdafIdSet { ids }
    }
}

impl VdafIdSet {
    #[verifier::type_invariant]
    closed spec fn well_formed(self) -> bool {
        codes_strictly_increasing(self.ids@)
    }

    /// Inserts an identifier, keeping the order by code; an identifier whose
    /// code is present already leaves the set unchanged.
    pub fn insert(&mut self, id: VdafId)
        ensures
            final(self)@ == old(self)@.insert(vdaf_id_code(id)),
    {
        proof {
            use_type_invariant(&*self);
        }
        let c = id.code();
        let mut pos: usize = 0;
        let n = self.ids.len();
        while pos < n && self.ids[pos].code() < c
            invariant
                n == self.ids@.len(),
                pos <= n,
                codes_strictly_increasing(self.ids@),
                forall|k: int| 0 <= k < pos ==> vdaf_id_code(self.ids@[k]) < c,
            decreases n - pos,
        {
            pos = pos + 1;
        }
        if pos < n && self.ids[pos].code() == c {
            return;
        }
        let ghost before = self.ids@;
        let mut ids: Vec<VdafId> = Vec::new();
        std::mem::swap(&mut ids, &mut self.ids);
        ids.insert(pos, id);
        proof {
            assert forall|i: int, j: int| 0 <= i < j < ids@.len() implies vdaf_id_code(ids@[i])
                < vdaf_id_code(ids@[j]) by {
                if j < pos {
                } else if i > pos {
                    assert(ids@[i] == before[i - 1]);
                    assert(ids@[j] == before[j - 1]);
                } else if i == pos {
                    assert(ids@[j] == before[j - 1]);
                    if pos < n {
                        assert(vdaf_id_code(before[pos as int]) > c);
                    }
                } else {
                    assert(ids@[i] == before[i]);
                }
            }
            assert(code_set(ids@) =~= code_set(before).insert(c)) by {
                assert forall|x: u32| code_set(before).insert(c).contains(x) implies code_set(
                    ids@,
                ).contains(x) by {
                    if x == c {
                        assert(ids@[pos as int] == id);
                    } else {
                        let k = choose|k: int| 0 <= k < before.len() && vdaf_id_code(before[k]) == x;
                        if k < pos {
                            assert(ids@[k] == before[k]);
                        } else {
                            assert(ids@[k + 1] == before[k]);
                        }
                    }
                }
                assert forall|x: u32| code_set(ids@).contains(x) implies code_set(
                    before,
                ).insert(c).contains(x) by {
                    let k = choose|k: int| 0 <= k < ids@.len() && vdaf_id_code(ids@[k]) == x;
                    if k < pos {
                        assert(ids@[k] == before[k]);
                    } else if k > pos {
                        assert(ids@[k] == before[k - 1]);
                    }
                }
            }
        }
        self.ids = ids;
    }

    /// The set holding the identifiers of `items`.
    pub fn from_iter<const N: usize>(items: [VdafId; N]) -> (r: VdafIdSet)
        ensures
            r@ == code_set(items@),
    {
        let mut set = VdafIdSet { ids: Vec::new() };
        proof {
            assert(code_set(set.ids@) =~= Set::empty());
        }
        let mut i: usize = 0;
        while i < N
            invariant
                i <= N,
                items@.len() == N,
                set@ == code_set(items@.take(i as int)),
            decreases N - i,
        {
            let id = items[i];
            set.insert(id);
            proof {
                assert(items@.take(i + 1) =~= items@.take(i as int).push(id));
                lemma_code_set_push(items@.take(i as int), id);
            }
            i = i + 1;
        }
        proof {
            assert(items@.take(N as int) =~= items@);
        }
        set
    }

    /// The number of identifiers in the set.
    pub fn len(&self) -> (r: usize)
        ensures
            r == self@.len(),
    {
        proof {
            use_type_invariant(self);
            lemma_code_set_len(self.ids@);
        }
        self.ids.len()
    }

    /// Whether the set holds no identifier.
    pub fn is_empty(&self) -> (r: bool)
        ensures
            r <==> self@ == Set::<u32>::empty(),
    {
        proof {
            use_type_invariant(self);
            lemma_code_set_len(self.ids@);
            if self.ids@.len() > 0 {
                let c0 = vdaf_id_code(self.ids@[0]);
                assert(code_set(self.ids@).contains(c0));
                assert(!Set::<u32>::empty().contains(c0));
                assert(self@.contains(c0));
            } else {
                assert(self@ =~= Set::<u32>::empty());
            }
        }
        self.ids.len() == 0
    }

    /// Whether an identifier with the code of `id` is in the set.
    pub fn contains(&self, id: &VdafId) -> (r: bool)
        ensures
            r == self@.contains(vdaf_id_code(*id)),
    {
        let c = id.code();
        let mut i: usize = 0;
        while i < self.ids.len()
            invariant
                i <= self.ids@.len(),
                c == vdaf_id_code(*id),
                forall|k: int| 0 <= k < i ==> vdaf_id_code(self.ids@[k]) != c,
            decreases self.ids@.len() - i,
        {
            if self.ids[i].code() == c {
                assert(code_set(self.ids@).contains(vdaf_id_code(self.ids@[i as int])));
                assert(self@.contains(c));
                return true;
            }
            i = i + 1;
        }
        false
    }

    /// The identifiers present in both sets.
    pub fn intersect(&self, other: &VdafIdSet) -> (r: VdafIdSet)
        ensures
            r@ == self@.intersect(other@),
    {
        proof {
            use_type_invariant(self);
        }
        let mut ids: Vec<VdafId> = Vec::new();
        let mut i: usize = 0;
        while i < self.ids.len()
            invariant
                i <= self.ids@.len(),
                codes_strictly_increasing(self.ids@),
                codes_strictly_increasing(ids@),
                ids@.len() > 0 ==> exists|k: int|
                    0 <= k < i && vdaf_id_code(ids@.last()) == vdaf_id_code(self.ids@[k]),
                code_set(ids@) == code_set(self.ids@.take(i as int)).intersect(other@),
            decreases self.ids@.len() - i,
        {
            let id = self.ids[i];
            let ghost prev = ids@;
            if other.contains(&id) {
                ids.push(id);
                proof {
                    if prev.len() > 0 {
                        let k = choose|k: int|
                            0 <= k < i && vdaf_id_code(prev.last()) == vdaf_id_code(self.ids@[k]);
                        assert(vdaf_id_code(self.ids@[k]) < vdaf_id_code(self.ids@[i as int]));
                    }
                    assert(ids@.last() == self.ids@[i as int]);
                }
            }
            proof {
                let t = self.ids@.take(i as int);
                let t1 = self.ids@.take(i + 1);
                assert(t1 =~= t.push(self.ids@[i as int]));
                lemma_code_set_push(t, self.ids@[i as int]);
                lemma_code_set_push(prev, id);
                assert(code_set(ids@) =~= code_set(t1).intersect(other@));
            }
            i = i + 1;
        }
        proof {
            assert(self.ids@.take(self.ids@.len() as int) =~= self.ids@);
        }
        VdafIdSet { ids }
    }
}

/// Appending an identifier adds its code to the code set.
pub proof fn lemma_code_set_push(s: Seq<VdafId>, id: VdafId)
    ensures
        code_set(s.push(id)) == code_set(s).insert(vdaf_id_code(id)),
{
    assert forall|x: u32| code_set(s.push(id)).contains(x) implies code_set(s).insert(
        vdaf_id_code(id),
    ).contains(x) by {
        let k = choose|k: int| 0 <= k < s.push(id).len() && vdaf_id_code(s.push(id)[k]) == x;
        if k < s.len() {
            assert(s.push(id)[k] == s[k]);
        }
    }
    assert forall|x: u32| code_set(s).insert(vdaf_id_code(id)).contains(x) implies code_set(
        s.push(id),
    ).contains(x) by {
        if x == vdaf_id_code(id) {
            assert(s.push(id)[s.len() as int] == id);
        } else {
            let k = choose|k: int| 0 <= k < s.len() && vdaf_id_code(s[k]) == x;
            assert(s.push(id)[k] == s[k]);
        }
    }
    assert(code_set(s.push(id)) =~= code_set(s).insert(vdaf_id_code(id)));
}

/// A sequence with strictly increasing codes has as many codes as items.
pub proof fn lemma_code_set_len(s: Seq<VdafId>)
    requires
        codes_strictly_increasing(s),
    ensures
        code_set(s).finite(),
        code_set(s).len() == s.len(),
    decreases s.len(),
{
    if s.len() == 0 {
        assert(code_set(s) =~= Set::empty());
    } else {
        let p = s.drop_last();
        lemma_code_set_len(p);
        assert(s =~= p.push(s.last()));
        lemma_code_set_push(p, s.last());
        if code_set(p).contains(vdaf_id_code(s.last())) {
            let k = choose|k: int| 0 <= k < p.len() && vdaf_id_code(p[k]) == vdaf_id_code(s.last());
            assert(s[k] == p[k]);
        }
    }
}

impl Default for VdafIdSet {
    /// The VDAFs that an aggregator supports unless it says otherwise.
    fn default() -> (r: VdafIdSet)
        ensures
            r@ == set![0u32, 1u32, 2u32],
    {
        let r = VdafIdSet::from_iter([VdafId::Prio3Count, VdafId::Prio3Sum, VdafId::Prio3Histogram]);
        proof {
            let items = [VdafId::Prio3Count, VdafId::Prio3Sum, VdafId::Prio3Histogram];
            assert(vdaf_id_code(items@[0]) == 0);
            assert(vdaf_id_code(items@[1]) == 1);
            assert(vdaf_id_code(items@[2]) == 2);
            assert(r@ =~= set![0u32, 1u32, 2u32]);
        }
        r
    }
}

impl VdafId {
    /// The identifier that a number read from JSON stands for; a number
    /// outside the range of `u32` is refused.
    pub fn from_wire(value: i128) -> (r: Option<VdafId>)
        ensures
            match r {
                Some(id) => 0 <= value <= u32::MAX && id == vdaf_id_of_code(value as u32),
                None => !(0 <= value <= u32::MAX),
            },
    {
        if 0 <= value && value <= u32::MAX as i128 {
            Some(VdafId::from_code(value as u32))
        } else {
            None
        }
    }
}

} // verus!
