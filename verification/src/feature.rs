use crate::item_set::{ItemSet, SetItem};
use crate::strings::{owned, str_eq};
use vstd::prelude::*;

verus! {

/// Optional features that an aggregator may advertise; a feature that this
/// service does not know is kept by name.
#[derive(Debug)]
pub enum Feature {
    TokenHash,
    UploadMetrics,
    Unknown(String),
}

/// The tag of the variant, with the text of an `Unknown` value.
impl View for Feature {
    type V = (u8, Seq<char>);

    open spec fn view(&self) -> (u8, Seq<char>) {
        match self {
            Feature::TokenHash => (0, Seq::empty()),
            Feature::UploadMetrics => (1, Seq::empty()),
            Feature::Unknown(s) => (2, s@),
        }
    }
}

/// The text of a value.
pub open spec fn feature_text(n: (u8, Seq<char>)) -> Seq<char> {
    if n.0 == 0 {
        "TokenHash"@
    } else if n.0 == 1 {
        "UploadMetrics"@
    } else {
        n.1
    }
}

/// The value that a text parses to.
pub open spec fn feature_parse(s: Seq<char>) -> (u8, Seq<char>) {
    if s == "TokenHash"@ {
        (0, Seq::empty())
    } else if s == "UploadMetrics"@ {
        (1, Seq::empty())
    } else {
        (2, s)
    }
}

/// Features are read from, and written as, the names that aggregators
/// advertise: "TokenHash" and "UploadMetrics" name the two known features,
/// and any other name is kept as it is.
pub proof fn lemma_feature_texts(s: Seq<char>)
    ensures
        (feature_parse(s) == Feature::TokenHash@) <==> s == "TokenHash"@,
        (feature_parse(s) == Feature::UploadMetrics@) <==> s == "UploadMetrics"@,
        feature_parse(s).0 == 2 <==> (s != "TokenHash"@ && s != "UploadMetrics"@),
        feature_parse(s).0 == 2 ==> feature_parse(s).1 == s,
        feature_text(Feature::TokenHash@) == "TokenHash"@,
        feature_text(Feature::UploadMetrics@) == "UploadMetrics"@,
        feature_text((2u8, s)) == s,
        token_hash_view() == Feature::TokenHash@,
        upload_metrics_view() == Feature::UploadMetrics@,
{
    reveal_strlit("TokenHash");
    reveal_strlit("UploadMetrics");
    assert("TokenHash"@.len() == 9);
    assert("UploadMetrics"@.len() == 13);
}

impl Feature {
    /// Parses a text; one that is not recognized becomes `Unknown`.
    pub fn parse(s: &str) -> (r: Feature)
        ensures
            r@ == feature_parse(s@),
            r is TokenHash <==> s@ == "TokenHash"@,
            r is UploadMetrics <==> s@ == "UploadMetrics"@,
            r matches Feature::Unknown(o) ==> o@ == s@,
    {
        proof {
            lemma_feature_texts(s@);
        }
        if str_eq(s, "TokenHash") {
            Feature::TokenHash
        } else if str_eq(s, "UploadMetrics") {
            Feature::UploadMetrics
        } else {
            Feature::Unknown(owned(s))
        }
    }

    /// The text of the value.
    pub fn as_ref(&self) -> (r: &str)
        ensures
            r@ == feature_text(self@),
            self is TokenHash ==> r@ == "TokenHash"@,
            self is UploadMetrics ==> r@ == "UploadMetrics"@,
            self matches Feature::Unknown(o) ==> r@ == o@,
    {
        match self {
            Feature::TokenHash => "TokenHash",
            Feature::UploadMetrics => "UploadMetrics",
            Feature::Unknown(o) => o.as_str(),
        }
    }

    /// The text of the value, owned.
    pub fn to_string(&self) -> (r: String)
        ensures
            r@ == feature_text(self@),
    {
        owned(self.as_ref())
    }
}

impl SetItem for Feature {
    fn same_as(&self, other: &Feature) -> (r: bool) {
        match (self, other) {
            (Feature::Unknown(a), Feature::Unknown(b)) => str_eq(a.as_str(), b.as_str()),
            (Feature::TokenHash, Feature::TokenHash) => true,
            (Feature::UploadMetrics, Feature::UploadMetrics) => true,
            _ => false,
        }
    }

    fn duplicate(&self) -> (r: Feature) {
        match self {
            Feature::TokenHash => Feature::TokenHash,
            Feature::UploadMetrics => Feature::UploadMetrics,
            Feature::Unknown(o) => Feature::Unknown(owned(o.as_str())),
        }
    }
}

impl Clone for Feature {
    fn clone(&self) -> (r: Feature)
        ensures
            r@ == self@,
    {
        self.duplicate()
    }
}

impl PartialEq for Feature {
    fn eq(&self, other: &Feature) -> (r: bool) {
        self.same_as(other)
    }
}

impl vstd::std_specs::cmp::PartialEqSpecImpl for Feature {
    open spec fn obeys_eq_spec() -> bool {
        true
    }

    open spec fn eq_spec(&self, other: &Feature) -> bool {
        self@ == other@
    }
}

impl Eq for Feature {}

/// Parsing the text of a value gives the value back, for every value but
/// an `Unknown` value that holds the text of a recognized one.
pub proof fn lemma_feature_roundtrip(n: (u8, Seq<char>))
    requires
        n.0 <= 2,
        n.0 != 2 ==> n.1 == Seq::<char>::empty(),
        n.0 == 2 ==> feature_parse(n.1).0 == 2,
    ensures
        feature_parse(feature_text(n)) == n,
{
    reveal_strlit("TokenHash");
    reveal_strlit("UploadMetrics");
    assert("TokenHash"@.len() == 9);
    assert("UploadMetrics"@.len() == 13);
}

impl Feature {
    /// The feature that a name in an aggregator's feature list stands for.
    pub fn from_name(s: &str) -> (r: Feature)
        ensures
            r@ == feature_parse(s@),
    {
        Feature::parse(s)
    }
}

/// The tag of `TokenHash`.
pub open spec fn token_hash_view() -> (u8, Seq<char>) {
    (0u8, Seq::<char>::empty())
}

/// The tag of `UploadMetrics`.
pub open spec fn upload_metrics_view() -> (u8, Seq<char>) {
    (1u8, Seq::<char>::empty())
}

/// The set of features that an aggregator advertises; none of them twice.
#[derive(Debug)]
pub struct Features(ItemSet<Feature>);

impl View for Features {
    type V = Set<(u8, Seq<char>)>;

    closed spec fn view(&self) -> Set<(u8, Seq<char>)> {
        self.0@
    }
}

impl Features {
    /// Whether the aggregator accepts collector token hashes.
    pub fn token_hash_enabled(&self) -> (r: bool)
        ensures
            r == self@.contains(token_hash_view()),
    {
        self.0.contains(&Feature::TokenHash)
    }

    /// Whether the aggregator reports upload metrics.
    pub fn upload_metrics_enabled(&self) -> (r: bool)
        ensures
            r == self@.contains(upload_metrics_view()),
    {
        self.0.contains(&Feature::UploadMetrics)
    }

    /// The number of features.
    pub fn len(&self) -> (r: usize)
        ensures
            r == self@.len(),
            self@.finite(),
    {
        self.0.len()
    }

    /// Whether no feature is advertised.
    pub fn is_empty(&self) -> (r: bool)
        ensures
            r <==> self@ == Set::<(u8, Seq<char>)>::empty(),
    {
        self.0.is_empty()
    }

    /// The features in both sets.
    pub fn intersect(&self, other: &Features) -> (r: Features)
        ensures
            r@ == self@.intersect(other@),
    {
        Features(self.0.intersect(&other.0))
    }

    /// Whether `feature` is advertised.
    pub fn contains(&self, feature: &Feature) -> (r: bool)
        ensures
            r == self@.contains(feature@),
    {
        self.0.contains(feature)
    }

    /// The set of the features in `items`, each once.
    pub fn from_iter<const N: usize>(items: [Feature; N]) -> (r: Features)
        ensures
            r@ == crate::item_set::view_set(items@),
    {
        let mut set = ItemSet::new();
        let mut i: usize = 0;
        proof {
            assert(crate::item_set::view_set(items@.take(0)) =~= Set::empty());
        }
        while i < N
            invariant
                i <= N,
                items@.len() == N,
                set@ == crate::item_set::view_set(items@.take(i as int)),
            decreases N - i,
        {
            let d = items[i].duplicate();
            set.insert(d);
            proof {
                assert(items@.take(i + 1) =~= items@.take(i as int).push(items@[i as int]));
                crate::item_set::lemma_view_set_push(items@.take(i as int), items@[i as int]);
            }
            i = i + 1;
        }
        proof {
            assert(items@.take(N as int) =~= items@);
        }
        Features(set)
    }

    /// The set of the features in `items`, each once.
    pub fn from_vec(items: Vec<Feature>) -> (r: Features)
        ensures
            r@ == crate::item_set::view_set(items@),
    {
        let mut set = ItemSet::new();
        let mut i: usize = 0;
        proof {
            assert(crate::item_set::view_set(items@.take(0)) =~= Set::empty());
        }
        while i < items.len()
            invariant
                i <= items@.len(),
                set@ == crate::item_set::view_set(items@.take(i as int)),
            decreases items@.len() - i,
        {
            let d = items[i].duplicate();
            set.insert(d);
            proof {
                assert(items@.take(i + 1) =~= items@.take(i as int).push(items@[i as int]));
                crate::item_set::lemma_view_set_push(items@.take(i as int), items@[i as int]);
            }
            i = i + 1;
        }
        proof {
            assert(items@.take(items@.len() as int) =~= items@);
        }
        Features(set)
    }

    /// The features named in an aggregator's feature list; a name that is
    /// listed more than once counts once.
    pub fn from_names(names: &Vec<String>) -> (r: Features)
        ensures
            r@ == Set::new(
                |v: (u8, Seq<char>)|
                    exists|i: int| 0 <= i < names@.len() && feature_parse(#[trigger] names@[i]@) == v,
            ),
    {
        let mut items: Vec<Feature> = Vec::new();
        let mut i: usize = 0;
        while i < names.len()
            invariant
                i <= names@.len(),
                items@.len() == i,
                forall|k: int| 0 <= k < i ==> #[trigger] items@[k]@ == feature_parse(names@[k]@),
            decreases names@.len() - i,
        {
            items.push(Feature::from_name(names[i].as_str()));
            i = i + 1;
        }
        let r = Features::from_vec(items);
        proof {
            assert(r@ =~= Set::new(
                |v: (u8, Seq<char>)|
                    exists|i: int| 0 <= i < names@.len() && feature_parse(#[trigger] names@[i]@) == v,
            )) by {
                assert forall|v: (u8, Seq<char>)| r@.contains(v) implies exists|i: int|
                    0 <= i < names@.len() && feature_parse(#[trigger] names@[i]@) == v by {
                    let k = choose|k: int| 0 <= k < items@.len() && #[trigger] items@[k]@ == v;
                    assert(feature_parse(names@[k]@) == v);
                }
                assert forall|v: (u8, Seq<char>)|
                    (exists|i: int| 0 <= i < names@.len() && feature_parse(#[trigger] names@[i]@) == v)
                    implies r@.contains(v) by {
                    let k = choose|k: int| 0 <= k < names@.len() && feature_parse(#[trigger] names@[k]@) == v;
                    assert(items@[k]@ == v);
                }
            }
        }
        r
    }

    /// The set holding just `value`.
    pub fn from(value: Feature) -> (r: Features)
        ensures
            r@ == set![value@],
    {
        let r = Features::from_iter([value]);
        proof {
            let items = [value];
            assert(r@ =~= set![value@]) by {
                assert(items@[0]@ == value@);
            }
        }
        r
    }

    /// The features, each once, in the order of first insertion.
    pub fn to_vec(&self) -> (r: Vec<Feature>)
        ensures
            crate::item_set::view_set(r@) == self@,
            crate::item_set::views_unique(r@),
    {
        self.0.to_vec()
    }
}

impl Default for Features {
    /// No feature.
    fn default() -> (r: Features)
        ensures
            r@ == Set::<(u8, Seq<char>)>::empty(),
    {
        Features(ItemSet::new())
    }
}

impl Clone for Features {
    fn clone(&self) -> (r: Features)
        ensures
            r@ == self@,
    {
        Features(self.0.duplicate())
    }
}

impl PartialEq for Features {
    fn eq(&self, other: &Features) -> (r: bool) {
        self.0.same_set(&other.0)
    }
}

impl vstd::std_specs::cmp::PartialEqSpecImpl for Features {
    open spec fn obeys_eq_spec() -> bool {
        true
    }

    open spec fn eq_spec(&self, other: &Features) -> bool {
        self@ == other@
    }
}

impl Eq for Features {}

} // verus!
