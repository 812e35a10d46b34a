use crate::aggregator_vdaf::{AggregatorVdaf, HistogramType, same_aggregator_vdaf};
use crate::dp_strategies::{
    histogram_dp_epsilon, nested_view, sum_vec_dp_epsilon, Prio3Histogram,
    Prio3SumVec, PureDpBudget, PureDpDiscreteLaplace,
};
use crate::item_set::{all_unique, views_unique};
use crate::protocol::Protocol;
use crate::validation::{
    add_if, error_if, field_error, finish, nested_error, validation_result, ValidationErrors,
};
use crate::vdaf_name::{vdaf_name_parse, vdaf_name_text, VdafName};
use vstd::prelude::*;

verus! {

/// Whether a task applies differential privacy, and how.
#[derive(Debug, Clone, Copy, PartialEq, Eq, Structural)]
pub enum DpStrategyKind {
    NoDifferentialPrivacy,
    PureDpDiscreteLaplace,
}

impl Default for DpStrategyKind {
    fn default() -> (r: DpStrategyKind)
        ensures
            r == DpStrategyKind::NoDifferentialPrivacy,
    {
        DpStrategyKind::NoDifferentialPrivacy
    }
}

/// The privacy budget of a task.
#[derive(Debug)]
pub struct DpBudget {
    pub epsilon: Option<Vec<Vec<u32>>>,
}

impl Default for DpBudget {
    fn default() -> (r: DpBudget)
        ensures
            r.epsilon.is_none(),
    {
        DpBudget { epsilon: None }
    }
}

/// The differential privacy strategy of a task.
#[derive(Debug)]
pub struct DpStrategy {
    pub dp_strategy: DpStrategyKind,
    pub budget: DpBudget,
}

impl Default for DpStrategy {
    fn default() -> (r: DpStrategy)
        ensures
            r.dp_strategy == DpStrategyKind::NoDifferentialPrivacy,
            r.budget.epsilon.is_none(),
    {
        DpStrategy { dp_strategy: DpStrategyKind::NoDifferentialPrivacy, budget: DpBudget::default() }
    }
}

/// The epsilon of a strategy, if it has one.
pub open spec fn dp_epsilon(d: DpStrategy) -> Option<Seq<Seq<u32>>> {
    match d.budget.epsilon {
        Some(e) => Some(nested_view(e@)),
        None => None,
    }
}

/// A strategy whose kind and epsilon go together: an epsilon with
/// differential privacy, and none without.
pub open spec fn dp_consistent(d: DpStrategy) -> bool {
    (d.dp_strategy == DpStrategyKind::PureDpDiscreteLaplace) == d.budget.epsilon.is_some()
}

/// A strategy that the aggregator API can express: consistent, with an
/// epsilon of two parts.
pub open spec fn dp_representable(d: DpStrategy) -> bool {
    &&& dp_consistent(d)
    &&& (d.budget.epsilon matches Some(e) ==> e@.len() == 2)
}

/// The errors that validating a strategy's budget gives.
pub open spec fn dp_budget_errors(d: DpStrategy) -> Seq<(Seq<Seq<char>>, Seq<char>)> {
    match d.budget.epsilon {
        Some(e) => if e@.len() != 2 {
            seq![nested_error("budget"@, field_error("epsilon"@, "length"@))]
        } else {
            seq![]
        },
        None => seq![],
    }
}

/// The code with which the consistency rule rejects a strategy, if it does.
pub open spec fn dp_rule_code(d: DpStrategy) -> Option<Seq<char>> {
    match (d.dp_strategy, d.budget.epsilon) {
        (DpStrategyKind::NoDifferentialPrivacy, Some(_)) => Some("extra_epsilon"@),
        (DpStrategyKind::PureDpDiscreteLaplace, None) => Some("missing_epsilon"@),
        _ => None,
    }
}

/// The errors of a strategy held in a field named `dp_strategy`: those of its
/// budget under that field, then the consistency rule on the field itself.
pub open spec fn dp_field_errors(d: DpStrategy) -> Seq<(Seq<Seq<char>>, Seq<char>)> {
    dp_budget_errors(d).map_values(|e: (Seq<Seq<char>>, Seq<char>)| nested_error("dp_strategy"@, e))
        + match dp_rule_code(d) {
        Some(c) => seq![field_error("dp_strategy"@, c)],
        None => seq![],
    }
}

/// The consistency rule of a strategy: an epsilon is owed with differential
/// privacy and not allowed without it.
pub fn validate_dp_strategy(dp_strategy: &DpStrategy) -> (r: Result<(), &'static str>)
    ensures
        match r {
            Ok(()) => dp_rule_code(*dp_strategy).is_none(),
            Err(code) => dp_rule_code(*dp_strategy) == Some(code@),
        },
{
    match (dp_strategy.dp_strategy, &dp_strategy.budget.epsilon) {
        (DpStrategyKind::NoDifferentialPrivacy, None) => Ok(()),
        (DpStrategyKind::NoDifferentialPrivacy, Some(_)) => Err("extra_epsilon"),
        (DpStrategyKind::PureDpDiscreteLaplace, None) => Err("missing_epsilon"),
        (DpStrategyKind::PureDpDiscreteLaplace, Some(_)) => Ok(()),
    }
}

impl DpStrategy {
    /// The failed rules of the strategy's own fields: the budget's epsilon
    /// must have two parts.
    pub fn validate(&self) -> (r: ValidationErrors)
        ensures
            r@ == dp_budget_errors(*self),
    {
        let mut errors = ValidationErrors::new();
        match &self.budget.epsilon {
            Some(e) => {
                if e.len() != 2 {
                    let mut inner = ValidationErrors::new();
                    inner.add("epsilon", "length");
                    errors.nest("budget", inner);
                    proof {
                        assert(errors@ =~= dp_budget_errors(*self));
                    }
                }
            },
            None => {},
        }
        proof {
            assert(errors@ =~= dp_budget_errors(*self));
        }
        errors
    }

    /// The strategy as the aggregator API describes it for a histogram.
    pub fn representation_histogram(&self) -> (r: Prio3Histogram)
        requires
            dp_representable(*self),
        ensures
            histogram_dp_epsilon(r) == dp_epsilon(*self),
            (r is NoDifferentialPrivacy) == (self.dp_strategy == DpStrategyKind::NoDifferentialPrivacy),
    {
        match &self.budget.epsilon {
            None => Prio3Histogram::NoDifferentialPrivacy,
            Some(epsilon) => Prio3Histogram::PureDpDiscreteLaplace(
                PureDpDiscreteLaplace { budget: PureDpBudget::from_epsilon(epsilon) },
            ),
        }
    }

    /// The strategy as the aggregator API describes it for a sum vector.
    pub fn representation_sumvec(&self) -> (r: Prio3SumVec)
        requires
            dp_representable(*self),
        ensures
            sum_vec_dp_epsilon(r) == dp_epsilon(*self),
            (r is NoDifferentialPrivacy) == (self.dp_strategy == DpStrategyKind::NoDifferentialPrivacy),
    {
        match &self.budget.epsilon {
            None => Prio3SumVec::NoDifferentialPrivacy,
            Some(epsilon) => Prio3SumVec::PureDpDiscreteLaplace(
                PureDpDiscreteLaplace { budget: PureDpBudget::from_epsilon(epsilon) },
            ),
        }
    }

    /// The strategy that an aggregator's histogram strategy stands for.
    pub fn from_histogram(p: Prio3Histogram) -> (r: DpStrategy)
        ensures
            dp_epsilon(r) == histogram_dp_epsilon(p),
            (r.dp_strategy == DpStrategyKind::NoDifferentialPrivacy) == (p is NoDifferentialPrivacy),
            dp_representable(r),
    {
        match p {
            Prio3Histogram::NoDifferentialPrivacy => DpStrategy::default(),
            Prio3Histogram::PureDpDiscreteLaplace(l) => DpStrategy {
                dp_strategy: DpStrategyKind::PureDpDiscreteLaplace,
                budget: DpBudget { epsilon: Some(l.budget.epsilon_vec()) },
            },
        }
    }

    /// The strategy that an aggregator's sum-vector strategy stands for.
    pub fn from_sum_vec(p: Prio3SumVec) -> (r: DpStrategy)
        ensures
            dp_epsilon(r) == sum_vec_dp_epsilon(p),
            (r.dp_strategy == DpStrategyKind::NoDifferentialPrivacy) == (p is NoDifferentialPrivacy),
            dp_representable(r),
    {
        match p {
            Prio3SumVec::NoDifferentialPrivacy => DpStrategy::default(),
            Prio3SumVec::PureDpDiscreteLaplace(l) => DpStrategy {
                dp_strategy: DpStrategyKind::PureDpDiscreteLaplace,
                budget: DpBudget { epsilon: Some(l.budget.epsilon_vec()) },
            },
        }
    }
}

/// Whether every bucket boundary is at least the one before it.
pub open spec fn nondecreasing(b: Seq<u64>) -> bool {
    forall|i: int, j: int| 0 <= i <= j < b.len() ==> b[i] <= b[j]
}

/// The rule that bucket boundaries do not decrease.
pub fn increasing(buckets: &[u64]) -> (r: Result<(), &'static str>)
    ensures
        match r {
            Ok(()) => nondecreasing(buckets@),
            Err(code) => !nondecreasing(buckets@) && code@ == "sorted"@,
        },
{
    let n = buckets.len();
    if n == 0 {
        return Ok(());
    }
    let mut last = buckets[0];
    let mut i: usize = 1;
    while i < n
        invariant
            n == buckets@.len(),
            1 <= i <= n,
            last == buckets@[i - 1],
            forall|a: int, b: int| 0 <= a <= b < i ==> buckets@[a] <= buckets@[b],
        decreases n - i,
    {
        if buckets[i] >= last {
            last = buckets[i];
        } else {
            return Err("sorted");
        }
        i = i + 1;
    }
    Ok(())
}

/// The rule that no bucket occurs twice.
pub fn unique<T: crate::item_set::SetItem>(buckets: &[T]) -> (r: Result<(), &'static str>)
    ensures
        match r {
            Ok(()) => views_unique(buckets@),
            Err(code) => !views_unique(buckets@) && code@ == "unique"@,
        },
{
    if all_unique(buckets) {
        Ok(())
    } else {
        Err("unique")
    }
}

/// A histogram whose buckets are given by their count alone.
#[derive(Debug)]
pub struct BucketLength {
    pub length: u64,
    pub chunk_length: Option<u64>,
    pub dp_strategy: DpStrategy,
}

/// A histogram over named categories.
#[derive(Debug)]
pub struct CategoricalBuckets {
    pub buckets: Option<Vec<String>>,
    pub chunk_length: Option<u64>,
    pub dp_strategy: DpStrategy,
}

/// A histogram over ranges of integers, given by their boundaries.
#[derive(Debug)]
pub struct ContinuousBuckets {
    pub buckets: Option<Vec<u64>>,
    pub chunk_length: Option<u64>,
    pub dp_strategy: DpStrategy,
}

/// The three ways to describe a histogram.
#[derive(Debug)]
pub enum Histogram {
    Opaque(BucketLength),
    Categorical(CategoricalBuckets),
    Continuous(ContinuousBuckets),
}

/// The number of buckets of a histogram; a continuous histogram has one
/// more bucket than boundaries, and one without buckets has none.
pub open spec fn histogram_length(h: Histogram) -> int {
    match h {
        Histogram::Categorical(c) => match c.buckets {
            Some(b) => b@.len() as int,
            None => 0,
        },
        Histogram::Continuous(c) => match c.buckets {
            Some(b) => b@.len() as int + 1,
            None => 0,
        },
        Histogram::Opaque(o) => o.length as int,
    }
}

/// The chunk length of a histogram.
pub open spec fn histogram_chunk_length(h: Histogram) -> Option<u64> {
    match h {
        Histogram::Categorical(c) => c.chunk_length,
        Histogram::Continuous(c) => c.chunk_length,
        Histogram::Opaque(o) => o.chunk_length,
    }
}

/// The differential privacy strategy of a histogram.
pub open spec fn histogram_dp(h: Histogram) -> DpStrategy {
    match h {
        Histogram::Categorical(c) => c.dp_strategy,
        Histogram::Continuous(c) => c.dp_strategy,
        Histogram::Opaque(o) => o.dp_strategy,
    }
}

impl Histogram {
    /// The number of buckets.
    pub fn length(&self) -> (r: u64)
        requires
            histogram_length(*self) <= u64::MAX,
        ensures
            r == histogram_length(*self),
            self matches Histogram::Continuous(c) ==> (c.buckets matches Some(b) ==> r == b@.len() + 1),
            self matches Histogram::Categorical(c) ==> (c.buckets matches Some(b) ==> r == b@.len()),
            self matches Histogram::Opaque(o) ==> r == o.length,
    {
        match self {
            Histogram::Categorical(c) => match &c.buckets {
                Some(b) => b.len() as u64,
                None => 0,
            },
            Histogram::Continuous(c) => match &c.buckets {
                Some(b) => b.len() as u64 + 1,
                None => 0,
            },
            Histogram::Opaque(o) => o.length,
        }
    }

    /// The chunk length, if it is set.
    pub fn chunk_length(&self) -> (r: Option<u64>)
        ensures
            r == histogram_chunk_length(*self),
    {
        match self {
            Histogram::Categorical(c) => c.chunk_length,
            Histogram::Continuous(c) => c.chunk_length,
            Histogram::Opaque(o) => o.chunk_length,
        }
    }

    /// The differential privacy strategy.
    pub fn dp_strategy(&self) -> (r: &DpStrategy)
        ensures
            *r == histogram_dp(*self),
    {
        match self {
            Histogram::Categorical(c) => &c.dp_strategy,
            Histogram::Continuous(c) => &c.dp_strategy,
            Histogram::Opaque(o) => &o.dp_strategy,
        }
    }

    /// The histogram as the aggregator API describes it: by its number of
    /// buckets, its chunk length and its strategy.
    pub fn representation_for_protocol(&self, _protocol: &Protocol) -> (r: Result<
        AggregatorVdaf,
        ValidationErrors,
    >)
        requires
            histogram_chunk_length(*self).is_some(),
            histogram_length(*self) <= u64::MAX,
            dp_representable(histogram_dp(*self)),
        ensures
            histogram_representation(*self, r),
    {
        let chunk_length = self.chunk_length();
        match chunk_length {
            Some(c) => Ok(
                AggregatorVdaf::Prio3Histogram(
                    HistogramType::Opaque {
                        length: self.length(),
                        chunk_length: Some(c),
                        dp_strategy: self.dp_strategy().representation_histogram(),
                    },
                ),
            ),
            None => Err(ValidationErrors::new()),
        }
    }
}

/// What describing a histogram to an aggregator gives.
pub open spec fn histogram_representation(
    h: Histogram,
    r: Result<AggregatorVdaf, ValidationErrors>,
) -> bool {
    match r {
        Ok(AggregatorVdaf::Prio3Histogram(HistogramType::Opaque { length, chunk_length, dp_strategy })) =>
            length == histogram_length(h) && chunk_length == histogram_chunk_length(h)
                && histogram_dp_epsilon(dp_strategy) == dp_epsilon(histogram_dp(h)),
        _ => false,
    }
}

/// A sum of integers of `bits` bits.
#[derive(Debug, Clone, Copy, PartialEq, Eq, Structural)]
pub struct Sum {
    pub bits: Option<u8>,
}

/// A vector of counts.
#[derive(Debug, Clone, Copy, PartialEq, Eq, Structural)]
pub struct CountVec {
    pub length: Option<u64>,
    pub chunk_length: Option<u64>,
}

/// A vector of sums.
#[derive(Debug)]
pub struct SumVec {
    pub bits: Option<u8>,
    pub length: Option<u64>,
    pub chunk_length: Option<u64>,
    pub dp_strategy: DpStrategy,
}

/// The VDAF of a task as its owner describes it.
#[derive(Debug)]
pub enum Vdaf {
    Count,
    Histogram(Histogram),
    Sum(Sum),
    CountVec(CountVec),
    SumVec(SumVec),
    Unrecognized,
}

/// The name of a task's VDAF. A count vector goes by the name of a count.
pub open spec fn vdaf_name_of(v: Vdaf) -> (u8, Seq<char>) {
    match v {
        Vdaf::Count => (0, Seq::empty()),
        Vdaf::Histogram(_) => (2, Seq::empty()),
        Vdaf::Sum(_) => (1, Seq::empty()),
        Vdaf::CountVec(_) => (0, Seq::empty()),
        Vdaf::SumVec(_) => (4, Seq::empty()),
        Vdaf::Unrecognized => (6, "unsupported"@),
    }
}

/// A VDAF that can be described to an aggregator without failing: a
/// histogram must have its chunk length set and a consistent strategy, and
/// a complete sum vector a consistent strategy.
pub open spec fn representation_defined(v: Vdaf) -> bool {
    match v {
        Vdaf::Histogram(h) => histogram_chunk_length(h).is_some() && histogram_length(h) <= u64::MAX
            && dp_representable(histogram_dp(h)),
        Vdaf::SumVec(sv) => (sv.length.is_some() && sv.bits.is_some()) ==> dp_representable(
            sv.dp_strategy,
        ),
        _ => true,
    }
}

/// What describing a VDAF to an aggregator gives: the description for a
/// complete VDAF, and an empty error for one that misses a parameter or is
/// not recognized.
pub open spec fn vdaf_representation(v: Vdaf, r: Result<AggregatorVdaf, ValidationErrors>) -> bool {
    match v {
        Vdaf::Histogram(h) => histogram_representation(h, r),
        Vdaf::Count => r matches Ok(AggregatorVdaf::Prio3Count),
        Vdaf::Sum(Sum { bits: Some(b) }) => r matches Ok(AggregatorVdaf::Prio3Sum { bits }) && bits
            == b,
        Vdaf::SumVec(sv) => match (sv.length, sv.bits) {
            (Some(l), Some(b)) => match r {
                Ok(AggregatorVdaf::Prio3SumVec { bits, length, chunk_length, dp_strategy }) => bits
                    == b && length == l && chunk_length == sv.chunk_length && sum_vec_dp_epsilon(
                    dp_strategy,
                ) == dp_epsilon(sv.dp_strategy),
                _ => false,
            },
            _ => r matches Err(e) && e@.len() == 0,
        },
        Vdaf::CountVec(CountVec { length: Some(l), chunk_length: c }) => r matches Ok(
            AggregatorVdaf::Prio3CountVec { length, chunk_length },
        ) && length == l && chunk_length == c,
        _ => r matches Err(e) && e@.len() == 0,
    }
}

/// The VDAF that an aggregator's description stands for.
pub open spec fn vdaf_converted_from(av: AggregatorVdaf, v: Vdaf) -> bool {
    match av {
        AggregatorVdaf::Prio3Count => v is Count,
        AggregatorVdaf::Prio3Sum { bits } => v == Vdaf::Sum(Sum { bits: Some(bits) }),
        AggregatorVdaf::Prio3Histogram(HistogramType::Buckets { buckets, chunk_length, dp_strategy }) =>
            match v {
            Vdaf::Histogram(Histogram::Continuous(c)) => match c.buckets {
                Some(b) => b@ == buckets@ && c.chunk_length == chunk_length && dp_epsilon(
                    c.dp_strategy,
                ) == histogram_dp_epsilon(dp_strategy) && dp_representable(c.dp_strategy),
                None => false,
            },
            _ => false,
        },
        AggregatorVdaf::Prio3Histogram(HistogramType::Opaque { length, chunk_length, dp_strategy }) =>
            match v {
            Vdaf::Histogram(Histogram::Opaque(o)) => o.length == length && o.chunk_length
                == chunk_length && dp_epsilon(o.dp_strategy) == histogram_dp_epsilon(dp_strategy)
                && dp_representable(o.dp_strategy),
            _ => false,
        },
        AggregatorVdaf::Prio3CountVec { length, chunk_length } => v == Vdaf::CountVec(
            CountVec { length: Some(length), chunk_length },
        ),
        AggregatorVdaf::Prio3SumVec { bits, length, chunk_length, dp_strategy } => match v {
            Vdaf::SumVec(sv) => sv.bits == Some(bits) && sv.length == Some(length) && sv.chunk_length
                == chunk_length && dp_epsilon(sv.dp_strategy) == sum_vec_dp_epsilon(dp_strategy)
                && dp_representable(sv.dp_strategy),
            _ => false,
        },
    }
}

impl Vdaf {
    /// The name of the VDAF.
    pub fn name(&self) -> (r: VdafName)
        ensures
            r@ == vdaf_name_of(*self),
            self is Count ==> r is Prio3Count,
            self is CountVec ==> r is Prio3Count,
            self is Sum ==> r is Prio3Sum,
            self is SumVec ==> r is Prio3SumVec,
            self is Histogram ==> r is Prio3Histogram,
            self is Unrecognized ==> (r matches VdafName::Other(s) && s@ == "unsupported"@),
    {
        match self {
            Vdaf::Count => VdafName::Prio3Count,
            Vdaf::Histogram(_) => VdafName::Prio3Histogram,
            Vdaf::Sum(_) => VdafName::Prio3Sum,
            Vdaf::CountVec(_) => VdafName::Prio3Count,
            Vdaf::SumVec(_) => VdafName::Prio3SumVec,
            Vdaf::Unrecognized => VdafName::Other(crate::strings::owned("unsupported")),
        }
    }

    /// The VDAF as the aggregator API describes it.
    pub fn representation_for_protocol(&self, protocol: &Protocol) -> (r: Result<
        AggregatorVdaf,
        ValidationErrors,
    >)
        requires
            representation_defined(*self),
        ensures
            vdaf_representation(*self, r),
    {
        match self {
            Vdaf::Histogram(histogram) => histogram.representation_for_protocol(protocol),
            Vdaf::Count => Ok(AggregatorVdaf::Prio3Count),
            Vdaf::Sum(Sum { bits: Some(bits) }) => Ok(AggregatorVdaf::Prio3Sum { bits: *bits }),
            Vdaf::SumVec(SumVec { length: Some(length), bits: Some(bits), chunk_length, dp_strategy }) =>
                Ok(
                AggregatorVdaf::Prio3SumVec {
                    bits: *bits,
                    length: *length,
                    chunk_length: *chunk_length,
                    dp_strategy: dp_strategy.representation_sumvec(),
                },
            ),
            Vdaf::CountVec(CountVec { length: Some(length), chunk_length }) => Ok(
                AggregatorVdaf::Prio3CountVec { length: *length, chunk_length: *chunk_length },
            ),
            _ => Err(ValidationErrors::new()),
        }
    }

    /// The VDAF that an aggregator's description stands for. A histogram
    /// described by its buckets becomes a continuous histogram.
    pub fn from(value: AggregatorVdaf) -> (r: Vdaf)
        ensures
            vdaf_converted_from(value, r),
    {
        match value {
            AggregatorVdaf::Prio3Count => Vdaf::Count,
            AggregatorVdaf::Prio3Sum { bits } => Vdaf::Sum(Sum { bits: Some(bits) }),
            AggregatorVdaf::Prio3Histogram(HistogramType::Buckets { buckets, chunk_length, dp_strategy }) => {
                let dp_strategy = DpStrategy::from_histogram(dp_strategy);
                Vdaf::Histogram(
                    Histogram::Continuous(
                        ContinuousBuckets { buckets: Some(buckets), chunk_length, dp_strategy },
                    ),
                )
            },
            AggregatorVdaf::Prio3Histogram(HistogramType::Opaque { length, chunk_length, dp_strategy }) => {
                let dp_strategy = DpStrategy::from_histogram(dp_strategy);
                Vdaf::Histogram(Histogram::Opaque(BucketLength { length, chunk_length, dp_strategy }))
            },
            AggregatorVdaf::Prio3CountVec { length, chunk_length } => Vdaf::CountVec(
                CountVec { length: Some(length), chunk_length },
            ),
            AggregatorVdaf::Prio3SumVec { bits, length, chunk_length, dp_strategy } => {
                let dp_strategy = DpStrategy::from_sum_vec(dp_strategy);
                Vdaf::SumVec(
                    SumVec { length: Some(length), bits: Some(bits), chunk_length, dp_strategy },
                )
            },
        }
    }
}

/// What an aggregator describes is what a task's VDAF, made from that
/// description, describes back to the aggregator — for every description but
/// a histogram given by its buckets (which comes back by its number of
/// buckets) and a histogram without a chunk length (which cannot be
/// described back).
pub proof fn lemma_vdaf_description_roundtrip(
    av: AggregatorVdaf,
    v: Vdaf,
    r: Result<AggregatorVdaf, ValidationErrors>,
)
    requires
        !(av matches AggregatorVdaf::Prio3Histogram(HistogramType::Buckets { .. })),
        av matches AggregatorVdaf::Prio3Histogram(HistogramType::Opaque { chunk_length, .. })
            ==> chunk_length.is_some(),
        vdaf_converted_from(av, v),
    ensures
        representation_defined(v),
        vdaf_representation(v, r) ==> (r matches Ok(back) && same_aggregator_vdaf(back, av)),
{
}

/// Whether two strategies are the same: of one kind, with one epsilon.
pub open spec fn same_dp(a: DpStrategy, b: DpStrategy) -> bool {
    a.dp_strategy == b.dp_strategy && dp_epsilon(a) == dp_epsilon(b)
}

/// Whether `w` is the VDAF `v` back from its description: the same VDAF,
/// but a histogram comes back by its number of buckets, whichever way it
/// was given.
pub open spec fn vdaf_comes_back(v: Vdaf, w: Vdaf) -> bool {
    match v {
        Vdaf::Histogram(h) => w matches Vdaf::Histogram(Histogram::Opaque(o)) && o.length
            == histogram_length(h) && o.chunk_length == histogram_chunk_length(h) && same_dp(
            o.dp_strategy,
            histogram_dp(h),
        ),
        Vdaf::SumVec(sv) => w matches Vdaf::SumVec(x) && x.bits == sv.bits && x.length == sv.length
            && x.chunk_length == sv.chunk_length && same_dp(x.dp_strategy, sv.dp_strategy),
        _ => w == v,
    }
}

/// A task's VDAF that can be described to an aggregator is described, and
/// comes back from that description as it was — but a histogram given by its
/// categories or bucket boundaries, which comes back by its number of
/// buckets.
pub proof fn lemma_vdaf_from_description(v: Vdaf, r: Result<AggregatorVdaf, ValidationErrors>)
    requires
        crate::new_task::describable(v),
        representation_defined(v),
        vdaf_representation(v, r),
    ensures
        r matches Ok(av) && forall|w: Vdaf| #[trigger] vdaf_converted_from(av, w) ==> vdaf_comes_back(v, w),
{
}

/// A histogram has one bucket per category, and one more bucket than
/// boundaries: the boundaries split the integers into that many ranges. That
/// is the length described to the aggregators, and the measurement length
/// from which a missing chunk length is chosen.
pub proof fn lemma_histogram_bucket_count(h: Histogram, r: Result<AggregatorVdaf, ValidationErrors>)
    ensures
        h matches Histogram::Continuous(c) ==> c.buckets matches Some(b) ==> {
            &&& histogram_representation(h, r) ==> (r matches Ok(
                AggregatorVdaf::Prio3Histogram(HistogramType::Opaque { length, .. }),
            ) && length == b@.len() + 1)
            &&& c.chunk_length is None ==> chunk_measurement_length(Vdaf::Histogram(h)) == Some(
                b@.len() + 1int,
            )
        },
        h matches Histogram::Categorical(c) ==> c.buckets matches Some(b) ==> {
            &&& histogram_representation(h, r) ==> (r matches Ok(
                AggregatorVdaf::Prio3Histogram(HistogramType::Opaque { length, .. }),
            ) && length == b@.len())
            &&& c.chunk_length is None ==> chunk_measurement_length(Vdaf::Histogram(h)) == Some(
                b@.len() as int,
            )
        },
{
}

/// The name that each VDAF goes by with the aggregators: a count and a count
/// vector are Prio3Count, a sum Prio3Sum, a sum vector Prio3SumVec, a
/// histogram Prio3Histogram, and a VDAF that is not recognized
/// `unsupported`. Each name reads back as the same name.
pub proof fn lemma_vdaf_names(v: Vdaf)
    ensures
        vdaf_name_text(vdaf_name_of(v)) == match v {
            Vdaf::Count => "Prio3Count"@,
            Vdaf::CountVec(_) => "Prio3Count"@,
            Vdaf::Sum(_) => "Prio3Sum"@,
            Vdaf::SumVec(_) => "Prio3SumVec"@,
            Vdaf::Histogram(_) => "Prio3Histogram"@,
            Vdaf::Unrecognized => "unsupported"@,
        },
        !(v is Unrecognized) ==> vdaf_name_parse(vdaf_name_text(vdaf_name_of(v))) == vdaf_name_of(
            v,
        ),
{
    reveal_strlit("Prio3Count");
    reveal_strlit("Prio3Sum");
    reveal_strlit("Prio3Histogram");
    reveal_strlit("Prio3CountVec");
    reveal_strlit("Prio3SumVec");
    assert("Prio3Count"@.len() == 10);
    assert("Prio3Sum"@.len() == 8);
    assert("Prio3Histogram"@.len() == 14);
    assert("Prio3CountVec"@.len() == 13);
    assert("Prio3SumVec"@.len() == 11);
}

/// What `prio::vdaf::prio3::optimal_chunk_length` returns for a measurement
/// length.
pub uninterp spec fn spec_optimal_chunk_length(measurement_length: usize) -> usize;

/// Calls `prio::vdaf::prio3::optimal_chunk_length`. Its result is named by
/// `spec_optimal_chunk_length`; of it this states what the function's source
/// shows plainly: one for a length of at most one, and otherwise a chunk
/// length between one and the measurement length. Lengths above
/// `(usize::MAX - 2) / 2` are left out: there the proof length that the
/// function computes for a chunk length of the whole measurement,
/// `2 * measurement_length + 2`, overflows.
#[verifier::external_body]
fn optimal_chunk_length(measurement_length: usize) -> (r: usize)
    requires
        measurement_length <= (usize::MAX - 2) / 2,
    ensures
        r == spec_optimal_chunk_length(measurement_length),
        measurement_length <= 1 ==> r == 1,
        1 <= r,
        measurement_length >= 1 ==> r <= measurement_length,
{
    prio::vdaf::prio3::optimal_chunk_length(measurement_length)
}

/// The measurement length from which a VDAF's missing chunk length is
/// chosen: the number of buckets of a histogram, the length of a count
/// vector, the product of bits and length of a sum vector. None where the
/// chunk length is set already, does not apply, or a parameter is missing.
pub open spec fn chunk_measurement_length(v: Vdaf) -> Option<int> {
    match v {
        Vdaf::Histogram(h) => if histogram_chunk_length(h).is_none() {
            Some(histogram_length(h))
        } else {
            None
        },
        Vdaf::CountVec(CountVec { length: Some(l), chunk_length: None }) => Some(l as int),
        Vdaf::SumVec(sv) => match (sv.bits, sv.length, sv.chunk_length) {
            (Some(b), Some(l), None) => Some(b * l),
            _ => None,
        },
        _ => None,
    }
}

/// A measurement length that the chunk length choice can take.
pub open spec fn chunk_input_fits(v: Vdaf) -> bool {
    chunk_measurement_length(v) matches Some(m) ==> m <= (usize::MAX - 2) / 2
}

/// The VDAF with its chunk length set to `c`, where a chunk length applies.
pub open spec fn vdaf_with_chunk_length(v: Vdaf, c: u64) -> Vdaf {
    match v {
        Vdaf::Histogram(Histogram::Opaque(o)) => Vdaf::Histogram(
            Histogram::Opaque(
                BucketLength { length: o.length, chunk_length: Some(c), dp_strategy: o.dp_strategy },
            ),
        ),
        Vdaf::Histogram(Histogram::Categorical(b)) => Vdaf::Histogram(
            Histogram::Categorical(
                CategoricalBuckets {
                    buckets: b.buckets,
                    chunk_length: Some(c),
                    dp_strategy: b.dp_strategy,
                },
            ),
        ),
        Vdaf::Histogram(Histogram::Continuous(b)) => Vdaf::Histogram(
            Histogram::Continuous(
                ContinuousBuckets {
                    buckets: b.buckets,
                    chunk_length: Some(c),
                    dp_strategy: b.dp_strategy,
                },
            ),
        ),
        Vdaf::CountVec(cv) => Vdaf::CountVec(CountVec { length: cv.length, chunk_length: Some(c) }),
        Vdaf::SumVec(sv) => Vdaf::SumVec(
            SumVec {
                bits: sv.bits,
                length: sv.length,
                chunk_length: Some(c),
                dp_strategy: sv.dp_strategy,
            },
        ),
        _ => v,
    }
}

impl Vdaf {
    /// The measurement length from which a missing chunk length is chosen.
    pub fn chunk_measurement_length(&self) -> (r: Option<usize>)
        requires
            chunk_input_fits(*self),
            histogram_length_fits(*self),
        ensures
            r.is_some() == chunk_measurement_length(*self).is_some(),
            r matches Some(m) ==> chunk_measurement_length(*self).unwrap() == m as int,
    {
        match self {
            Vdaf::Histogram(h) => {
                if h.chunk_length().is_none() {
                    let len = h.length();
                    assert(chunk_measurement_length(*self) == Some(histogram_length(*h)));
                    assert(len as int <= (usize::MAX - 2) / 2);
                    let m = len as usize;
                    assert(m as int == len as int);
                    assert(len as int == histogram_length(*h));
                    assert(chunk_measurement_length(*self).unwrap() == m as int);
                    Some(m)
                } else {
                    None
                }
            },
            Vdaf::CountVec(CountVec { length: Some(l), chunk_length: None }) => Some(*l as usize),
            Vdaf::SumVec(SumVec { bits: Some(b), length: Some(l), chunk_length: None, .. }) => {
                if *b == 0 {
                    assert(*b as int * *l as int == 0) by (nonlinear_arith)
                        requires
                            *b == 0,
                    ;
                    Some(0)
                } else {
                    proof {
                        assert(*l as int <= *b as int * *l as int) by (nonlinear_arith)
                            requires
                                *b as int >= 1,
                                *l as int >= 0,
                        ;
                    }
                    let m = (*b as usize) * (*l as usize);
                    assert(m as int == *b as int * *l as int);
                    Some(m)
                }
            },
            _ => None,
        }
    }

    /// Sets the chunk length to `chunk_length` where one applies, is unset,
    /// and its parameters are present.
    pub fn apply_chunk_length(&mut self, chunk_length: u64)
        ensures
            chunk_measurement_length(*old(self)).is_some() ==> *final(self) == vdaf_with_chunk_length(
                *old(self),
                chunk_length,
            ),
            chunk_measurement_length(*old(self)).is_none() ==> *final(self) == *old(self),
    {
        match self {
            Vdaf::Histogram(Histogram::Opaque(o)) => {
                if o.chunk_length.is_none() {
                    o.chunk_length = Some(chunk_length);
                }
            },
            Vdaf::Histogram(Histogram::Categorical(b)) => {
                if b.chunk_length.is_none() {
                    b.chunk_length = Some(chunk_length);
                }
            },
            Vdaf::Histogram(Histogram::Continuous(b)) => {
                if b.chunk_length.is_none() {
                    b.chunk_length = Some(chunk_length);
                }
            },
            Vdaf::CountVec(cv) => {
                if cv.length.is_some() && cv.chunk_length.is_none() {
                    cv.chunk_length = Some(chunk_length);
                }
            },
            Vdaf::SumVec(sv) => {
                if sv.bits.is_some() && sv.length.is_some() && sv.chunk_length.is_none() {
                    sv.chunk_length = Some(chunk_length);
                }
            },
            _ => {},
        }
    }

    /// Chooses a chunk length for a histogram, count vector or sum vector
    /// that has none yet; a set chunk length stays as it is.
    pub fn populate_chunk_length(&mut self, _protocol: &Protocol)
        requires
            chunk_input_fits(*old(self)),
            histogram_length_fits(*old(self)),
        ensures
            match chunk_measurement_length(*old(self)) {
                Some(m) => *final(self) == vdaf_with_chunk_length(
                    *old(self),
                    spec_optimal_chunk_length(m as usize) as u64,
                ),
                None => *final(self) == *old(self),
            },
    {
        match self.chunk_measurement_length() {
            Some(m) => {
                let c = optimal_chunk_length(m);
                self.apply_chunk_length(c as u64);
            },
            None => {},
        }
    }
}

/// A histogram's number of buckets fits in 64 bits.
pub open spec fn histogram_length_fits(v: Vdaf) -> bool {
    v matches Vdaf::Histogram(h) ==> histogram_length(h) <= u64::MAX
}

/// After a chunk length has been chosen, a histogram has one, whatever it
/// held before; and choosing again changes nothing.
pub proof fn lemma_populated_histogram_has_chunk_length(v: Vdaf, c: u64)
    requires
        v is Histogram,
    ensures
        vdaf_with_chunk_length(v, c) matches Vdaf::Histogram(h) && histogram_chunk_length(h) == Some(c),
        chunk_measurement_length(vdaf_with_chunk_length(v, c)).is_none(),
{
}

/// The errors of an optional chunk length, which must be at least one.
pub open spec fn chunk_length_errors(c: Option<u64>) -> Seq<(Seq<Seq<char>>, Seq<char>)> {
    error_if(c == Some(0u64), "chunk_length"@, "range"@)
}

/// The errors of a continuous histogram: its boundaries are required, at
/// least one, non-decreasing and unique.
pub open spec fn continuous_buckets_errors(c: ContinuousBuckets) -> Seq<
    (Seq<Seq<char>>, Seq<char>),
> {
    (match c.buckets {
        None => seq![field_error("buckets"@, "required"@)],
        Some(b) => error_if(b@.len() < 1, "buckets"@, "length"@) + error_if(
            !nondecreasing(b@),
            "buckets"@,
            "sorted"@,
        ) + error_if(!views_unique(b@), "buckets"@, "unique"@),
    }) + chunk_length_errors(c.chunk_length) + dp_field_errors(c.dp_strategy)
}

/// The errors of a categorical histogram: its categories are required, at
/// least one, and unique.
pub open spec fn categorical_buckets_errors(c: CategoricalBuckets) -> Seq<
    (Seq<Seq<char>>, Seq<char>),
> {
    (match c.buckets {
        None => seq![field_error("buckets"@, "required"@)],
        Some(b) => error_if(b@.len() < 1, "buckets"@, "length"@) + error_if(
            !views_unique(b@),
            "buckets"@,
            "unique"@,
        ),
    }) + chunk_length_errors(c.chunk_length) + dp_field_errors(c.dp_strategy)
}

/// The errors of a histogram given by its number of buckets, which must be at
/// least one.
pub open spec fn bucket_length_errors(o: BucketLength) -> Seq<(Seq<Seq<char>>, Seq<char>)> {
    error_if(o.length < 1, "length"@, "range"@) + chunk_length_errors(o.chunk_length)
        + dp_field_errors(o.dp_strategy)
}

/// The errors of a sum: its bits are required.
pub open spec fn sum_errors(s: Sum) -> Seq<(Seq<Seq<char>>, Seq<char>)> {
    error_if(s.bits.is_none(), "bits"@, "required"@)
}

/// The errors of a count vector: its length is required.
pub open spec fn count_vec_errors(c: CountVec) -> Seq<(Seq<Seq<char>>, Seq<char>)> {
    error_if(c.length.is_none(), "length"@, "required"@) + chunk_length_errors(c.chunk_length)
}

/// The errors of a sum vector: its bits and length are required.
pub open spec fn sum_vec_errors(s: SumVec) -> Seq<(Seq<Seq<char>>, Seq<char>)> {
    error_if(s.bits.is_none(), "bits"@, "required"@) + error_if(
        s.length.is_none(),
        "length"@,
        "required"@,
    ) + chunk_length_errors(s.chunk_length) + dp_field_errors(s.dp_strategy)
}

/// The errors of a task's VDAF; one that is not recognized fails on its type.
pub open spec fn vdaf_errors(v: Vdaf) -> Seq<(Seq<Seq<char>>, Seq<char>)> {
    match v {
        Vdaf::Count => seq![],
        Vdaf::Histogram(Histogram::Continuous(c)) => continuous_buckets_errors(c),
        Vdaf::Histogram(Histogram::Categorical(c)) => categorical_buckets_errors(c),
        Vdaf::Histogram(Histogram::Opaque(o)) => bucket_length_errors(o),
        Vdaf::Sum(s) => sum_errors(s),
        Vdaf::SumVec(s) => sum_vec_errors(s),
        Vdaf::CountVec(c) => count_vec_errors(c),
        Vdaf::Unrecognized => seq![field_error("type"@, "unknown"@)],
    }
}

/// Records the errors of a chunk length.
fn check_chunk_length(errors: &mut ValidationErrors, c: Option<u64>)
    ensures
        final(errors)@ == old(errors)@ + chunk_length_errors(c),
{
    let zero = match c {
        Some(n) => n == 0,
        None => false,
    };
    add_if(errors, zero, "chunk_length", "range");
}

/// Records the errors of a strategy held in the field `dp_strategy`.
fn check_dp_field(errors: &mut ValidationErrors, d: &DpStrategy)
    ensures
        final(errors)@ == old(errors)@ + dp_field_errors(*d),
{
    let inner = d.validate();
    errors.nest("dp_strategy", inner);
    match validate_dp_strategy(d) {
        Ok(()) => {},
        Err(code) => {
            errors.add("dp_strategy", code);
        },
    }
    proof {
        assert(errors@ =~= old(errors)@ + dp_field_errors(*d));
    }
}


impl ContinuousBuckets {
    /// Checks the rules of a continuous histogram.
    pub fn validate(&self) -> (r: Result<(), ValidationErrors>)
        ensures
            validation_result(r, continuous_buckets_errors(*self)),
    {
        let mut errors = ValidationErrors::new();
        match &self.buckets {
            None => errors.add("buckets", "required"),
            Some(b) => {
                add_if(&mut errors, b.len() < 1, "buckets", "length");
                add_if(&mut errors, increasing(b.as_slice()).is_err(), "buckets", "sorted");
                add_if(&mut errors, unique(b.as_slice()).is_err(), "buckets", "unique");
            },
        }
        check_chunk_length(&mut errors, self.chunk_length);
        check_dp_field(&mut errors, &self.dp_strategy);
        proof {
            assert(errors@ =~= continuous_buckets_errors(*self));
        }
        finish(errors)
    }
}

impl CategoricalBuckets {
    /// Checks the rules of a categorical histogram.
    pub fn validate(&self) -> (r: Result<(), ValidationErrors>)
        ensures
            validation_result(r, categorical_buckets_errors(*self)),
    {
        let mut errors = ValidationErrors::new();
        match &self.buckets {
            None => errors.add("buckets", "required"),
            Some(b) => {
                add_if(&mut errors, b.len() < 1, "buckets", "length");
                add_if(&mut errors, unique(b.as_slice()).is_err(), "buckets", "unique");
            },
        }
        check_chunk_length(&mut errors, self.chunk_length);
        check_dp_field(&mut errors, &self.dp_strategy);
        proof {
            assert(errors@ =~= categorical_buckets_errors(*self));
        }
        finish(errors)
    }
}

impl BucketLength {
    /// Checks the rules of a histogram given by its number of buckets.
    pub fn validate(&self) -> (r: Result<(), ValidationErrors>)
        ensures
            validation_result(r, bucket_length_errors(*self)),
    {
        let mut errors = ValidationErrors::new();
        add_if(&mut errors, self.length < 1, "length", "range");
        check_chunk_length(&mut errors, self.chunk_length);
        check_dp_field(&mut errors, &self.dp_strategy);
        proof {
            assert(errors@ =~= bucket_length_errors(*self));
        }
        finish(errors)
    }
}

impl Sum {
    /// Checks the rules of a sum.
    pub fn validate(&self) -> (r: Result<(), ValidationErrors>)
        ensures
            validation_result(r, sum_errors(*self)),
    {
        let mut errors = ValidationErrors::new();
        add_if(&mut errors, self.bits.is_none(), "bits", "required");
        proof {
            assert(errors@ =~= sum_errors(*self));
        }
        finish(errors)
    }
}

impl CountVec {
    /// Checks the rules of a count vector.
    pub fn validate(&self) -> (r: Result<(), ValidationErrors>)
        ensures
            validation_result(r, count_vec_errors(*self)),
    {
        let mut errors = ValidationErrors::new();
        add_if(&mut errors, self.length.is_none(), "length", "required");
        check_chunk_length(&mut errors, self.chunk_length);
        proof {
            assert(errors@ =~= count_vec_errors(*self));
        }
        finish(errors)
    }
}

impl SumVec {
    /// Checks the rules of a sum vector.
    pub fn validate(&self) -> (r: Result<(), ValidationErrors>)
        ensures
            validation_result(r, sum_vec_errors(*self)),
    {
        let mut errors = ValidationErrors::new();
        add_if(&mut errors, self.bits.is_none(), "bits", "required");
        add_if(&mut errors, self.length.is_none(), "length", "required");
        check_chunk_length(&mut errors, self.chunk_length);
        check_dp_field(&mut errors, &self.dp_strategy);
        proof {
            assert(errors@ =~= sum_vec_errors(*self));
        }
        finish(errors)
    }
}

impl Vdaf {
    /// Checks the rules of a task's VDAF.
    pub fn validate(&self) -> (r: Result<(), ValidationErrors>)
        ensures
            validation_result(r, vdaf_errors(*self)),
    {
        match self {
            Vdaf::Count => {
                let e = ValidationErrors::new();
                finish(e)
            },
            Vdaf::Histogram(Histogram::Continuous(buckets)) => buckets.validate(),
            Vdaf::Histogram(Histogram::Categorical(buckets)) => buckets.validate(),
            Vdaf::Histogram(Histogram::Opaque(length)) => length.validate(),
            Vdaf::Sum(s) => s.validate(),
            Vdaf::SumVec(sv) => sv.validate(),
            Vdaf::CountVec(cv) => cv.validate(),
            Vdaf::Unrecognized => {
                let mut errors = ValidationErrors::new();
                errors.add("type", "unknown");
                finish(errors)
            },
        }
    }
}

} // verus!
