use crate::dp_strategies::{histogram_dp_epsilon, sum_vec_dp_epsilon, Prio3Histogram, Prio3SumVec};
use crate::vecs::{copy_u64s, u64s_eq};
use vstd::prelude::*;

verus! {

/// How a histogram VDAF is described to an aggregator.
#[derive(Debug)]
pub enum HistogramType {
    Opaque { length: u64, chunk_length: Option<u64>, dp_strategy: Prio3Histogram },
    Buckets { buckets: Vec<u64>, chunk_length: Option<u64>, dp_strategy: Prio3Histogram },
}

/// A VDAF as the aggregator API describes it.
#[derive(Debug)]
pub enum AggregatorVdaf {
    Prio3Count,
    Prio3Sum { bits: u8 },
    Prio3Histogram(HistogramType),
    Prio3CountVec { length: u64, chunk_length: Option<u64> },
    Prio3SumVec { bits: u8, length: u64, chunk_length: Option<u64>, dp_strategy: Prio3SumVec },
}

/// Two histogram descriptions with the same contents.
pub open spec fn same_histogram_type(a: HistogramType, b: HistogramType) -> bool {
    match (a, b) {
        (
            HistogramType::Opaque { length: l1, chunk_length: c1, dp_strategy: d1 },
            HistogramType::Opaque { length: l2, chunk_length: c2, dp_strategy: d2 },
        ) => l1 == l2 && c1 == c2 && histogram_dp_epsilon(d1) == histogram_dp_epsilon(d2),
        (
            HistogramType::Buckets { buckets: b1, chunk_length: c1, dp_strategy: d1 },
            HistogramType::Buckets { buckets: b2, chunk_length: c2, dp_strategy: d2 },
        ) => b1@ == b2@ && c1 == c2 && histogram_dp_epsilon(d1) == histogram_dp_epsilon(d2),
        _ => false,
    }
}

/// Two VDAF descriptions with the same contents.
pub open spec fn same_aggregator_vdaf(a: AggregatorVdaf, b: AggregatorVdaf) -> bool {
    match (a, b) {
        (AggregatorVdaf::Prio3Count, AggregatorVdaf::Prio3Count) => true,
        (AggregatorVdaf::Prio3Sum { bits: b1 }, AggregatorVdaf::Prio3Sum { bits: b2 }) => b1 == b2,
        (AggregatorVdaf::Prio3Histogram(h1), AggregatorVdaf::Prio3Histogram(h2)) => same_histogram_type(h1, h2),
        (
            AggregatorVdaf::Prio3CountVec { length: l1, chunk_length: c1 },
            AggregatorVdaf::Prio3CountVec { length: l2, chunk_length: c2 },
        ) => l1 == l2 && c1 == c2,
        (
            AggregatorVdaf::Prio3SumVec { bits: b1, length: l1, chunk_length: c1, dp_strategy: d1 },
            AggregatorVdaf::Prio3SumVec { bits: b2, length: l2, chunk_length: c2, dp_strategy: d2 },
        ) => b1 == b2 && l1 == l2 && c1 == c2 && sum_vec_dp_epsilon(d1) == sum_vec_dp_epsilon(d2),
        _ => false,
    }
}

impl HistogramType {
    /// Whether two descriptions have the same contents.
    pub fn same_as(&self, other: &HistogramType) -> (r: bool)
        ensures
            r == same_histogram_type(*self, *other),
    {
        match (self, other) {
            (
                HistogramType::Opaque { length: l1, chunk_length: c1, dp_strategy: d1 },
                HistogramType::Opaque { length: l2, chunk_length: c2, dp_strategy: d2 },
            ) => *l1 == *l2 && option_u64_eq(c1, c2) && d1.same_as(d2),
            (
                HistogramType::Buckets { buckets: b1, chunk_length: c1, dp_strategy: d1 },
                HistogramType::Buckets { buckets: b2, chunk_length: c2, dp_strategy: d2 },
            ) => u64s_eq(b1, b2) && option_u64_eq(c1, c2) && d1.same_as(d2),
            _ => false,
        }
    }

    /// A copy of the description.
    pub fn duplicate(&self) -> (r: HistogramType)
        ensures
            same_histogram_type(r, *self),
    {
        match self {
            HistogramType::Opaque { length, chunk_length, dp_strategy } => HistogramType::Opaque {
                length: *length,
                chunk_length: *chunk_length,
                dp_strategy: dp_strategy.duplicate(),
            },
            HistogramType::Buckets { buckets, chunk_length, dp_strategy } => HistogramType::Buckets {
                buckets: copy_u64s(buckets),
                chunk_length: *chunk_length,
                dp_strategy: dp_strategy.duplicate(),
            },
        }
    }
}

/// Whether two optional integers are equal.
pub fn option_u64_eq(a: &Option<u64>, b: &Option<u64>) -> (r: bool)
    ensures
        r == (*a == *b),
{
    match (a, b) {
        (Some(x), Some(y)) => *x == *y,
        (None, None) => true,
        _ => false,
    }
}

impl AggregatorVdaf {
    /// Whether two descriptions have the same contents.
    pub fn same_as(&self, other: &AggregatorVdaf) -> (r: bool)
        ensures
            r == same_aggregator_vdaf(*self, *other),
    {
        match (self, other) {
            (AggregatorVdaf::Prio3Count, AggregatorVdaf::Prio3Count) => true,
            (AggregatorVdaf::Prio3Sum { bits: b1 }, AggregatorVdaf::Prio3Sum { bits: b2 }) => *b1 == *b2,
            (AggregatorVdaf::Prio3Histogram(h1), AggregatorVdaf::Prio3Histogram(h2)) => h1.same_as(h2),
            (
                AggregatorVdaf::Prio3CountVec { length: l1, chunk_length: c1 },
                AggregatorVdaf::Prio3CountVec { length: l2, chunk_length: c2 },
            ) => *l1 == *l2 && option_u64_eq(c1, c2),
            (
                AggregatorVdaf::Prio3SumVec { bits: b1, length: l1, chunk_length: c1, dp_strategy: d1 },
                AggregatorVdaf::Prio3SumVec { bits: b2, length: l2, chunk_length: c2, dp_strategy: d2 },
            ) => *b1 == *b2 && *l1 == *l2 && option_u64_eq(c1, c2) && d1.same_as(d2),
            _ => false,
        }
    }

    /// A copy of the description.
    pub fn duplicate(&self) -> (r: AggregatorVdaf)
        ensures
            same_aggregator_vdaf(r, *self),
    {
        match self {
            AggregatorVdaf::Prio3Count => AggregatorVdaf::Prio3Count,
            AggregatorVdaf::Prio3Sum { bits } => AggregatorVdaf::Prio3Sum { bits: *bits },
            AggregatorVdaf::Prio3Histogram(h) => AggregatorVdaf::Prio3Histogram(h.duplicate()),
            AggregatorVdaf::Prio3CountVec { length, chunk_length } => AggregatorVdaf::Prio3CountVec {
                length: *length,
                chunk_length: *chunk_length,
            },
            AggregatorVdaf::Prio3SumVec { bits, length, chunk_length, dp_strategy } =>
                AggregatorVdaf::Prio3SumVec {
                bits: *bits,
                length: *length,
                chunk_length: *chunk_length,
                dp_strategy: dp_strategy.duplicate(),
            },
        }
    }
}

} // verus!
