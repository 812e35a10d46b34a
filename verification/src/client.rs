//! Values of the first version of the aggregator API.
use vstd::prelude::*;

verus! {

/// The VDAFs of the first version of the aggregator API.
#[derive(Debug)]
pub enum VdafInstance {
    Prio3Count,
    Prio3Sum { bits: u8 },
    Prio3Histogram { buckets: Vec<i32> },
}

/// The role that a party plays in a DAP task.
#[derive(Debug, Clone, Copy, PartialEq, Eq, Structural)]
pub enum Role {
    Collector,
    Client,
    Leader,
    Helper,
}

impl Role {
    /// Whether the party leads the task.
    pub fn is_leader(&self) -> (r: bool)
        ensures
            r == (*self == Role::Leader),
    {
        match self {
            Role::Leader => true,
            _ => false,
        }
    }
}

/// An HPKE configuration, by its identifiers and public key.
#[derive(Debug)]
pub struct HpkeConfig {
    pub id: u8,
    pub kem_id: u8,
    pub kdf_id: u8,
    pub aead_id: u8,
    pub public_key: Vec<u8>,
}

/// How a task groups reports into batches, in the first version of the
/// aggregator API.
#[derive(Debug, Clone, Copy, PartialEq, Eq, Structural)]
pub enum QueryType {
    TimeInterval,
    FixedSize { max_batch_size: u64 },
}

impl QueryType {
    /// Fixed-size batches where a maximum batch size is given, time
    /// intervals where none is.
    pub fn from_max_batch_size(max_batch_size: Option<u64>) -> (r: QueryType)
        ensures
            r == (match max_batch_size {
                Some(m) => QueryType::FixedSize { max_batch_size: m },
                None => QueryType::TimeInterval,
            }),
    {
        match max_batch_size {
            Some(m) => QueryType::FixedSize { max_batch_size: m },
            None => QueryType::TimeInterval,
        }
    }

    /// The maximum batch size, for fixed-size batches.
    pub fn max_batch_size(self) -> (r: Option<u64>)
        ensures
            r == (match self {
                QueryType::FixedSize { max_batch_size } => Some(max_batch_size),
                QueryType::TimeInterval => None,
            }),
    {
        match self {
            QueryType::FixedSize { max_batch_size } => Some(max_batch_size),
            QueryType::TimeInterval => None,
        }
    }

    /// Fixed-size batches where a maximum batch size is given, as stored.
    pub fn from_stored_max_batch_size(max_batch_size: Option<i64>) -> (r: QueryType)
        requires
            max_batch_size matches Some(m) ==> m >= 0,
        ensures
            r == (match max_batch_size {
                Some(m) => QueryType::FixedSize { max_batch_size: m as u64 },
                None => QueryType::TimeInterval,
            }),
    {
        match max_batch_size {
            Some(m) => QueryType::FixedSize { max_batch_size: m as u64 },
            None => QueryType::TimeInterval,
        }
    }

    /// The maximum batch size, for fixed-size batches, as stored.
    pub fn stored_max_batch_size(self) -> (r: Option<i64>)
        requires
            self matches QueryType::FixedSize { max_batch_size } ==> max_batch_size <= i64::MAX,
        ensures
            r == (match self {
                QueryType::FixedSize { max_batch_size } => Some(max_batch_size as i64),
                QueryType::TimeInterval => None,
            }),
    {
        match self {
            QueryType::FixedSize { max_batch_size } => Some(max_batch_size as i64),
            QueryType::TimeInterval => None,
        }
    }
}

/// A page of task ids, with the token of the next page where there is one.
#[derive(Debug)]
pub struct TaskIds {
    pub task_ids: Vec<String>,
    pub pagination_token: Option<String>,
}

/// Counts of a task's reports and report aggregations.
#[derive(Debug, Clone, Copy, PartialEq, Eq, Structural)]
pub struct TaskMetrics {
    pub reports: u64,
    pub report_aggregations: u64,
}

} // verus!
