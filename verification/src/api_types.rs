//! Values exchanged with an aggregator's task-provisioning API.
use crate::query_type_name::QueryTypeName;
use crate::strings::owned;
use vstd::prelude::*;

verus! {

/// How a task groups reports into batches: by time interval, or into
/// batches of a fixed size.
#[derive(Debug, Clone, Copy, PartialEq, Eq, Structural)]
pub enum QueryType {
    TimeInterval,
    FixedSize { max_batch_size: u64, batch_time_window_size: Option<u64> },
}

impl QueryType {
    /// The name of the query type.
    pub fn name(&self) -> (r: QueryTypeName)
        ensures
            r@ == (match self {
                QueryType::TimeInterval => (1u8, Seq::<char>::empty()),
                QueryType::FixedSize { .. } => (2u8, Seq::<char>::empty()),
            }),
    {
        match self {
            QueryType::TimeInterval => QueryTypeName::TimeInterval,
            QueryType::FixedSize { .. } => QueryTypeName::FixedSize,
        }
    }

    /// The query type of a task with the given maximum batch size: fixed
    /// size where there is one, time interval where there is none.
    pub fn from_max_batch_size(max_batch_size: Option<u64>) -> (r: QueryType)
        ensures
            r == (match max_batch_size {
                Some(m) => QueryType::FixedSize { max_batch_size: m, batch_time_window_size: None },
                None => QueryType::TimeInterval,
            }),
    {
        match max_batch_size {
            Some(m) => QueryType::FixedSize { max_batch_size: m, batch_time_window_size: None },
            None => QueryType::TimeInterval,
        }
    }
}

/// A token that authenticates to an aggregator; always a bearer token.
#[derive(Debug)]
pub enum AuthenticationToken {
    Bearer { token: String },
}

impl AuthenticationToken {
    /// A bearer token.
    pub fn new(token: String) -> (r: AuthenticationToken)
        ensures
            r == (AuthenticationToken::Bearer { token }),
    {
        AuthenticationToken::Bearer { token }
    }

    /// The token's value.
    pub fn token(self) -> (r: String)
        ensures
            self == (AuthenticationToken::Bearer { token: r }),
    {
        match self {
            AuthenticationToken::Bearer { token } => token,
        }
    }
}

/// The hash of a token that authenticates to an aggregator; always of a
/// bearer token.
#[derive(Debug)]
pub enum AuthenticationTokenHash {
    Bearer { hash: String },
}

impl AuthenticationTokenHash {
    /// The hash of a bearer token.
    pub fn new(hash: String) -> (r: AuthenticationTokenHash)
        ensures
            r == (AuthenticationTokenHash::Bearer { hash }),
    {
        AuthenticationTokenHash::Bearer { hash }
    }

    /// The hash's value.
    pub fn hash(self) -> (r: String)
        ensures
            self == (AuthenticationTokenHash::Bearer { hash: r }),
    {
        match self {
            AuthenticationTokenHash::Bearer { hash } => hash,
        }
    }

    /// The hash's value, borrowed.
    pub fn as_ref(&self) -> (r: &str)
        ensures
            self matches AuthenticationTokenHash::Bearer { hash } && r@ == hash@,
    {
        match self {
            AuthenticationTokenHash::Bearer { hash } => hash.as_str(),
        }
    }
}

/// A page of task ids, with the token of the next page where there is one.
#[derive(Debug)]
pub struct TaskIds {
    pub task_ids: Vec<String>,
    pub pagination_token: Option<String>,
}

impl TaskIds {
    /// A copy of the page.
    pub fn duplicate(&self) -> (r: TaskIds)
        ensures
            r.task_ids@.map_values(|s: String| s@) == self.task_ids@.map_values(|s: String| s@),
            match (r.pagination_token, self.pagination_token) {
                (Some(a), Some(b)) => a@ == b@,
                (None, None) => true,
                _ => false,
            },
    {
        let mut task_ids: Vec<String> = Vec::new();
        let mut i: usize = 0;
        while i < self.task_ids.len()
            invariant
                i <= self.task_ids@.len(),
                task_ids@.map_values(|s: String| s@) == self.task_ids@.take(i as int).map_values(
                    |s: String| s@,
                ),
            decreases self.task_ids@.len() - i,
        {
            let ghost before = task_ids@.map_values(|s: String| s@);
            let copy = owned(self.task_ids[i].as_str());
            task_ids.push(copy);
            proof {
                assert(copy@ == self.task_ids@[i as int]@);
                assert(task_ids@.map_values(|s: String| s@) =~= before.push(copy@));
                assert(self.task_ids@.take(i + 1) =~= self.task_ids@.take(i as int).push(
                    self.task_ids@[i as int],
                ));
                assert(task_ids@.map_values(|s: String| s@) =~= self.task_ids@.take(
                    i + 1,
                ).map_values(|s: String| s@));
            }
            i = i + 1;
        }
        proof {
            assert(self.task_ids@.take(self.task_ids@.len() as int) =~= self.task_ids@);
        }
        let pagination_token = match &self.pagination_token {
            Some(t) => Some(owned(t.as_str())),
            None => None,
        };
        TaskIds { task_ids, pagination_token }
    }
}

/// Counts of the reports that an aggregator received for a task, by outcome.
#[derive(Debug, Clone, Copy, PartialEq, Eq, Structural)]
pub struct TaskUploadMetrics {
    /// Reports that fell into a time interval that had already been collected.
    pub interval_collected: u64,
    /// Reports that could not be decoded.
    pub report_decode_failure: u64,
    /// Reports that could not be decrypted.
    pub report_decrypt_failure: u64,
    /// Reports that contained a timestamp too far in the past.
    pub report_expired: u64,
    /// Reports that were encrypted with an old or unknown HPKE key.
    pub report_outdated_key: u64,
    /// Reports that were successfully uploaded.
    pub report_success: u64,
    /// Reports that contain a timestamp too far in the future.
    pub report_too_early: u64,
    /// Reports that were submitted to the task after the task's expiry.
    pub task_expired: u64,
    /// Reports that were submitted with a duplicate extension.
    pub report_duplicate_extension: u64,
}

impl Default for TaskUploadMetrics {
    /// No report counted.
    fn default() -> (r: TaskUploadMetrics)
        ensures
            r == (TaskUploadMetrics {
                interval_collected: 0,
                report_decode_failure: 0,
                report_decrypt_failure: 0,
                report_expired: 0,
                report_outdated_key: 0,
                report_success: 0,
                report_too_early: 0,
                task_expired: 0,
                report_duplicate_extension: 0,
            }),
    {
        TaskUploadMetrics {
            interval_collected: 0,
            report_decode_failure: 0,
            report_decrypt_failure: 0,
            report_expired: 0,
            report_outdated_key: 0,
            report_success: 0,
            report_too_early: 0,
            task_expired: 0,
            report_duplicate_extension: 0,
        }
    }
}

/// Counts of the reports that the aggregation jobs of a task handled, by
/// outcome.
#[derive(Debug, Clone, Copy, PartialEq, Eq, Structural)]
pub struct TaskAggregationJobMetrics {
    /// Reports that were successfully aggregated.
    pub success: u64,
    /// Reports rejected by the helper due to the batch being collected.
    pub helper_batch_collected: u64,
    /// Reports rejected by the helper due to the report replay.
    pub helper_report_replayed: u64,
    /// Reports rejected by the helper due to the leader dropping the report.
    pub helper_report_dropped: u64,
    /// Reports rejected by the helper due to unknown HPKE config ID.
    pub helper_hpke_unknown_config_id: u64,
    /// Reports rejected by the helper due to HPKE decryption failure.
    pub helper_hpke_decrypt_failure: u64,
    /// Reports rejected by the helper due to VDAF preparation error.
    pub helper_vdaf_prep_error: u64,
    /// Reports rejected by the helper due to task expiration.
    pub helper_task_expired: u64,
    /// Reports rejected by the helper due to an invalid message.
    pub helper_invalid_message: u64,
    /// Reports rejected by the helper due to a report arriving too early.
    pub helper_report_too_early: u64,
}

impl Default for TaskAggregationJobMetrics {
    /// No report counted.
    fn default() -> (r: TaskAggregationJobMetrics)
        ensures
            r == (TaskAggregationJobMetrics {
                success: 0,
                helper_batch_collected: 0,
                helper_report_replayed: 0,
                helper_report_dropped: 0,
                helper_hpke_unknown_config_id: 0,
                helper_hpke_decrypt_failure: 0,
                helper_vdaf_prep_error: 0,
                helper_task_expired: 0,
                helper_invalid_message: 0,
                helper_report_too_early: 0,
            }),
    {
        TaskAggregationJobMetrics {
            success: 0,
            helper_batch_collected: 0,
            helper_report_replayed: 0,
            helper_report_dropped: 0,
            helper_hpke_unknown_config_id: 0,
            helper_hpke_decrypt_failure: 0,
            helper_vdaf_prep_error: 0,
            helper_task_expired: 0,
            helper_invalid_message: 0,
            helper_report_too_early: 0,
        }
    }
}

} // verus!
