use crate::aggregator::Aggregator;
use crate::api_types::{TaskAggregationJobMetrics, TaskUploadMetrics};
use crate::clock::now_unix_nanos;
use crate::strings::str_eq;
use crate::vdaf::Vdaf;
use vstd::prelude::*;
use vstd::std_specs::cmp::{PartialEqSpec, PartialEqSpecImpl};

verus! {

/// A task as the service stores it. Times are nanoseconds since the Unix
/// epoch.
#[derive(Debug)]
pub struct Task {
    /// The DAP task id.
    pub id: String,
    pub account_id: u128,
    pub name: String,
    pub vdaf: Vdaf,
    pub min_batch_size: i64,
    pub max_batch_size: Option<i64>,
    pub batch_time_window_size_seconds: Option<i64>,
    pub created_at: i128,
    pub updated_at: i128,
    pub deleted_at: Option<i128>,
    pub time_precision_seconds: i32,
    /// No longer maintained; always zero.
    pub report_count: i32,
    /// No longer maintained; always zero.
    pub aggregate_collection_count: i32,
    pub expiration: Option<i128>,
    pub leader_aggregator_id: u128,
    pub helper_aggregator_id: u128,
    pub collector_credential_id: u128,
    pub report_counter_interval_collected: i64,
    pub report_counter_decode_failure: i64,
    pub report_counter_decrypt_failure: i64,
    pub report_counter_expired: i64,
    pub report_counter_outdated_key: i64,
    pub report_counter_success: i64,
    pub report_counter_too_early: i64,
    pub report_counter_task_expired: i64,
    pub report_counter_duplicate_extension: i64,
    pub aggregation_job_counter_success: i64,
    pub aggregation_job_counter_helper_batch_collected: i64,
    pub aggregation_job_counter_helper_report_replayed: i64,
    pub aggregation_job_counter_helper_report_dropped: i64,
    pub aggregation_job_counter_helper_hpke_unknown_config_id: i64,
    pub aggregation_job_counter_helper_hpke_decrypt_failure: i64,
    pub aggregation_job_counter_helper_vdaf_prep_error: i64,
    pub aggregation_job_counter_helper_task_expired: i64,
    pub aggregation_job_counter_helper_invalid_message: i64,
    pub aggregation_job_counter_helper_report_too_early: i64,
}

/// A count as stored: the count itself where it fits in an `i64`, the
/// largest `i64` where it does not.
pub open spec fn saturated(count: u64) -> i64 {
    if count <= i64::MAX as u64 {
        count as i64
    } else {
        i64::MAX
    }
}

/// A stored count is the smaller of the count and the largest `i64`: never
/// negative, the count itself where it fits, and no smaller for a larger
/// count.
pub proof fn lemma_saturation(count: u64, other: u64)
    ensures
        saturated(count) >= 0,
        saturated(count) <= count,
        count <= i64::MAX ==> saturated(count) == count,
        count > i64::MAX ==> saturated(count) == i64::MAX,
        count <= other ==> saturated(count) <= saturated(other),
{
}

/// Stores a count, saturating at the largest `i64`.
fn saturate(count: u64) -> (r: i64)
    ensures
        r == saturated(count),
{
    if count <= i64::MAX as u64 {
        count as i64
    } else {
        i64::MAX
    }
}

/// Whether the task's report counters hold the upload metrics, each compared
/// with the metric read as an `i64`.
pub open spec fn upload_metrics_match(m: TaskUploadMetrics, t: Task) -> bool {
    &&& t.report_counter_interval_collected == m.interval_collected as i64
    &&& t.report_counter_decode_failure == m.report_decode_failure as i64
    &&& t.report_counter_decrypt_failure == m.report_decrypt_failure as i64
    &&& t.report_counter_expired == m.report_expired as i64
    &&& t.report_counter_outdated_key == m.report_outdated_key as i64
    &&& t.report_counter_success == m.report_success as i64
    &&& t.report_counter_too_early == m.report_too_early as i64
    &&& t.report_counter_task_expired == m.task_expired as i64
    &&& t.report_counter_duplicate_extension == m.report_duplicate_extension as i64
}

/// Whether the task's aggregation job counters hold the metrics, each
/// compared with the metric read as an `i64`.
pub open spec fn aggregation_job_metrics_match(m: TaskAggregationJobMetrics, t: Task) -> bool {
    &&& t.aggregation_job_counter_success == m.success as i64
    &&& t.aggregation_job_counter_helper_batch_collected == m.helper_batch_collected as i64
    &&& t.aggregation_job_counter_helper_report_replayed == m.helper_report_replayed as i64
    &&& t.aggregation_job_counter_helper_report_dropped == m.helper_report_dropped as i64
    &&& t.aggregation_job_counter_helper_hpke_unknown_config_id
        == m.helper_hpke_unknown_config_id as i64
    &&& t.aggregation_job_counter_helper_hpke_decrypt_failure
        == m.helper_hpke_decrypt_failure as i64
    &&& t.aggregation_job_counter_helper_vdaf_prep_error == m.helper_vdaf_prep_error as i64
    &&& t.aggregation_job_counter_helper_task_expired == m.helper_task_expired as i64
    &&& t.aggregation_job_counter_helper_invalid_message == m.helper_invalid_message as i64
    &&& t.aggregation_job_counter_helper_report_too_early == m.helper_report_too_early as i64
}

/// Whether the task's report counters are the upload metrics, saturated.
pub open spec fn upload_counters_recorded(m: TaskUploadMetrics, t: Task) -> bool {
    &&& t.report_counter_interval_collected == saturated(m.interval_collected)
    &&& t.report_counter_decode_failure == saturated(m.report_decode_failure)
    &&& t.report_counter_decrypt_failure == saturated(m.report_decrypt_failure)
    &&& t.report_counter_expired == saturated(m.report_expired)
    &&& t.report_counter_outdated_key == saturated(m.report_outdated_key)
    &&& t.report_counter_success == saturated(m.report_success)
    &&& t.report_counter_too_early == saturated(m.report_too_early)
    &&& t.report_counter_task_expired == saturated(m.task_expired)
    &&& t.report_counter_duplicate_extension == saturated(m.report_duplicate_extension)
}

/// Whether the task's aggregation job counters are the metrics, saturated.
pub open spec fn aggregation_job_counters_recorded(m: TaskAggregationJobMetrics, t: Task) -> bool {
    &&& t.aggregation_job_counter_success == saturated(m.success)
    &&& t.aggregation_job_counter_helper_batch_collected == saturated(m.helper_batch_collected)
    &&& t.aggregation_job_counter_helper_report_replayed == saturated(m.helper_report_replayed)
    &&& t.aggregation_job_counter_helper_report_dropped == saturated(m.helper_report_dropped)
    &&& t.aggregation_job_counter_helper_hpke_unknown_config_id == saturated(
        m.helper_hpke_unknown_config_id,
    )
    &&& t.aggregation_job_counter_helper_hpke_decrypt_failure == saturated(
        m.helper_hpke_decrypt_failure,
    )
    &&& t.aggregation_job_counter_helper_vdaf_prep_error == saturated(m.helper_vdaf_prep_error)
    &&& t.aggregation_job_counter_helper_task_expired == saturated(m.helper_task_expired)
    &&& t.aggregation_job_counter_helper_invalid_message == saturated(m.helper_invalid_message)
    &&& t.aggregation_job_counter_helper_report_too_early == saturated(m.helper_report_too_early)
}

/// Whether every upload metric fits in an `i64`.
pub open spec fn upload_metrics_fit(m: TaskUploadMetrics) -> bool {
    &&& m.interval_collected <= i64::MAX
    &&& m.report_decode_failure <= i64::MAX
    &&& m.report_decrypt_failure <= i64::MAX
    &&& m.report_expired <= i64::MAX
    &&& m.report_outdated_key <= i64::MAX
    &&& m.report_success <= i64::MAX
    &&& m.report_too_early <= i64::MAX
    &&& m.task_expired <= i64::MAX
    &&& m.report_duplicate_extension <= i64::MAX
}

/// Whether every aggregation job metric fits in an `i64`.
pub open spec fn aggregation_job_metrics_fit(m: TaskAggregationJobMetrics) -> bool {
    &&& m.success <= i64::MAX
    &&& m.helper_batch_collected <= i64::MAX
    &&& m.helper_report_replayed <= i64::MAX
    &&& m.helper_report_dropped <= i64::MAX
    &&& m.helper_hpke_unknown_config_id <= i64::MAX
    &&& m.helper_hpke_decrypt_failure <= i64::MAX
    &&& m.helper_vdaf_prep_error <= i64::MAX
    &&& m.helper_task_expired <= i64::MAX
    &&& m.helper_invalid_message <= i64::MAX
    &&& m.helper_report_too_early <= i64::MAX
}

/// Whether two tasks agree on everything but their report counters, their
/// aggregation job counters and when they were last updated.
pub open spec fn same_but_counters(a: Task, b: Task) -> bool {
    &&& a.id@ == b.id@
    &&& a.account_id == b.account_id
    &&& a.name@ == b.name@
    &&& a.vdaf == b.vdaf
    &&& a.min_batch_size == b.min_batch_size
    &&& a.max_batch_size == b.max_batch_size
    &&& a.batch_time_window_size_seconds == b.batch_time_window_size_seconds
    &&& a.created_at == b.created_at
    &&& a.deleted_at == b.deleted_at
    &&& a.time_precision_seconds == b.time_precision_seconds
    &&& a.report_count == b.report_count
    &&& a.aggregate_collection_count == b.aggregate_collection_count
    &&& a.expiration == b.expiration
    &&& a.leader_aggregator_id == b.leader_aggregator_id
    &&& a.helper_aggregator_id == b.helper_aggregator_id
    &&& a.collector_credential_id == b.collector_credential_id
}

/// Whether every count of a task is zero: the two counts no longer kept,
/// each report counter and each aggregation job counter.
pub open spec fn counts_zero(t: Task) -> bool {
    &&& t.report_count == 0
    &&& t.aggregate_collection_count == 0
    &&& t.report_counter_interval_collected == 0
    &&& t.report_counter_decode_failure == 0
    &&& t.report_counter_decrypt_failure == 0
    &&& t.report_counter_expired == 0
    &&& t.report_counter_outdated_key == 0
    &&& t.report_counter_success == 0
    &&& t.report_counter_too_early == 0
    &&& t.report_counter_task_expired == 0
    &&& t.report_counter_duplicate_extension == 0
    &&& t.aggregation_job_counter_success == 0
    &&& t.aggregation_job_counter_helper_batch_collected == 0
    &&& t.aggregation_job_counter_helper_report_replayed == 0
    &&& t.aggregation_job_counter_helper_report_dropped == 0
    &&& t.aggregation_job_counter_helper_hpke_unknown_config_id == 0
    &&& t.aggregation_job_counter_helper_hpke_decrypt_failure == 0
    &&& t.aggregation_job_counter_helper_vdaf_prep_error == 0
    &&& t.aggregation_job_counter_helper_task_expired == 0
    &&& t.aggregation_job_counter_helper_invalid_message == 0
    &&& t.aggregation_job_counter_helper_report_too_early == 0
}

/// Whether two tasks have the same report counters.
pub open spec fn same_upload_counters(a: Task, b: Task) -> bool {
    &&& a.report_counter_interval_collected == b.report_counter_interval_collected
    &&& a.report_counter_decode_failure == b.report_counter_decode_failure
    &&& a.report_counter_decrypt_failure == b.report_counter_decrypt_failure
    &&& a.report_counter_expired == b.report_counter_expired
    &&& a.report_counter_outdated_key == b.report_counter_outdated_key
    &&& a.report_counter_success == b.report_counter_success
    &&& a.report_counter_too_early == b.report_counter_too_early
    &&& a.report_counter_task_expired == b.report_counter_task_expired
    &&& a.report_counter_duplicate_extension == b.report_counter_duplicate_extension
}

/// Whether two tasks have the same aggregation job counters.
pub open spec fn same_aggregation_job_counters(a: Task, b: Task) -> bool {
    &&& a.aggregation_job_counter_success == b.aggregation_job_counter_success
    &&& a.aggregation_job_counter_helper_batch_collected
        == b.aggregation_job_counter_helper_batch_collected
    &&& a.aggregation_job_counter_helper_report_replayed
        == b.aggregation_job_counter_helper_report_replayed
    &&& a.aggregation_job_counter_helper_report_dropped
        == b.aggregation_job_counter_helper_report_dropped
    &&& a.aggregation_job_counter_helper_hpke_unknown_config_id
        == b.aggregation_job_counter_helper_hpke_unknown_config_id
    &&& a.aggregation_job_counter_helper_hpke_decrypt_failure
        == b.aggregation_job_counter_helper_hpke_decrypt_failure
    &&& a.aggregation_job_counter_helper_vdaf_prep_error
        == b.aggregation_job_counter_helper_vdaf_prep_error
    &&& a.aggregation_job_counter_helper_task_expired
        == b.aggregation_job_counter_helper_task_expired
    &&& a.aggregation_job_counter_helper_invalid_message
        == b.aggregation_job_counter_helper_invalid_message
    &&& a.aggregation_job_counter_helper_report_too_early
        == b.aggregation_job_counter_helper_report_too_early
}

/// A count above the largest `i64` reads as a negative `i64`.
proof fn lemma_large_count_reads_negative(count: u64)
    requires
        count > i64::MAX,
    ensures
        (count as i64) < 0,
{
    assert(count > 0x7fff_ffff_ffff_ffffu64 ==> (count as i64) < 0) by (bit_vector);
}

/// Once a task records upload metrics, the metrics equal the task exactly
/// when every metric fits in an `i64`; a larger one is stored saturated and
/// no longer reads back.
pub proof fn lemma_recorded_upload_metrics_match(m: TaskUploadMetrics, t: Task)
    requires
        upload_counters_recorded(m, t),
    ensures
        upload_metrics_match(m, t) <==> upload_metrics_fit(m),
{
    if m.interval_collected > i64::MAX {
        lemma_large_count_reads_negative(m.interval_collected);
    }
    if m.report_decode_failure > i64::MAX {
        lemma_large_count_reads_negative(m.report_decode_failure);
    }
    if m.report_decrypt_failure > i64::MAX {
        lemma_large_count_reads_negative(m.report_decrypt_failure);
    }
    if m.report_expired > i64::MAX {
        lemma_large_count_reads_negative(m.report_expired);
    }
    if m.report_outdated_key > i64::MAX {
        lemma_large_count_reads_negative(m.report_outdated_key);
    }
    if m.report_success > i64::MAX {
        lemma_large_count_reads_negative(m.report_success);
    }
    if m.report_too_early > i64::MAX {
        lemma_large_count_reads_negative(m.report_too_early);
    }
    if m.task_expired > i64::MAX {
        lemma_large_count_reads_negative(m.task_expired);
    }
    if m.report_duplicate_extension > i64::MAX {
        lemma_large_count_reads_negative(m.report_duplicate_extension);
    }
}

/// Once a task records aggregation job metrics, the metrics equal the task
/// exactly when every metric fits in an `i64`.
pub proof fn lemma_recorded_aggregation_job_metrics_match(m: TaskAggregationJobMetrics, t: Task)
    requires
        aggregation_job_counters_recorded(m, t),
    ensures
        aggregation_job_metrics_match(m, t) <==> aggregation_job_metrics_fit(m),
{
    if m.success > i64::MAX {
        lemma_large_count_reads_negative(m.success);
    }
    if m.helper_batch_collected > i64::MAX {
        lemma_large_count_reads_negative(m.helper_batch_collected);
    }
    if m.helper_report_replayed > i64::MAX {
        lemma_large_count_reads_negative(m.helper_report_replayed);
    }
    if m.helper_report_dropped > i64::MAX {
        lemma_large_count_reads_negative(m.helper_report_dropped);
    }
    if m.helper_hpke_unknown_config_id > i64::MAX {
        lemma_large_count_reads_negative(m.helper_hpke_unknown_config_id);
    }
    if m.helper_hpke_decrypt_failure > i64::MAX {
        lemma_large_count_reads_negative(m.helper_hpke_decrypt_failure);
    }
    if m.helper_vdaf_prep_error > i64::MAX {
        lemma_large_count_reads_negative(m.helper_vdaf_prep_error);
    }
    if m.helper_task_expired > i64::MAX {
        lemma_large_count_reads_negative(m.helper_task_expired);
    }
    if m.helper_invalid_message > i64::MAX {
        lemma_large_count_reads_negative(m.helper_invalid_message);
    }
    if m.helper_report_too_early > i64::MAX {
        lemma_large_count_reads_negative(m.helper_report_too_early);
    }
}

impl Task {
    /// The task with its report counters set from the upload metrics, each
    /// saturating at the largest `i64`, and updated now. What is written is
    /// then stored by the caller.
    pub fn update_task_upload_metrics(self, metrics: TaskUploadMetrics) -> (r: Task)
        ensures
            upload_counters_recorded(metrics, r),
            same_but_counters(r, self),
            same_aggregation_job_counters(r, self),
    {
        let now = now_unix_nanos();
        Task {
            report_counter_interval_collected: saturate(metrics.interval_collected),
            report_counter_decode_failure: saturate(metrics.report_decode_failure),
            report_counter_decrypt_failure: saturate(metrics.report_decrypt_failure),
            report_counter_expired: saturate(metrics.report_expired),
            report_counter_outdated_key: saturate(metrics.report_outdated_key),
            report_counter_success: saturate(metrics.report_success),
            report_counter_too_early: saturate(metrics.report_too_early),
            report_counter_task_expired: saturate(metrics.task_expired),
            report_counter_duplicate_extension: saturate(metrics.report_duplicate_extension),
            updated_at: now,
            ..self
        }
    }

    /// The task with its aggregation job counters set from the metrics, each
    /// saturating at the largest `i64`, and updated now. What is written is
    /// then stored by the caller.
    pub fn update_task_aggregation_job_metrics(self, metrics: TaskAggregationJobMetrics) -> (r:
        Task)
        ensures
            aggregation_job_counters_recorded(metrics, r),
            same_but_counters(r, self),
            same_upload_counters(r, self),
    {
        let now = now_unix_nanos();
        Task {
            aggregation_job_counter_success: saturate(metrics.success),
            aggregation_job_counter_helper_batch_collected: saturate(
                metrics.helper_batch_collected,
            ),
            aggregation_job_counter_helper_report_replayed: saturate(
                metrics.helper_report_replayed,
            ),
            aggregation_job_counter_helper_report_dropped: saturate(metrics.helper_report_dropped),
            aggregation_job_counter_helper_hpke_unknown_config_id: saturate(
                metrics.helper_hpke_unknown_config_id,
            ),
            aggregation_job_counter_helper_hpke_decrypt_failure: saturate(
                metrics.helper_hpke_decrypt_failure,
            ),
            aggregation_job_counter_helper_vdaf_prep_error: saturate(
                metrics.helper_vdaf_prep_error,
            ),
            aggregation_job_counter_helper_task_expired: saturate(metrics.helper_task_expired),
            aggregation_job_counter_helper_invalid_message: saturate(
                metrics.helper_invalid_message,
            ),
            aggregation_job_counter_helper_report_too_early: saturate(
                metrics.helper_report_too_early,
            ),
            updated_at: now,
            ..self
        }
    }
}

impl PartialEq<Task> for TaskUploadMetrics {
    fn eq(&self, other: &Task) -> (r: bool) {
        other.report_counter_interval_collected == self.interval_collected as i64
            && other.report_counter_decode_failure == self.report_decode_failure as i64
            && other.report_counter_decrypt_failure == self.report_decrypt_failure as i64
            && other.report_counter_expired == self.report_expired as i64
            && other.report_counter_outdated_key == self.report_outdated_key as i64
            && other.report_counter_success == self.report_success as i64
            && other.report_counter_too_early == self.report_too_early as i64
            && other.report_counter_task_expired == self.task_expired as i64
            && other.report_counter_duplicate_extension == self.report_duplicate_extension as i64
    }
}

impl PartialEqSpecImpl<Task> for TaskUploadMetrics {
    open spec fn obeys_eq_spec() -> bool {
        true
    }

    open spec fn eq_spec(&self, other: &Task) -> bool {
        upload_metrics_match(*self, *other)
    }
}

impl PartialEq<Task> for TaskAggregationJobMetrics {
    fn eq(&self, other: &Task) -> (r: bool) {
        other.aggregation_job_counter_success == self.success as i64
            && other.aggregation_job_counter_helper_batch_collected
            == self.helper_batch_collected as i64
            && other.aggregation_job_counter_helper_report_replayed
            == self.helper_report_replayed as i64
            && other.aggregation_job_counter_helper_report_dropped
            == self.helper_report_dropped as i64
            && other.aggregation_job_counter_helper_hpke_unknown_config_id
            == self.helper_hpke_unknown_config_id as i64
            && other.aggregation_job_counter_helper_hpke_decrypt_failure
            == self.helper_hpke_decrypt_failure as i64
            && other.aggregation_job_counter_helper_vdaf_prep_error
            == self.helper_vdaf_prep_error as i64
            && other.aggregation_job_counter_helper_task_expired == self.helper_task_expired as i64
            && other.aggregation_job_counter_helper_invalid_message
            == self.helper_invalid_message as i64
            && other.aggregation_job_counter_helper_report_too_early
            == self.helper_report_too_early as i64
    }
}

impl PartialEqSpecImpl<Task> for TaskAggregationJobMetrics {
    open spec fn obeys_eq_spec() -> bool {
        true
    }

    open spec fn eq_spec(&self, other: &Task) -> bool {
        aggregation_job_metrics_match(*self, *other)
    }
}

/// Checks that an aggregator answered `property` as it was asked: `ours`
/// and `theirs` must be equal.
pub fn assert_same<T: PartialEq>(ours: T, theirs: T, property: &'static str) -> (r: Result<
    (),
    TaskProvisioningError,
>)
    ensures
        T::obeys_eq_spec() ==> (r is Ok <==> ours.eq_spec(&theirs)),
        r matches Err(TaskProvisioningError::Discrepancy(p)) ==> p == property,
{
    if ours == theirs {
        Ok(())
    } else {
        Err(TaskProvisioningError::Discrepancy(property))
    }
}

/// A value that an aggregator answered differently from what was asked.
#[derive(Debug, Clone, Copy)]
pub enum TaskProvisioningError {
    /// The named property differs.
    Discrepancy(&'static str),
}

/// How a task groups reports into batches, as the task store records it.
#[derive(Debug, Clone, Copy, PartialEq, Eq, Structural)]
pub enum QueryType {
    TimeInterval,
    FixedSize,
}

/// The text a query type is stored as.
pub open spec fn stored_query_type_text(q: QueryType) -> Seq<char> {
    match q {
        QueryType::TimeInterval => "TIME_INTERVAL"@,
        QueryType::FixedSize => "FIXED_SIZE"@,
    }
}

impl QueryType {
    /// The text the query type is stored as.
    pub fn as_str(self) -> (r: &'static str)
        ensures
            r@ == stored_query_type_text(self),
    {
        match self {
            QueryType::TimeInterval => "TIME_INTERVAL",
            QueryType::FixedSize => "FIXED_SIZE",
        }
    }

    /// The query type stored as `text`, if any.
    pub fn from_stored(text: &str) -> (r: Option<QueryType>)
        ensures
            match r {
                Some(q) => stored_query_type_text(q) == text@,
                None => text@ != "TIME_INTERVAL"@ && text@ != "FIXED_SIZE"@,
            },
    {
        if str_eq(text, "TIME_INTERVAL") {
            Some(QueryType::TimeInterval)
        } else if str_eq(text, "FIXED_SIZE") {
            Some(QueryType::FixedSize)
        } else {
            None
        }
    }
}

/// The first of a task's two aggregators that is first party, if any.
pub fn first_party_aggregator(leader: Aggregator, helper: Aggregator) -> (r: Option<Aggregator>)
    ensures
        r == (if leader.is_first_party {
            Some(leader)
        } else if helper.is_first_party {
            Some(helper)
        } else {
            None
        }),
{
    if leader.is_first_party {
        Some(leader)
    } else if helper.is_first_party {
        Some(helper)
    } else {
        None
    }
}

} // verus!
