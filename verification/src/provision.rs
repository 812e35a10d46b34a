use crate::aggregator::Aggregator;
use crate::aggregator_vdaf::{same_aggregator_vdaf, AggregatorVdaf};
use crate::api_types::{AuthenticationToken, AuthenticationTokenHash, QueryType};
use crate::client::Role;
use crate::clock::now_unix_nanos;
use crate::error::ServiceError;
use crate::feature::token_hash_view;
use crate::new_task::ProvisionableTask;
use crate::strings::{owned, str_eq};
use crate::task::{counts_zero, Task, TaskProvisioningError};
use crate::url::Url;
use crate::vecs::copy_bytes;
use vstd::prelude::*;

verus! {

/// Nanoseconds in a second.
pub const NANOS_PER_SECOND: i128 = 1_000_000_000;

/// A request to create a task at one aggregator. Times are seconds since
/// the Unix epoch.
#[derive(Debug)]
pub struct TaskCreate {
    pub aggregator_auth_token: Option<AuthenticationToken>,
    pub peer_aggregator_endpoint: Url,
    pub query_type: QueryType,
    pub vdaf: AggregatorVdaf,
    pub role: Role,
    pub max_batch_query_count: u64,
    pub task_expiration: Option<u64>,
    pub min_batch_size: u64,
    pub time_precision: u64,
    /// The encoded HPKE configuration of the collector.
    pub collector_hpke_config: Vec<u8>,
    pub vdaf_verify_key: String,
    pub collector_auth_token_hash: Option<AuthenticationTokenHash>,
}

/// What an aggregator answers a request to create a task with. Times and
/// durations are in seconds.
#[derive(Debug)]
pub struct TaskResponse {
    pub task_id: String,
    pub peer_aggregator_endpoint: Url,
    pub query_type: QueryType,
    pub vdaf: AggregatorVdaf,
    pub role: Role,
    pub vdaf_verify_key: String,
    pub max_batch_query_count: u64,
    pub task_expiration: Option<u64>,
    pub report_expiry_age: Option<u64>,
    pub min_batch_size: u64,
    pub time_precision: u64,
    pub tolerable_clock_skew: u64,
    pub collector_hpke_config: Vec<u8>,
    pub aggregator_auth_token: Option<AuthenticationToken>,
    pub collector_auth_token: Option<AuthenticationToken>,
    pub aggregator_hpke_configs: Vec<Vec<u8>>,
}

/// The whole seconds of a time given in nanoseconds since the Unix epoch.
pub open spec fn unix_seconds(nanos: i128) -> int {
    nanos / NANOS_PER_SECOND
}

/// Whether a task's times can be sent to an aggregator: its expiration is
/// not before the Unix epoch and its seconds fit in an `i64`.
pub open spec fn expiration_sendable(expiration: Option<i128>) -> bool {
    match expiration {
        Some(e) => 0 <= e && unix_seconds(e) <= i64::MAX,
        None => true,
    }
}

/// The query type of a task: fixed-size batches where it has a maximum
/// batch size, time intervals otherwise.
pub open spec fn task_query_type(t: ProvisionableTask) -> QueryType {
    match t.max_batch_size {
        Some(m) => QueryType::FixedSize {
            max_batch_size: m,
            batch_time_window_size: t.batch_time_window_size_seconds,
        },
        None => QueryType::TimeInterval,
    }
}

impl ProvisionableTask {
    /// The query type of the task.
    pub fn query_type(&self) -> (r: QueryType)
        ensures
            r == task_query_type(*self),
    {
        match self.max_batch_size {
            Some(m) => QueryType::FixedSize {
                max_batch_size: m,
                batch_time_window_size: self.batch_time_window_size_seconds,
            },
            None => QueryType::TimeInterval,
        }
    }
}

impl TaskCreate {
    /// The request that creates the task at `target`: it leads when it is the
    /// task's leader and helps otherwise, and is pointed at the other
    /// aggregator. A leader that accepts token hashes gets the hash of the
    /// collector's token.
    pub fn build(target: &Aggregator, task: &ProvisionableTask) -> (r: TaskCreate)
        requires
            expiration_sendable(task.expiration),
        ensures
            r.role == (if task.leader_aggregator.id == target.id {
                Role::Leader
            } else {
                Role::Helper
            }),
            r.peer_aggregator_endpoint@ == (if r.role == Role::Leader {
                task.helper_aggregator.dap_url@
            } else {
                task.leader_aggregator.dap_url@
            }),
            r.query_type == task_query_type(*task),
            same_aggregator_vdaf(r.vdaf, task.aggregator_vdaf),
            r.max_batch_query_count == 1,
            r.task_expiration == (match task.expiration {
                Some(e) => Some(unix_seconds(e) as u64),
                None => None,
            }),
            r.min_batch_size == task.min_batch_size,
            r.time_precision == task.time_precision_seconds,
            r.collector_hpke_config@ == task.collector_credential.contents@,
            r.vdaf_verify_key@ == task.vdaf_verify_key@,
            match (r.aggregator_auth_token, task.aggregator_auth_token) {
                (Some(AuthenticationToken::Bearer { token }), Some(t)) => token@ == t@,
                (None, None) => true,
                _ => false,
            },
            match r.collector_auth_token_hash {
                Some(AuthenticationTokenHash::Bearer { hash }) => r.role == Role::Leader
                    && target.features@.contains(token_hash_view()) && (
                task.collector_credential.token_hash matches Some(h) && hash@ == h@),
                None => !(r.role == Role::Leader && target.features@.contains(token_hash_view())
                    && task.collector_credential.token_hash is Some),
            },
    {
        let role = if task.leader_aggregator.id == target.id {
            Role::Leader
        } else {
            Role::Helper
        };
        let collector_auth_token_hash = if role == Role::Leader
            && target.features.token_hash_enabled() {
            match &task.collector_credential.token_hash {
                Some(h) => Some(AuthenticationTokenHash::Bearer { hash: owned(h.as_str()) }),
                None => None,
            }
        } else {
            None
        };
        let peer_aggregator_endpoint = if role == Role::Leader {
            task.helper_aggregator.dap_url.duplicate()
        } else {
            task.leader_aggregator.dap_url.duplicate()
        };
        let task_expiration = match task.expiration {
            Some(e) => Some((e / NANOS_PER_SECOND) as u64),
            None => None,
        };
        let aggregator_auth_token = match &task.aggregator_auth_token {
            Some(t) => Some(AuthenticationToken::new(owned(t.as_str()))),
            None => None,
        };
        TaskCreate {
            peer_aggregator_endpoint,
            query_type: task.query_type(),
            vdaf: task.aggregator_vdaf.duplicate(),
            role,
            max_batch_query_count: 1,
            task_expiration,
            min_batch_size: task.min_batch_size,
            time_precision: task.time_precision_seconds,
            collector_hpke_config: copy_bytes(task.collector_credential.contents.as_slice()),
            vdaf_verify_key: owned(task.vdaf_verify_key.as_str()),
            aggregator_auth_token,
            collector_auth_token_hash,
        }
    }
}

/// Whether the `time` crate can hold the time that many seconds after the
/// Unix epoch.
pub uninterp spec fn spec_unix_timestamp_in_range(seconds: i64) -> bool;

/// `time::OffsetDateTime::from_unix_timestamp`, read as nanoseconds since
/// the Unix epoch (`unix_timestamp_nanos`). It fails where the time is
/// outside the range that the crate holds, named
/// `spec_unix_timestamp_in_range`; otherwise it is the whole second given.
#[verifier::external_body]
fn from_unix_timestamp(seconds: i64) -> (r: Option<i128>)
    ensures
        r is Some <==> spec_unix_timestamp_in_range(seconds),
        r matches Some(n) ==> n == seconds * NANOS_PER_SECOND,
{
    match ::time::OffsetDateTime::from_unix_timestamp(seconds) {
        Ok(t) => Some(t.unix_timestamp_nanos()),
        Err(_) => None,
    }
}

/// A time truncated to the whole second.
pub open spec fn whole_second(nanos: i128) -> int {
    unix_seconds(nanos) * NANOS_PER_SECOND
}

/// What checking an aggregator's answer against the task gives: the first
/// property, in the order vdaf, min_batch_size, query_type,
/// task_expiration, time_precision, task_id, on which they differ. The
/// expiration is compared to the whole second; an answered expiration that
/// cannot be held as a time fails.
pub open spec fn response_check(t: ProvisionableTask, r: TaskResponse) -> Result<(), Option<
    Seq<char>,
>> {
    if !same_aggregator_vdaf(t.aggregator_vdaf, r.vdaf) {
        Err(Some("vdaf"@))
    } else if t.min_batch_size != r.min_batch_size {
        Err(Some("min_batch_size"@))
    } else if task_query_type(t) != r.query_type {
        Err(Some("query_type"@))
    } else {
        match r.task_expiration {
            Some(s) if !spec_unix_timestamp_in_range(s as i64) => Err(None),
            _ => {
                let ours: Option<int> = match t.expiration {
                    Some(e) => Some(whole_second(e)),
                    None => None,
                };
                let theirs: Option<int> = match r.task_expiration {
                    Some(s) => Some(s * NANOS_PER_SECOND),
                    None => None,
                };
                if ours != theirs {
                    Err(Some("task_expiration"@))
                } else if t.time_precision_seconds != r.time_precision {
                    Err(Some("time_precision"@))
                } else if t.id@ != r.task_id@ {
                    Err(Some("task_id"@))
                } else {
                    Ok(())
                }
            },
        }
    }
}

/// Whether an aggregator's answer describes the task as it was asked to:
/// the same VDAF, minimum batch size, query type, time precision and task
/// id, and an expiration at the same whole second, or none on both sides.
pub open spec fn answer_agrees(t: ProvisionableTask, r: TaskResponse) -> bool {
    &&& same_aggregator_vdaf(t.aggregator_vdaf, r.vdaf)
    &&& r.min_batch_size == t.min_batch_size
    &&& r.query_type == task_query_type(t)
    &&& r.time_precision == t.time_precision_seconds
    &&& r.task_id@ == t.id@
    &&& match (t.expiration, r.task_expiration) {
        (Some(e), Some(s)) => s as int == e / NANOS_PER_SECOND,
        (None, None) => true,
        _ => false,
    }
}

/// An answer that passes the check agrees with the task on every property
/// that the task was created with; one that differs from it in the time
/// precision, or in any other of them, fails.
pub proof fn lemma_accepted_answers_agree(t: ProvisionableTask, r: TaskResponse)
    ensures
        response_check(t, r) is Ok ==> answer_agrees(t, r),
        r.time_precision != t.time_precision_seconds ==> response_check(t, r) is Err,
        r.min_batch_size != t.min_batch_size ==> response_check(t, r) is Err,
        r.task_id@ != t.id@ ==> response_check(t, r) is Err,
        r.query_type != task_query_type(t) ==> response_check(t, r) is Err,
{
}

/// The first discrepancy, as an error.
fn discrepancy(property: &'static str) -> (r: Result<(), ServiceError>)
    ensures
        r matches Err(ServiceError::TaskProvisioning(TaskProvisioningError::Discrepancy(p)))
            && p == property,
{
    Err(ServiceError::TaskProvisioning(TaskProvisioningError::Discrepancy(property)))
}

impl TaskResponse {
    /// The expiration that the aggregator answered, in nanoseconds since the
    /// Unix epoch; an expiration that cannot be held as a time fails.
    pub fn task_expiration(&self) -> (r: Result<Option<i128>, ServiceError>)
        requires
            self.task_expiration matches Some(s) ==> s <= i64::MAX,
        ensures
            match self.task_expiration {
                Some(s) => if spec_unix_timestamp_in_range(s as i64) {
                    r == Ok::<Option<i128>, ServiceError>(Some((s * NANOS_PER_SECOND) as i128))
                } else {
                    r matches Err(ServiceError::TimeRange)
                },
                None => r == Ok::<Option<i128>, ServiceError>(None),
            },
    {
        match self.task_expiration {
            Some(s) => match from_unix_timestamp(s as i64) {
                Some(n) => Ok(Some(n)),
                None => Err(ServiceError::TimeRange),
            },
            None => Ok(None),
        }
    }
}

/// The token that the helper issued for the leader, kept in the task;
/// nothing else of it changes.
pub open spec fn with_helper_token(t: ProvisionableTask, helper_response: TaskResponse) -> ProvisionableTask {
    ProvisionableTask {
        aggregator_auth_token: match helper_response.aggregator_auth_token {
            Some(AuthenticationToken::Bearer { token }) => Some(token),
            None => None,
        },
        ..t
    }
}

/// The error that a failed check of an answer gives: the property on which
/// it differs, or a time that cannot be held.
pub open spec fn check_failure(p: Option<Seq<char>>, e: ServiceError) -> bool {
    match p {
        Some(p) => e matches ServiceError::TaskProvisioning(TaskProvisioningError::Discrepancy(q))
            && q@ == p,
        None => e is TimeRange,
    }
}

/// The task stored for `p` once both aggregators created it: its fields,
/// with sizes and precision in the stored types, no deletion and every count
/// zero; or the failure where a size or the precision does not fit.
pub open spec fn stored_as(p: ProvisionableTask, r: Result<Task, ServiceError>) -> bool {
    match r {
        Ok(t) => {
            &&& p.min_batch_size <= i64::MAX && t.min_batch_size
                == p.min_batch_size as i64
            &&& t.max_batch_size == (match p.max_batch_size {
                Some(m) => Some(m as i64),
                None => None,
            })
            &&& t.batch_time_window_size_seconds == (
            match p.batch_time_window_size_seconds {
                Some(m) => Some(m as i64),
                None => None,
            })
            &&& p.time_precision_seconds <= i32::MAX && t.time_precision_seconds
                == p.time_precision_seconds as i32
            &&& t.id == p.id
            &&& t.account_id == p.account.id
            &&& t.name == p.name
            &&& t.vdaf == p.vdaf
            &&& t.expiration == p.expiration
            &&& t.leader_aggregator_id == p.leader_aggregator.id
            &&& t.helper_aggregator_id == p.helper_aggregator.id
            &&& t.collector_credential_id == p.collector_credential.id
            &&& t.deleted_at is None
            &&& counts_zero(t)
        },
        Err(e) => e is NumericConversion && (p.min_batch_size > i64::MAX || (
        p.max_batch_size matches Some(m) && m > i64::MAX) || (
        p.batch_time_window_size_seconds matches Some(w) && w > i64::MAX)
            || p.time_precision_seconds > i32::MAX),
    }
}

impl ProvisionableTask {
    /// Checks an aggregator's answer to the request that created the task:
    /// it must describe the task as it was asked to.
    pub fn check_response(&self, response: &TaskResponse) -> (r: Result<(), ServiceError>)
        requires
            expiration_sendable(self.expiration),
            response.task_expiration matches Some(s) ==> s <= i64::MAX,
        ensures
            match response_check(*self, *response) {
                Ok(()) => r is Ok,
                Err(Some(p)) => r matches Err(
                    ServiceError::TaskProvisioning(TaskProvisioningError::Discrepancy(q)),
                ) && q@ == p,
                Err(None) => r matches Err(ServiceError::TimeRange),
            },
            r is Ok ==> answer_agrees(*self, *response),
    {
        proof {
            lemma_accepted_answers_agree(*self, *response);
        }
        if !self.aggregator_vdaf.same_as(&response.vdaf) {
            return discrepancy("vdaf");
        }
        if self.min_batch_size != response.min_batch_size {
            return discrepancy("min_batch_size");
        }
        if self.query_type() != response.query_type {
            return discrepancy("query_type");
        }
        let theirs = match response.task_expiration() {
            Ok(t) => t,
            Err(e) => {
                return Err(e);
            },
        };
        let ours = match self.expiration {
            Some(e) => Some((e / NANOS_PER_SECOND) * NANOS_PER_SECOND),
            None => None,
        };
        if ours != theirs {
            return discrepancy("task_expiration");
        }
        if self.time_precision_seconds != response.time_precision {
            return discrepancy("time_precision");
        }
        if !str_eq(self.id.as_str(), response.task_id.as_str()) {
            return discrepancy("task_id");
        }
        Ok(())
    }

    /// Keeps the token that the helper issued for the leader, from the
    /// helper's answer; nothing else of the task changes.
    pub fn record_helper_response(&mut self, helper_response: TaskResponse)
        ensures
            *final(self) == with_helper_token(*old(self), helper_response),
    {
        self.aggregator_auth_token = match helper_response.aggregator_auth_token {
            Some(t) => Some(t.token()),
            None => None,
        };
    }

    /// The helper's answer to the request that created the task there, which
    /// is made first: it is checked, and the token it issued is kept for the
    /// request to the leader, which is made next (`TaskCreate::build` with
    /// the task as it now stands). An answer that fails the check changes
    /// nothing, and the leader is not asked.
    pub fn helper_answered(&mut self, response: TaskResponse) -> (r: Result<(), ServiceError>)
        requires
            expiration_sendable(old(self).expiration),
            response.task_expiration matches Some(s) ==> s <= i64::MAX,
        ensures
            match response_check(*old(self), response) {
                Ok(()) => r is Ok && *final(self) == with_helper_token(*old(self), response),
                Err(p) => r matches Err(e) && check_failure(p, e) && *final(self) == *old(self),
            },
            r is Ok ==> answer_agrees(*old(self), response),
    {
        match self.check_response(&response) {
            Err(e) => Err(e),
            Ok(()) => {
                self.record_helper_response(response);
                Ok(())
            },
        }
    }

    /// The leader's answer to the request that created the task there, made
    /// after the helper's: it is checked, and the task to store is built.
    pub fn leader_answered(self, response: TaskResponse) -> (r: Result<Task, ServiceError>)
        requires
            expiration_sendable(self.expiration),
            response.task_expiration matches Some(s) ==> s <= i64::MAX,
        ensures
            match response_check(self, response) {
                Ok(()) => stored_as(self, r),
                Err(p) => r matches Err(e) && check_failure(p, e),
            },
            r is Ok ==> answer_agrees(self, response),
    {
        match self.check_response(&response) {
            Err(e) => Err(e),
            Ok(()) => self.into_task(),
        }
    }

    /// The task to store once both aggregators created it, created now with
    /// no counted reports; sizes and precision must fit the stored types.
    pub fn into_task(self) -> (r: Result<Task, ServiceError>)
        ensures
            stored_as(self, r),
    {
        if self.min_batch_size > i64::MAX as u64 {
            return Err(ServiceError::NumericConversion);
        }
        let max_batch_size = match self.max_batch_size {
            Some(m) => if m > i64::MAX as u64 {
                return Err(ServiceError::NumericConversion);
            } else {
                Some(m as i64)
            },
            None => None,
        };
        let batch_time_window_size_seconds = match self.batch_time_window_size_seconds {
            Some(w) => if w > i64::MAX as u64 {
                return Err(ServiceError::NumericConversion);
            } else {
                Some(w as i64)
            },
            None => None,
        };
        if self.time_precision_seconds > i32::MAX as u64 {
            return Err(ServiceError::NumericConversion);
        }
        let now = now_unix_nanos();
        Ok(
            Task {
                id: self.id,
                account_id: self.account.id,
                name: self.name,
                vdaf: self.vdaf,
                min_batch_size: self.min_batch_size as i64,
                max_batch_size,
                batch_time_window_size_seconds,
                created_at: now,
                updated_at: now,
                deleted_at: None,
                time_precision_seconds: self.time_precision_seconds as i32,
                report_count: 0,
                aggregate_collection_count: 0,
                expiration: self.expiration,
                leader_aggregator_id: self.leader_aggregator.id,
                helper_aggregator_id: self.helper_aggregator.id,
                collector_credential_id: self.collector_credential.id,
                report_counter_interval_collected: 0,
                report_counter_decode_failure: 0,
                report_counter_decrypt_failure: 0,
                report_counter_expired: 0,
                report_counter_outdated_key: 0,
                report_counter_success: 0,
                report_counter_too_early: 0,
                report_counter_task_expired: 0,
                report_counter_duplicate_extension: 0,
                aggregation_job_counter_success: 0,
                aggregation_job_counter_helper_batch_collected: 0,
                aggregation_job_counter_helper_report_replayed: 0,
                aggregation_job_counter_helper_report_dropped: 0,
                aggregation_job_counter_helper_hpke_unknown_config_id: 0,
                aggregation_job_counter_helper_hpke_decrypt_failure: 0,
                aggregation_job_counter_helper_vdaf_prep_error: 0,
                aggregation_job_counter_helper_task_expired: 0,
                aggregation_job_counter_helper_invalid_message: 0,
                aggregation_job_counter_helper_report_too_early: 0,
            },
        )
    }
}

} // verus!
