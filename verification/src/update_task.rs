use crate::clock::now_unix_nanos;
use crate::error::ServiceError;
use crate::provision::NANOS_PER_SECOND;
use crate::task::{assert_same, Task, TaskProvisioningError};
use crate::validation::{add_if, error_if, finish, validation_result, ValidationErrors};
use vstd::prelude::*;

verus! {

/// A change to a task: its name, its expiration, or both. A requested
/// expiration of `None` removes the expiration. Times are nanoseconds since
/// the Unix epoch.
#[derive(Debug)]
pub struct UpdateTask {
    pub name: Option<String>,
    pub expiration: Option<Option<i128>>,
}

/// The rules that a change to a task breaks: a new name must not be empty.
pub open spec fn update_task_errors(u: UpdateTask) -> Seq<(Seq<Seq<char>>, Seq<char>)> {
    match u.name {
        None => seq![],
        Some(n) => error_if(n@.len() == 0, "name"@, "name-too-short"@),
    }
}

impl UpdateTask {
    /// A change of the expiration alone.
    pub fn expiration(expiration: Option<i128>) -> (r: UpdateTask)
        ensures
            r.name is None,
            r.expiration == Some(expiration),
    {
        UpdateTask { name: None, expiration: Some(expiration) }
    }

    /// Checks the rules of the change.
    pub fn validate(&self) -> (r: Result<(), ValidationErrors>)
        ensures
            validation_result(r, update_task_errors(*self)),
    {
        let mut errors = ValidationErrors::new();
        match &self.name {
            None => {},
            Some(n) => add_if(&mut errors, n.as_str().unicode_len() == 0, "name", "name-too-short"),
        }
        proof {
            assert(errors@ =~= update_task_errors(*self));
        }
        finish(errors)
    }

    /// The expiration to send to the aggregators, in whole seconds since the
    /// Unix epoch.
    pub fn expiration_seconds(&self) -> (r: Option<u64>)
        requires
            self.expiration matches Some(e) && expiration_sendable_value(e),
        ensures
            r == sent_expiration(self.expiration->Some_0),
    {
        match self.expiration {
            Some(Some(t)) => Some((t / NANOS_PER_SECOND) as u64),
            _ => None,
        }
    }

    /// What the change asks of the two aggregators, before either is
    /// contacted: a change that breaks a rule is refused and neither is
    /// contacted; one that keeps the expiration contacts neither; one that
    /// sets it sends both, leader and helper, the returned expiration in
    /// whole seconds.
    pub fn aggregator_expiration(&self) -> (r: Result<Option<Option<u64>>, ValidationErrors>)
        requires
            update_task_expiration_sendable(*self),
        ensures
            update_task_errors(*self).len() > 0 ==> (r matches Err(e) && e@ == update_task_errors(
                *self,
            )),
            update_task_errors(*self).len() == 0 ==> r == Ok::<
                Option<Option<u64>>,
                ValidationErrors,
            >(match self.expiration {
                Some(e) => Some(sent_expiration(e)),
                None => None,
            }),
    {
        match self.validate() {
            Err(e) => {
                return Err(e);
            },
            Ok(()) => {},
        }
        match self.expiration {
            Some(_) => Ok(Some(self.expiration_seconds())),
            None => Ok(None),
        }
    }

    /// Checks that an aggregator set the expiration it was sent.
    pub fn check_expiration_response(sent: Option<u64>, answered: Option<u64>) -> (r: Result<
        (),
        ServiceError,
    >)
        ensures
            r is Ok <==> sent == answered,
            r matches Err(e) ==> e == ServiceError::TaskProvisioning(
                TaskProvisioningError::Discrepancy("expiration"),
            ),
    {
        match assert_same(sent, answered, "expiration") {
            Ok(()) => Ok(()),
            Err(e) => Err(ServiceError::TaskProvisioning(e)),
        }
    }

    /// The task with the change applied. A new expiration is sent to both
    /// aggregators first (see `aggregator_expiration`); `answered` holds the
    /// expirations that the leader and the helper set, and the change is made
    /// only when both set the one they were sent. The task is marked updated
    /// only when something was set; nothing else of it changes.
    pub fn update(self, task: Task, answered: Option<(Option<u64>, Option<u64>)>) -> (r: Result<
        Task,
        ServiceError,
    >)
        requires
            update_task_expiration_sendable(self),
            update_task_errors(self).len() == 0 && self.expiration is Some ==> answered is Some,
        ensures
            update_task_errors(self).len() > 0 ==> (r matches Err(ServiceError::Validation(e)) && e@
                == update_task_errors(self)),
            update_task_errors(self).len() == 0 ==> match (self.expiration, answered) {
                (Some(e), Some((leader, helper))) if leader != sent_expiration(e) || helper
                    != sent_expiration(e) => r == Err::<Task, ServiceError>(
                    ServiceError::TaskProvisioning(TaskProvisioningError::Discrepancy("expiration")),
                ),
                _ => r matches Ok(t) && updated_as_asked(self, task, t),
            },
    {
        match self.validate() {
            Err(e) => {
                return Err(ServiceError::Validation(e));
            },
            Ok(()) => {},
        }
        match (self.expiration, answered) {
            (Some(_), Some((leader, helper))) => {
                let sent = self.expiration_seconds();
                match UpdateTask::check_expiration_response(sent, leader) {
                    Err(e) => {
                        return Err(e);
                    },
                    Ok(()) => {},
                }
                match UpdateTask::check_expiration_response(sent, helper) {
                    Err(e) => {
                        return Err(e);
                    },
                    Ok(()) => {},
                }
            },
            _ => {},
        }
        let changed = self.name.is_some() || self.expiration.is_some();
        let mut task = task;
        match self.name {
            Some(n) => {
                task.name = n;
            },
            None => {},
        }
        match self.expiration {
            Some(e) => {
                task.expiration = e;
            },
            None => {},
        }
        if changed {
            task.updated_at = now_unix_nanos();
        }
        Ok(task)
    }
}

/// An expiration, in nanoseconds since the Unix epoch, that can be sent to
/// an aggregator: none, or a time from the epoch on whose whole seconds fit
/// an `i64`.
pub open spec fn expiration_sendable_value(e: Option<i128>) -> bool {
    e matches Some(t) ==> 0 <= t && t / NANOS_PER_SECOND <= i64::MAX
}

/// Whether a change that breaks no rule sets, if anything, an expiration
/// that can be sent to the aggregators.
pub open spec fn update_task_expiration_sendable(u: UpdateTask) -> bool {
    update_task_errors(u).len() == 0 ==> (u.expiration matches Some(e)
        ==> expiration_sendable_value(e))
}

/// The expiration sent to an aggregator, in whole seconds.
pub open spec fn sent_expiration(e: Option<i128>) -> Option<u64> {
    match e {
        Some(t) => Some((t / NANOS_PER_SECOND) as u64),
        None => None,
    }
}

/// Whether `t` is `task` with the change `u` applied: the name and the
/// expiration that it sets, the time of the change where it sets anything,
/// and every other field as it was.
pub open spec fn updated_as_asked(u: UpdateTask, task: Task, t: Task) -> bool {
    &&& t == (Task {
        name: match u.name {
            Some(n) => n,
            None => task.name,
        },
        expiration: match u.expiration {
            Some(e) => e,
            None => task.expiration,
        },
        updated_at: t.updated_at,
        ..task
    })
    &&& (u.name is None && u.expiration is None) ==> t.updated_at == task.updated_at
}

} // verus!
