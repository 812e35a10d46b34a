use vstd::prelude::*;

verus! {

/// A value stored as JSON.
#[derive(Debug, Clone, Copy, PartialEq, Eq, Default)]
pub struct Json<T>(pub T);

impl<T> Json<T> {
    /// The value.
    pub fn into_inner(self) -> (r: T)
        ensures
            r == self.0,
    {
        self.0
    }
}

impl<T> From<T> for Json<T> {
    /// The value, wrapped.
    fn from(value: T) -> (r: Json<T>) {
        Json(value)
    }
}

impl<T> vstd::std_specs::convert::FromSpecImpl<T> for Json<T> {
    open spec fn obeys_from_spec() -> bool {
        true
    }

    open spec fn from_spec(v: T) -> Json<T> {
        Json(v)
    }
}

/// A value stored in its binary encoding.
#[derive(Debug, Clone, Copy, PartialEq, Eq, Default)]
pub struct Codec<T>(pub T);

impl<T> Codec<T> {
    /// The value.
    pub fn into_inner(self) -> (r: T)
        ensures
            r == self.0,
    {
        self.0
    }
}

impl<T> From<T> for Codec<T> {
    /// The value, wrapped.
    fn from(value: T) -> (r: Codec<T>) {
        Codec(value)
    }
}

impl<T> vstd::std_specs::convert::FromSpecImpl<T> for Codec<T> {
    open spec fn obeys_from_spec() -> bool {
        true
    }

    open spec fn from_spec(v: T) -> Codec<T> {
        Codec(v)
    }
}

/// The state of a queued job.
#[derive(Debug, Clone, Copy, PartialEq, Eq, Structural)]
pub enum JobStatus {
    Pending,
    Success,
    Failed,
}

/// The number a job state is stored as.
pub open spec fn status_number(s: JobStatus) -> i32 {
    match s {
        JobStatus::Pending => 0i32,
        JobStatus::Success => 1i32,
        JobStatus::Failed => 2i32,
    }
}

impl JobStatus {
    /// The number the state is stored as.
    pub fn number(self) -> (r: i32)
        ensures
            r == status_number(self),
    {
        match self {
            JobStatus::Pending => 0,
            JobStatus::Success => 1,
            JobStatus::Failed => 2,
        }
    }

    /// The state stored as `number`, if any.
    pub fn from_number(number: i32) -> (r: Option<JobStatus>)
        ensures
            match r {
                Some(s) => status_number(s) == number,
                None => !(0 <= number <= 2),
            },
    {
        if number == 0 {
            Some(JobStatus::Pending)
        } else if number == 1 {
            Some(JobStatus::Success)
        } else if number == 2 {
            Some(JobStatus::Failed)
        } else {
            None
        }
    }
}

} // verus!
