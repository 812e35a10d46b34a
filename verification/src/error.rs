use crate::aggregator::ConfigFetchError;
use crate::task::TaskProvisioningError;
use crate::validation::ValidationErrors;
use vstd::prelude::*;

verus! {

/// Why an operation of the service failed.
#[derive(Debug)]
pub enum ServiceError {
    /// The request broke the listed rules.
    Validation(ValidationErrors),
    /// A secret could not be sealed or opened.
    Encryption(::aes_gcm::Error),
    /// Bytes that should have been text were not UTF-8.
    Utf8,
    /// An aggregator answered differently from what was asked.
    TaskProvisioning(TaskProvisioningError),
    /// A number did not fit the type it is stored as.
    NumericConversion,
    /// A time was outside the range that can be held.
    TimeRange,
    /// An aggregator's API could not be asked for what was needed.
    AggregatorApi(ConfigFetchError),
}

} // verus!
