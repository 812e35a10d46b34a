use vstd::prelude::*;

verus! {

/// The largest distance from the Unix epoch, in nanoseconds, of a time that
/// the `time` crate holds, with room to spare: its dates span at most the
/// years -999999 to 999999.
pub const TIME_BOUND_NANOS: i128 = 100_000_000_000_000_000_000_000;

/// The current time, from `time::OffsetDateTime::now_utc`, as nanoseconds
/// since the Unix epoch (`unix_timestamp_nanos`). The clock decides the
/// value; all that is claimed is that it lies within the range of dates the
/// crate can hold.
#[verifier::external_body]
pub(crate) fn now_unix_nanos() -> (r: i128)
    ensures
        -TIME_BOUND_NANOS <= r <= TIME_BOUND_NANOS,
{
    ::time::OffsetDateTime::now_utc().unix_timestamp_nanos()
}

/// A random identifier from `uuid::Uuid::new_v4`, as its big-endian 128-bit
/// value (`as_u128`). The random bits are left unsaid; the version field
/// always reads 4 and the variant field the RFC 4122 variant, as `new_v4`
/// sets them.
#[verifier::external_body]
pub(crate) fn new_random_id() -> (r: u128)
    ensures
        (r >> 76u128) & 0xfu128 == 4,
        (r >> 62u128) & 3u128 == 2,
{
    ::uuid::Uuid::new_v4().as_u128()
}

} // verus!
