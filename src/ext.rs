use vstd::prelude::*;

verus! {

/// Relies on uuid::Uuid::new_v4 and its `Display`, which writes the
/// hyphenated form: 36 characters.
#[verifier::external_body]
pub(crate) fn new_request_id() -> (r: String)
    ensures
        r@.len() == 36,
{
    uuid::Uuid::new_v4().to_string()
}

/// Relies on chrono::Utc::now and `DateTime::timestamp`: the current time
/// in whole seconds since the Unix epoch.
#[verifier::external_body]
pub(crate) fn now_timestamp() -> (r: i64) {
    chrono::Utc::now().timestamp()
}

/// Relies on std::time::Duration::from_secs.
#[verifier::external_body]
pub(crate) fn duration_from_secs(secs: u64) -> (r: std::time::Duration) {
    std::time::Duration::from_secs(secs)
}

/// Relies on std::time::Duration::from_millis.
#[verifier::external_body]
pub(crate) fn duration_from_millis(millis: u64) -> (r: std::time::Duration) {
    std::time::Duration::from_millis(millis)
}

/// Relies on std::time::Duration::as_millis: the whole milliseconds held.
#[verifier::external_body]
pub(crate) fn duration_millis(d: &std::time::Duration) -> (r: u128) {
    d.as_millis()
}

} // verus!
