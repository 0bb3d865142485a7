use vstd::prelude::*;

verus! {

/// Relies on chrono's `Utc::now` and the `Display` of `DateTime<Utc>`:
/// the current civil time in UTC, printed as text. The clock decides the
/// value, so nothing is promised of it beyond being non-empty (the
/// printed form always holds a date, a time and an offset).
#[verifier::external_body]
pub(crate) fn now_timestamp() -> (r: String)
    ensures
        r@.len() > 0,
{
    chrono::Utc::now().to_string()
}

} // verus!
