use vstd::prelude::*;

verus! {

/// Reads the wall clock through `std::time::SystemTime::now`, measured from
/// `UNIX_EPOCH` with `SystemTime::duration_since` and counted in whole seconds
/// with `Duration::as_secs`. `None` where the clock stands before the epoch
/// (the error of `duration_since`). Nothing is promised of the value: it is
/// whatever time the machine reports.
#[verifier::external_body]
pub(crate) fn epoch_seconds() -> (r: Option<u64>) {
    match std::time::SystemTime::now().duration_since(std::time::UNIX_EPOCH) {
        Ok(d) => Some(d.as_secs()),
        Err(_) => None,
    }
}

} // verus!
