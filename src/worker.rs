use vstd::prelude::*;

verus! {

/// What one request came to.
pub enum WorkResult {
    /// A response arrived: its status code, how long it took in
    /// milliseconds, and the URL that finally answered.
    Success { status_code: u16, duration: u64, url: String },
    /// The request failed for a reason other than its timeout.
    Fail,
    /// The request ran out of time.
    TimeOut,
}

} // verus!
