use vstd::prelude::*;

verus! {

/// One request to make: the target and the seconds it may take.
pub struct Task {
    pub url: String,
    pub time_out: usize,
}

} // verus!
