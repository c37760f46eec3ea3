//! Top-level error reported when one reconciliation cycle fails.

use vstd::prelude::*;

verus! {

/// Error carried out of a failed cycle: a plain human-readable message.
#[derive(Debug)]
pub struct AppError {
    pub message: String,
}

impl AppError {
    pub fn new(message: String) -> (r: AppError)
        ensures
            r.message@ == message@,
    {
        AppError { message }
    }
}

} // verus!
