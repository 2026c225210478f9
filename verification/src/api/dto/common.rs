use vstd::prelude::*;


verus! {

/// The body of every error answer.
#[derive(Debug, Clone)]
pub struct ErrorResponse {
    pub code: String,
    pub message: String,
}

} // verus!
