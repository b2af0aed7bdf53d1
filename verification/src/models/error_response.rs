use vstd::prelude::*;

verus! {

/// Body of an error response.
#[derive(Debug)]
pub struct ErrorResponse {
    pub status_code: u16,
    pub error_message: String,
}

} // verus!
