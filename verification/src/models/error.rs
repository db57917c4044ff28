//! The error payload of the API.

use vstd::prelude::*;

verus! {

/// What the API reports in the body of a response whose status is outside
/// the success range.
#[derive(Debug)]
pub struct TabnewsError {
    pub name: String,
    pub message: String,
    pub action: String,
    pub status_code: u64,
    pub error_id: String,
    pub request_id: String,
    pub error_location_code: String,
}

} // verus!
