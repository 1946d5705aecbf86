//! The health check endpoint.

use crate::status::StatusCode;
use vstd::prelude::*;

verus! {

/// The path the health check is served under.
pub const HEALTH_CHECK_PATH: &'static str = "/health_check";

/// The status the health check answers with: 200 OK, the service being up.
pub fn health_check() -> (s: StatusCode)
    ensures
        s@ == 200,
{
    StatusCode::new(200)
}

} // verus!
