//! The health check.

use vstd::prelude::*;

verus! {

/// The answer of the health check: status 200 and the text `Healthy`,
/// whatever the state of the storage.
pub fn health() -> (reply: (u16, &'static str))
    ensures
        reply.0 == 200,
        reply.1@ == "Healthy"@,
{
    (200, "Healthy")
}

} // verus!
