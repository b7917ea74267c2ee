//! The liveness probe.

use vstd::prelude::*;

verus! {

/// Answers liveness checks; it holds no state.
pub struct HealthService;

impl HealthService {
    pub fn new() -> (s: HealthService) {
        HealthService
    }

    /// Reports that the service is up. It never fails.
    pub fn check_health(&self) -> (r: Result<String, &'static str>)
        ensures
            r is Ok,
            (r matches Ok(m) ==> m@ == "Everything is working fine"@),
    {
        Ok(String::from_str("Everything is working fine"))
    }
}

} // verus!
