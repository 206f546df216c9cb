use super::{NoAuthentication, API_BASE_URI};
use vstd::prelude::*;
use vstd::string::*;

verus! {

/// Pings the API
pub struct Ping;

impl Ping {
    pub fn url(&self, _state: &NoAuthentication) -> (r: String)
        ensures
            r@ == API_BASE_URI@ + "/testing/ping"@,
    {
        let mut r = String::from_str(API_BASE_URI);
        r.append("/testing/ping");
        r
    }

    /// Whatever the answer holds, a ping has nothing to report.
    pub fn deserialize(&self, _data: &[u8]) -> (r: Result<(), String>)
        ensures
            r is Ok,
    {
        Ok(())
    }
}

} // verus!
