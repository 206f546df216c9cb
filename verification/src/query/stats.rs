use super::{NoAuthentication, API_BASE_URI};
use vstd::prelude::*;
use vstd::string::*;

verus! {

/// Gets the amount of users that are online
pub struct OnlineUserCount;

impl OnlineUserCount {
    pub fn url(&self, _state: &NoAuthentication) -> (r: String)
        ensures
            r@ == API_BASE_URI@ + "/stats/onlineUsers"@,
    {
        let mut r = String::from_str(API_BASE_URI);
        r.append("/stats/onlineUsers");
        r
    }
}

/// Gets the amount of online instances
pub struct OnlineInstanceCount;

impl OnlineInstanceCount {
    pub fn url(&self, _state: &NoAuthentication) -> (r: String)
        ensures
            r@ == API_BASE_URI@ + "/stats/onlineInstances"@,
    {
        let mut r = String::from_str(API_BASE_URI);
        r.append("/stats/onlineInstances");
        r
    }
}

} // verus!
