use super::{NoAuthentication, API_BASE_URI};
use vstd::prelude::*;
use vstd::string::*;

verus! {

/// Gets details of a group
#[derive(Clone, PartialEq, Eq)]
pub struct GroupInfo {
    /// The ID of the group to query information about
    pub group_id: crate::id::Group,
}

impl GroupInfo {
    /// Creates a new group info query
    pub fn new(group_id: impl Into<crate::id::Group>) -> (r: Self)
        ensures
            call_ensures(Into::<crate::id::Group>::into, (group_id,), r.group_id),
    {
        GroupInfo { group_id: group_id.into() }
    }

    pub fn url(&self, _state: &NoAuthentication) -> (r: String)
        ensures
            r@ == API_BASE_URI@ + "/groups/"@ + self.group_id@,
    {
        let mut r = String::from_str(API_BASE_URI);
        r.append("/groups/");
        r.append(self.group_id.as_ref());
        r
    }
}

} // verus!
