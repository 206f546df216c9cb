use super::OutputDevice;
use vstd::prelude::*;

verus! {

/// Short description of a session's user.
#[derive(Debug, Clone, PartialEq, Eq)]
pub struct SessionUser {
    /// The username of the user
    pub username: String,
    /// Almost always exists, but rarely inexplicably missing
    pub id: Option<crate::id::User>,
    /// If the user is focused on this session
    pub is_present: bool,
    /// The output device type of the user
    pub output_device: OutputDevice,
}

/// A list of a session's users
#[derive(Debug, Clone)]
pub struct SessionUsers(pub Vec<SessionUser>);

} // verus!
