use super::{OnlineStatus, OutputDevice, SessionAccessLevel, SessionInfo};
use crate::assets::AssetUrl;
use crate::clock::WallTime;
use vstd::prelude::*;

verus! {

/// A Neos users public RSA key pair...for... session authentication?
#[derive(Debug, Clone, PartialEq, Eq, Hash)]
pub struct RSAParametersData {
    /// The exponent component of the RSA public key
    pub exponent: String,
    /// The modulus component of the RSA public key
    pub modulus: String,
}

/// Partial profile of a Neos user.
#[derive(Debug, Clone, PartialEq, Eq, Hash)]
pub struct UserProfile {
    /// The URI seems to be in a Neos' own `neosdb://` format
    pub icon_url: Option<AssetUrl>,
    /// If the user has opted out of "NCR" or "KCR" for example.
    pub token_opt_out: Option<Vec<String>>,
}

/// Data about a Neos user's patreon subscription.
#[derive(Debug, Clone, PartialEq, Eq)]
pub struct UserPatreonData {
    /// If the user is current supporting Neos on Patreon
    pub is_patreon_supporter: bool,
    /// If the user has supported Neos on Patreon.
    pub has_supported: bool,
    /// Guess: If the user has donated enough to be a board member
    pub last_is_anorak: bool,
    /// The ID of the github issue that this user has set as their priority
    pub priority_issue: u32,
    /// Guess: The second last time when the user last activated their Patreon
    /// subscription
    pub last_plus_activation_time: Option<WallTime>,
    /// When the user last activated their Patreon subscription
    pub last_activation_time: Option<WallTime>,
}

/// A Neos user's or friend's status.
///
/// The response from the API at `users/{user_id}/status`.
#[derive(Debug, Clone, PartialEq, Eq)]
pub struct UserStatus {
    /// "Online" / "Offline" and so on
    pub online_status: OnlineStatus,
    /// When the user's status last changed
    pub last_status_change_time: Option<WallTime>,
    /// The id of the session that the user is currently in
    pub current_session_id: Option<crate::id::Session>,
    /// The access level of the session that the user is currently in
    pub current_session_access_level: SessionAccessLevel,
    /// If the session that the user is currently in is hidden
    pub is_current_session_hidden: bool,
    /// If the user is currently hosting a session
    pub is_current_hosting: bool,
    /// "Screen" or "VR" for example
    pub output_device: OutputDevice,
    /// Only seems to exist when the user is online
    pub compatibility_hash: Option<String>,
    /// Only seems to exist when the user is online
    pub neos_version: Option<String>,
    /// Only seems to exist when the user is online
    pub public_rsa_key: Option<RSAParametersData>,
    /// If the user is using a mobile client.
    pub is_mobile: bool,
    /// Only seems to exist when the user is online
    pub active_sessions: Vec<SessionInfo>,
}

/// Details about a friend/contact.
///
/// The response from the API at `users/{user_id}/friends`.
#[derive(Debug, Clone, PartialEq, Eq)]
pub struct Friend {
    /// The U-username form of ID
    pub id: crate::id::User,
    /// The actual username
    pub username: String,
    /// The status of the friendship
    pub friendship_status: String,
    /// If the friendship has been accepted
    pub is_accepted: bool,
    /// The status of the user
    pub status: UserStatus,
    /// The profile of the user
    pub profile: Option<UserProfile>,
    /// When the latest message with the friend was at.
    pub latest_message_time: Option<WallTime>,
    /// The U-username form of ID of whose friend the details are for.
    pub owner_id: crate::id::Owner,
}

} // verus!
