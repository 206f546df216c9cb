//! Models of the responses of Neos' API.

mod friend_status;
mod message;
mod online_status;
mod output_device;
mod public_ban_type;
mod records;
mod session_access_level;
mod session_user;
mod sessions_info;
mod transaction_type;
mod user_session;
mod users;

pub use friend_status::FriendStatus;
pub use message::{Message, MessageContents};
pub use online_status::OnlineStatus;
pub use output_device::OutputDevice;
pub use public_ban_type::PublicBanType;
pub use records::{Group, NeosDBAsset, RecordId, Submission};
pub use session_access_level::SessionAccessLevel;
pub use session_user::{SessionUser, SessionUsers};
pub use sessions_info::{
    bad_xml_strip, has_ended_default, positions_of, strip_pairs, stripped, without_range,
    SessionInfo,
};
pub use transaction_type::TransactionType;
pub use user_session::{
    auth_header_of, lemma_description_hides_secrets, wall_time_text, write_auth_header,
    UserSession,
};
pub use users::{Friend, RSAParametersData, UserPatreonData, UserProfile, UserStatus};
