use crate::clock::WallTime;
use vstd::prelude::*;

verus! {

/// Details about a Neos stored asset
#[derive(Debug, Clone, PartialEq, Eq, Hash)]
pub struct NeosDBAsset {
    /// The hash of the asset
    pub hash: String,
    /// How large the asset is
    pub bytes: u64,
}

/// A generic Neos record, used for storage related things.
#[derive(Debug, Clone, PartialEq, Eq)]
pub struct RecordId {
    /// The ID of the record (`R-{uuid}` for example)
    pub id: crate::id::Record,
    /// The ID of the owner (`U-{uuid}` or `G-{uuid}` for example)
    pub owner_id: crate::id::Owner,
}

/// A Neos record's submission to a group
#[derive(Debug, Clone, PartialEq, Eq)]
pub struct Submission {
    /// The id of the submission
    pub id: String,
    /// The group that this submission is to
    pub owner_id: crate::id::Group,
    /// The id of the record that this submission is for
    pub target_record_id: crate::id::Record,
    /// When the submission was created
    pub submission_time: WallTime,
    /// The ID of the user that created the submission
    pub submitted_by_id: crate::id::User,
    /// The name of the submitter
    pub submitted_by_name: String,
    /// If the submission should be featured or not
    pub featured: bool,
    /// The ID of the user that enabled featuring this submission
    pub featured_by_user_id: Option<crate::id::User>,
    /// When featuring this submission was enabled
    pub featured_time: Option<WallTime>,
}

/// Details about a Neos group.
///
/// The response from the API at `groups/{group_id}`.
#[derive(Debug, Clone, PartialEq, Eq)]
pub struct Group {
    /// The G-groupname form of ID
    pub id: crate::id::Group,
    /// The U-username form of ID
    pub admin_id: crate::id::User,
    /// The name of the group
    pub name: String,
    /// How much large is the group's storage quota.
    pub quota_bytes: u64,
    /// How much storage quota the group has used.
    pub used_bytes: u64,
}

} // verus!
