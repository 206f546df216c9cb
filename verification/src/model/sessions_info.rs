use super::{RecordId, SessionAccessLevel, SessionUser};
use crate::assets::AssetUrl;
use crate::clock::WallTime;
use vstd::prelude::*;
use vstd::string::*;

verus! {

/// A Neos session.
#[derive(Debug, Clone, PartialEq, Eq)]
pub struct SessionInfo {
    /// The name of the session
    pub name: String,
    /// The description of the session
    ///
    /// An empty string if the API returns none for the session.
    pub description: String,
    /// The ID of the session's world
    pub world: Option<RecordId>,
    /// The tags of the session
    pub tags: Vec<String>,
    /// The ID of the session (`S-{uuid}` for example)
    pub id: crate::id::Session,
    /// Normalized (capitalization) version of the session's id (`s-{uuid}` for
    /// example)
    pub normalized_id: String,
    /// The ID of the session's host (`U-{uuid}` for example)
    pub host_id: Option<crate::id::User>,
    /// The ID of the session's host's machine (`{uuid}`)
    pub host_machine_id: String,
    /// The username of the session's host
    pub host_username: String,
    /// A hash to check if the session is compatible (version, plugins, etc)
    pub compatibility_hash: String,
    /// The version of Neos that session is hosting
    pub neos_version: String,
    /// If the host is a headless (server) instance or not.
    pub is_headless_host: bool,
    /// Links to the session, in custom protocols such as `lnl-nat:///` and
    /// `neos-steam://`
    pub urls: Vec<String>,
    /// A list of the session's users very basic details.
    pub users: Vec<SessionUser>,
    /// A link to the thumbnail of the session.
    ///
    /// Can be `https://` or `neosdb://` for example
    pub thumbnail: Option<AssetUrl>,
    /// The amount of users that have joined the session
    pub joined_users: u8,
    /// The amount of users that are focused on the session
    pub active_users: u8,
    /// Total of `joined_users`..?
    pub total_joined_users: u8,
    /// Total of `active_users`...?
    pub total_active_users: u8,
    /// The max limit of users in the session
    pub max_users: u8,
    /// If the session is suitable for mobile clients
    pub is_mobile_friendly: bool,
    /// When the session began
    pub session_begin_time: WallTime,
    /// When the session was last updated
    pub last_update_time: WallTime,
    /// Since when has the host been away most likely
    pub away_since: Option<WallTime>,
    /// Who can access the session
    pub access_level: SessionAccessLevel,
    /// If the session has ended
    pub has_ended: bool,
    /// If the session is valid
    pub is_valid: bool,
    /// Sessions that this session is a child of
    pub parent_session_ids: Vec<crate::id::Session>,
    /// Sessions that are the child of this session
    pub nested_session_ids: Vec<crate::id::Session>,
}

/// What to take a session for where the API does not say whether it has
/// ended: it probably has.
pub fn has_ended_default() -> (r: bool)
    ensures
        r,
{
    true
}

/// The positions of a character in a text, in rising order.
pub open spec fn positions_of(s: Seq<char>, c: char) -> Seq<int>
    decreases s.len(),
{
    if s.len() == 0 {
        Seq::empty()
    } else if s.last() == c {
        positions_of(s.drop_last(), c).push(s.len() - 1)
    } else {
        positions_of(s.drop_last(), c)
    }
}

/// A text without the characters from `from` up to, not including, `to`.
/// Nothing goes where `from` lies past the end, and no more than there is.
pub open spec fn without_range(s: Seq<char>, from: int, to: int) -> Seq<char> {
    if 0 <= from < s.len() && from < to {
        s.take(from) + s.skip(if to < s.len() {
            to
        } else {
            s.len() as int
        })
    } else {
        s
    }
}

/// Strips a text of the ranges that pairs of positions bound, the last pair
/// first. A pair bounds a range only where its start lies before its end.
pub open spec fn strip_pairs(s: Seq<char>, starts: Seq<int>, ends: Seq<int>) -> Seq<char>
    decreases starts.len(),
{
    if starts.len() == 0 || ends.len() == 0 {
        s
    } else {
        let next = if starts.last() < ends.last() {
            without_range(s, starts.last(), ends.last() + 1)
        } else {
            s
        };
        strip_pairs(next, starts.drop_last(), ends.drop_last())
    }
}

/// A text stripped of what looks like tags. The last `<` is paired with the
/// last `>`, the one before with the one before, and so on; whatever a pair
/// bounds in the text as it is by then goes, the brackets included.
pub open spec fn stripped(s: Seq<char>) -> Seq<char> {
    strip_pairs(s, positions_of(s, '<'), positions_of(s, '>'))
}

/// Collects the positions of a character in a text.
fn find_positions(s: &str, c: char) -> (r: Vec<usize>)
    ensures
        r@.map_values(|i: usize| i as int) == positions_of(s@, c),
        forall|k: int| 0 <= k < r.len() ==> r[k] < s@.len(),
{
    let n: usize = s.unicode_len();
    let mut found: Vec<usize> = Vec::new();
    let mut i: usize = 0;
    assert(s@.take(0).len() == 0);
    while i < n
        invariant
            n == s@.len(),
            i <= n,
            found@.map_values(|i: usize| i as int) == positions_of(s@.take(i as int), c),
            forall|k: int| 0 <= k < found.len() ==> found[k] < s@.len(),
        decreases n - i,
    {
        let ghost head = s@.take(i + 1);
        assert(head.drop_last() == s@.take(i as int));
        assert(head.last() == s@[i as int]);
        if s.get_char(i) == c {
            let ghost before = found@;
            found.push(i);
            assert(found@.map_values(|i: usize| i as int) =~= before.map_values(
                |i: usize| i as int,
            ).push(i as int));
        }
        i += 1;
    }
    assert(s@.take(n as int) == s@);
    found
}

/// Tries to strip XML tags out of a string.
///
/// Not using an actual XML parser though, just a simple `<` and `>` character
/// search.
#[must_use]
pub fn bad_xml_strip(str: &str) -> (r: String)
    ensures
        r@ == stripped(str@),
{
    let starts = find_positions(str, '<');
    let ends = find_positions(str, '>');
    let ghost all_starts = positions_of(str@, '<');
    let ghost all_ends = positions_of(str@, '>');
    let mut stripped_name = String::from_str(str);
    let total: usize = str.unicode_len();
    let mut i: usize = starts.len();
    let mut j: usize = ends.len();
    assert(all_starts.take(i as int) == all_starts);
    assert(all_ends.take(j as int) == all_ends);
    while i > 0 && j > 0
        invariant
            i <= starts.len(),
            j <= ends.len(),
            total == str@.len(),
            all_starts == starts@.map_values(|i: usize| i as int),
            all_ends == ends@.map_values(|i: usize| i as int),
            forall|k: int| 0 <= k < ends.len() ==> ends[k] < str@.len(),
            strip_pairs(stripped_name@, all_starts.take(i as int), all_ends.take(j as int))
                == stripped(str@),
        decreases i,
    {
        let start: usize = starts[i - 1];
        let end: usize = ends[j - 1];
        proof {
            let s_now = all_starts.take(i as int);
            let e_now = all_ends.take(j as int);
            assert(s_now.last() == start);
            assert(e_now.last() == end);
            assert(s_now.drop_last() == all_starts.take(i - 1));
            assert(e_now.drop_last() == all_ends.take(j - 1));
        }
        if start < end {
            let len: usize = stripped_name.as_str().unicode_len();
            if start < len {
                let to: usize = if end + 1 < len {
                    end + 1
                } else {
                    len
                };
                let mut next = String::from_str(stripped_name.as_str().substring_char(0, start));
                next.append(stripped_name.as_str().substring_char(to, len));
                assert(next@ =~= without_range(stripped_name@, start as int, end + 1));
                stripped_name = next;
            }
        }
        i -= 1;
        j -= 1;
    }
    stripped_name
}

impl SessionInfo {
    /// Tries to remove the XML notation-like parts from a session's name.
    ///
    /// Note that this is imperfect and not using an actual XML parser to remain
    /// lightweight.
    #[must_use]
    pub fn stripped_name(&self) -> (r: String)
        ensures
            r@ == stripped(self.name@),
    {
        bad_xml_strip(self.name.as_str())
    }
}

} // verus!
