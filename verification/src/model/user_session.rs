use crate::clock::WallTime;
use crate::text::{i64_to_decimal, int_text, u64_to_decimal, decimal_text};
use vstd::prelude::*;
use vstd::string::*;

verus! {

/// The value of the `Authorization` header for a user and a token.
pub open spec fn auth_header_of(user_id: Seq<char>, token: Seq<char>) -> Seq<char> {
    "neos "@ + user_id + ":"@ + token
}

/// Writes the value of the `Authorization` header for a user and a token.
pub fn write_auth_header(user_id: &str, token: &str) -> (r: String)
    ensures
        r@ == auth_header_of(user_id@, token@),
{
    let mut r = String::from_str("neos ");
    r.append(user_id);
    r.append(":");
    r.append(token);
    r
}

/// How a point on the wall clock is written in a description: the seconds,
/// a dot, the nanoseconds.
pub open spec fn wall_time_text(at: WallTime) -> Seq<char> {
    int_text(at.secs as int) + "."@ + decimal_text(at.nanos as nat)
}

fn write_wall_time(out: &mut String, at: &WallTime)
    ensures
        final(out)@ == old(out)@ + wall_time_text(*at),
{
    let secs = i64_to_decimal(at.secs);
    let nanos = u64_to_decimal(at.nanos as u64);
    out.append(secs.as_str());
    out.append(".");
    out.append(nanos.as_str());
    assert(out@ =~= old(out)@ + wall_time_text(*at));
}

/// An users login/authorization session.
///
/// Not to be confused with a Neos session that's "an instance of a world".
/// This is the response to logging in for example.
///
/// The response from the API at POST `userSessions`.
#[derive(Clone, PartialEq, Eq)]
pub struct UserSession {
    /// The Neos user that this session is for
    pub user_id: crate::id::User,
    /// The secret token of this session
    pub token: String,
    /// When the user session was created
    pub creation_time: WallTime,
    /// When the user session is set to expire
    pub expiration: WallTime,
    /// If the user session has the remember me checked (lives longer)
    pub remember_me: bool,
    /// The IP address that created the user session
    ///
    /// Not found in standard CloudX models, an empty String if none.
    pub source_ip: String,
    /// A time-stamp of the session
    pub timestamp: WallTime,
    /// A standard etag, useful for caching
    ///
    /// Not found in standard CloudX models, an empty String if none.
    pub e_tag: String,
    /// Returned when creating a new session
    pub secret_machine_id: Option<String>,
}

impl UserSession {
    /// The `Authorization` header required to use this `UserSession`.
    pub fn auth_header(&self) -> (r: String)
        ensures
            r@ == auth_header_of(self.user_id@, self.token@),
    {
        write_auth_header(self.user_id.as_ref(), self.token.as_str())
    }

    /// The description of the session that is safe to log. It speaks of
    /// everything but the secrets: the token is masked, and of the machine
    /// ID only its presence is told.
    pub open spec fn description(&self) -> Seq<char> {
        "NeosUserSession { user_id: "@ + self.user_id@ + ", token: *****, secret_machine_id: "@ + (
        if self.secret_machine_id is Some {
            "Some(*****)"@
        } else {
            "None"@
        }) + ", creation_time: "@ + wall_time_text(self.creation_time) + ", expiration: "@
            + wall_time_text(self.expiration) + ", remember_me: "@ + (if self.remember_me {
            "true"@
        } else {
            "false"@
        }) + ", source_ip: "@ + self.source_ip@ + ", timestamp: "@ + wall_time_text(
            self.timestamp,
        ) + ", e_tag: "@ + self.e_tag@ + " }"@
    }

    /// Describes the session for logs, with the secrets masked.
    pub fn redacted(&self) -> (r: String)
        ensures
            r@ == self.description(),
    {
        let mut r = String::from_str("NeosUserSession { user_id: ");
        r.append(self.user_id.as_ref());
        r.append(", token: *****, secret_machine_id: ");
        match &self.secret_machine_id {
            Some(_) => r.append("Some(*****)"),
            None => r.append("None"),
        }
        r.append(", creation_time: ");
        write_wall_time(&mut r, &self.creation_time);
        r.append(", expiration: ");
        write_wall_time(&mut r, &self.expiration);
        r.append(", remember_me: ");
        r.append(crate::text::bool_text(self.remember_me));
        r.append(", source_ip: ");
        r.append(self.source_ip.as_str());
        r.append(", timestamp: ");
        write_wall_time(&mut r, &self.timestamp);
        r.append(", e_tag: ");
        r.append(self.e_tag.as_str());
        r.append(" }");
        assert(r@ =~= self.description());
        r
    }
}

/// Two sessions that differ in their secrets alone are described alike.
pub proof fn lemma_description_hides_secrets(a: UserSession, b: UserSession)
    requires
        a.user_id@ == b.user_id@,
        a.secret_machine_id is Some <==> b.secret_machine_id is Some,
        a.creation_time == b.creation_time,
        a.expiration == b.expiration,
        a.remember_me == b.remember_me,
        a.source_ip@ == b.source_ip@,
        a.timestamp == b.timestamp,
        a.e_tag@ == b.e_tag@,
    ensures
        a.description() == b.description(),
{
}

} // verus!
