//! Wrappers for Neos IDs.
//!
//! Wrapping the IDs in types of their own keeps IDs of different kinds from
//! being compared or passed for one another. Each kind is written with a
//! prefix of its own, and a value of an ID type always starts with it.
//!
//! The IDs seem to be handled as case-sensitive, so any normalized versions
//! are represented as strings instead of IDs.

use crate::text::starts_with;
use vstd::prelude::*;
use vstd::std_specs::convert::FromSpecImpl;
use vstd::std_specs::convert::TryFromSpecImpl;
use vstd::string::*;

verus! {

/// The prefix of every user ID.
pub open spec fn user_prefix() -> Seq<char> {
    seq!['U', '-']
}

/// An ID of a Neos user (`U-{id}`)
#[derive(Debug, PartialEq, Eq)]
pub struct User(String);

impl View for User {
    type V = Seq<char>;

    closed spec fn view(&self) -> Seq<char> {
        self.0@
    }
}

impl User {
    #[verifier::type_invariant]
    spec fn well_formed(self) -> bool {
        user_prefix().is_prefix_of(self.0@)
    }
}

impl Clone for User {
    fn clone(&self) -> (r: Self)
        ensures
            r@ == self@,
    {
        proof {
            use_type_invariant(self);
        }
        User(self.0.clone())
    }
}

impl AsRef<str> for User {
    /// The whole ID, prefix included.
    fn as_ref(&self) -> (r: &str)
        ensures
            r@ == self@,
            user_prefix().is_prefix_of(r@),
    {
        proof {
            use_type_invariant(self);
        }
        self.0.as_str()
    }
}

impl TryFrom<String> for User {
    type Error = &'static str;

    /// Accepts a text as an ID exactly when it starts with `U-`.
    fn try_from(v: String) -> (r: Result<Self, &'static str>)
        ensures
            r is Ok <==> user_prefix().is_prefix_of(v@),
            r matches Ok(id) ==> id@ == v@,
            r matches Err(why) ==> why@ == "should start with `U-`"@,
    {
        proof {
            reveal_strlit("U-");
        }
        assert("U-"@ =~= user_prefix());
        if !starts_with(v.as_str(), "U-") {
            return Err("should start with `U-`");
        }
        Ok(User(v))
    }
}

impl TryFromSpecImpl<String> for User {
    open spec fn obeys_try_from_spec() -> bool {
        true
    }

    closed spec fn try_from_spec(v: String) -> Result<Self, &'static str> {
        if user_prefix().is_prefix_of(v@) {
            Ok(User(v))
        } else {
            Err("should start with `U-`")
        }
    }
}

impl From<User> for String {
    fn from(id: User) -> (r: String)
        ensures
            r@ == id@,
    {
        id.0
    }
}

impl FromSpecImpl<User> for String {
    open spec fn obeys_from_spec() -> bool {
        true
    }

    closed spec fn from_spec(id: User) -> String {
        id.0
    }
}

impl From<User> for Any {
    fn from(id: User) -> (r: Any)
        ensures
            r == Any::User(id),
    {
        Any::User(id)
    }
}

impl FromSpecImpl<User> for Any {
    open spec fn obeys_from_spec() -> bool {
        true
    }

    open spec fn from_spec(id: User) -> Any {
        Any::User(id)
    }
}

/// The prefix of every group ID.
pub open spec fn group_prefix() -> Seq<char> {
    seq!['G', '-']
}

/// An ID of a Neos group (`G-{id}`)
#[derive(Debug, PartialEq, Eq)]
pub struct Group(String);

impl View for Group {
    type V = Seq<char>;

    closed spec fn view(&self) -> Seq<char> {
        self.0@
    }
}

impl Group {
    #[verifier::type_invariant]
    spec fn well_formed(self) -> bool {
        group_prefix().is_prefix_of(self.0@)
    }
}

impl Clone for Group {
    fn clone(&self) -> (r: Self)
        ensures
            r@ == self@,
    {
        proof {
            use_type_invariant(self);
        }
        Group(self.0.clone())
    }
}

impl AsRef<str> for Group {
    /// The whole ID, prefix included.
    fn as_ref(&self) -> (r: &str)
        ensures
            r@ == self@,
            group_prefix().is_prefix_of(r@),
    {
        proof {
            use_type_invariant(self);
        }
        self.0.as_str()
    }
}

impl TryFrom<String> for Group {
    type Error = &'static str;

    /// Accepts a text as an ID exactly when it starts with `G-`.
    fn try_from(v: String) -> (r: Result<Self, &'static str>)
        ensures
            r is Ok <==> group_prefix().is_prefix_of(v@),
            r matches Ok(id) ==> id@ == v@,
            r matches Err(why) ==> why@ == "should start with `G-`"@,
    {
        proof {
            reveal_strlit("G-");
        }
        assert("G-"@ =~= group_prefix());
        if !starts_with(v.as_str(), "G-") {
            return Err("should start with `G-`");
        }
        Ok(Group(v))
    }
}

impl TryFromSpecImpl<String> for Group {
    open spec fn obeys_try_from_spec() -> bool {
        true
    }

    closed spec fn try_from_spec(v: String) -> Result<Self, &'static str> {
        if group_prefix().is_prefix_of(v@) {
            Ok(Group(v))
        } else {
            Err("should start with `G-`")
        }
    }
}

impl From<Group> for String {
    fn from(id: Group) -> (r: String)
        ensures
            r@ == id@,
    {
        id.0
    }
}

impl FromSpecImpl<Group> for String {
    open spec fn obeys_from_spec() -> bool {
        true
    }

    closed spec fn from_spec(id: Group) -> String {
        id.0
    }
}

impl From<Group> for Any {
    fn from(id: Group) -> (r: Any)
        ensures
            r == Any::Group(id),
    {
        Any::Group(id)
    }
}

impl FromSpecImpl<Group> for Any {
    open spec fn obeys_from_spec() -> bool {
        true
    }

    open spec fn from_spec(id: Group) -> Any {
        Any::Group(id)
    }
}

/// The prefix of every session ID.
pub open spec fn session_prefix() -> Seq<char> {
    seq!['S', '-']
}

/// An ID of a Neos session (`S-{id}`)
#[derive(Debug, PartialEq, Eq)]
pub struct Session(String);

impl View for Session {
    type V = Seq<char>;

    closed spec fn view(&self) -> Seq<char> {
        self.0@
    }
}

impl Session {
    #[verifier::type_invariant]
    spec fn well_formed(self) -> bool {
        session_prefix().is_prefix_of(self.0@)
    }
}

impl Clone for Session {
    fn clone(&self) -> (r: Self)
        ensures
            r@ == self@,
    {
        proof {
            use_type_invariant(self);
        }
        Session(self.0.clone())
    }
}

impl AsRef<str> for Session {
    /// The whole ID, prefix included.
    fn as_ref(&self) -> (r: &str)
        ensures
            r@ == self@,
            session_prefix().is_prefix_of(r@),
    {
        proof {
            use_type_invariant(self);
        }
        self.0.as_str()
    }
}

impl TryFrom<String> for Session {
    type Error = &'static str;

    /// Accepts a text as an ID exactly when it starts with `S-`.
    fn try_from(v: String) -> (r: Result<Self, &'static str>)
        ensures
            r is Ok <==> session_prefix().is_prefix_of(v@),
            r matches Ok(id) ==> id@ == v@,
            r matches Err(why) ==> why@ == "should start with `S-`"@,
    {
        proof {
            reveal_strlit("S-");
        }
        assert("S-"@ =~= session_prefix());
        if !starts_with(v.as_str(), "S-") {
            return Err("should start with `S-`");
        }
        Ok(Session(v))
    }
}

impl TryFromSpecImpl<String> for Session {
    open spec fn obeys_try_from_spec() -> bool {
        true
    }

    closed spec fn try_from_spec(v: String) -> Result<Self, &'static str> {
        if session_prefix().is_prefix_of(v@) {
            Ok(Session(v))
        } else {
            Err("should start with `S-`")
        }
    }
}

impl From<Session> for String {
    fn from(id: Session) -> (r: String)
        ensures
            r@ == id@,
    {
        id.0
    }
}

impl FromSpecImpl<Session> for String {
    open spec fn obeys_from_spec() -> bool {
        true
    }

    closed spec fn from_spec(id: Session) -> String {
        id.0
    }
}

impl From<Session> for Any {
    fn from(id: Session) -> (r: Any)
        ensures
            r == Any::Session(id),
    {
        Any::Session(id)
    }
}

impl FromSpecImpl<Session> for Any {
    open spec fn obeys_from_spec() -> bool {
        true
    }

    open spec fn from_spec(id: Session) -> Any {
        Any::Session(id)
    }
}

/// The prefix of every record ID.
pub open spec fn record_prefix() -> Seq<char> {
    seq!['R', '-']
}

/// An ID of a Neos record (`R-{id}`)
#[derive(Debug, PartialEq, Eq)]
pub struct Record(String);

impl View for Record {
    type V = Seq<char>;

    closed spec fn view(&self) -> Seq<char> {
        self.0@
    }
}

impl Record {
    #[verifier::type_invariant]
    spec fn well_formed(self) -> bool {
        record_prefix().is_prefix_of(self.0@)
    }
}

impl Clone for Record {
    fn clone(&self) -> (r: Self)
        ensures
            r@ == self@,
    {
        proof {
            use_type_invariant(self);
        }
        Record(self.0.clone())
    }
}

impl AsRef<str> for Record {
    /// The whole ID, prefix included.
    fn as_ref(&self) -> (r: &str)
        ensures
            r@ == self@,
            record_prefix().is_prefix_of(r@),
    {
        proof {
            use_type_invariant(self);
        }
        self.0.as_str()
    }
}

impl TryFrom<String> for Record {
    type Error = &'static str;

    /// Accepts a text as an ID exactly when it starts with `R-`.
    fn try_from(v: String) -> (r: Result<Self, &'static str>)
        ensures
            r is Ok <==> record_prefix().is_prefix_of(v@),
            r matches Ok(id) ==> id@ == v@,
            r matches Err(why) ==> why@ == "should start with `R-`"@,
    {
        proof {
            reveal_strlit("R-");
        }
        assert("R-"@ =~= record_prefix());
        if !starts_with(v.as_str(), "R-") {
            return Err("should start with `R-`");
        }
        Ok(Record(v))
    }
}

impl TryFromSpecImpl<String> for Record {
    open spec fn obeys_try_from_spec() -> bool {
        true
    }

    closed spec fn try_from_spec(v: String) -> Result<Self, &'static str> {
        if record_prefix().is_prefix_of(v@) {
            Ok(Record(v))
        } else {
            Err("should start with `R-`")
        }
    }
}

impl From<Record> for String {
    fn from(id: Record) -> (r: String)
        ensures
            r@ == id@,
    {
        id.0
    }
}

impl FromSpecImpl<Record> for String {
    open spec fn obeys_from_spec() -> bool {
        true
    }

    closed spec fn from_spec(id: Record) -> String {
        id.0
    }
}

impl From<Record> for Any {
    fn from(id: Record) -> (r: Any)
        ensures
            r == Any::Record(id),
    {
        Any::Record(id)
    }
}

impl FromSpecImpl<Record> for Any {
    open spec fn obeys_from_spec() -> bool {
        true
    }

    open spec fn from_spec(id: Record) -> Any {
        Any::Record(id)
    }
}

/// Any of the Neos IDs
#[derive(Debug, Clone, PartialEq, Eq)]
pub enum Any {
    /// An user ID
    User(User),
    /// A group ID
    Group(Group),
    /// A session ID
    Session(Session),
    /// A record ID
    Record(Record),
}

impl AsRef<str> for Any {
    /// The whole ID, prefix included.
    fn as_ref(&self) -> (r: &str)
        ensures
            r@ == (match self {
                Any::User(id) => id@,
                Any::Group(id) => id@,
                Any::Session(id) => id@,
                Any::Record(id) => id@,
            }),
    {
        match self {
            Any::User(id) => id.as_ref(),
            Any::Group(id) => id.as_ref(),
            Any::Session(id) => id.as_ref(),
            Any::Record(id) => id.as_ref(),
        }
    }
}

/// Neos IDs that can own records for example
#[derive(Debug, Clone, PartialEq, Eq)]
pub enum Owner {
    /// An user ID
    User(User),
    /// A group ID
    Group(Group),
}

impl AsRef<str> for Owner {
    /// The whole ID, prefix included.
    fn as_ref(&self) -> (r: &str)
        ensures
            r@ == (match self {
                Owner::User(id) => id@,
                Owner::Group(id) => id@,
            }),
    {
        match self {
            Owner::User(id) => id.as_ref(),
            Owner::Group(id) => id.as_ref(),
        }
    }
}

impl From<User> for Owner {
    fn from(user: User) -> (r: Owner)
        ensures
            r == Owner::User(user),
    {
        Owner::User(user)
    }
}

impl FromSpecImpl<User> for Owner {
    open spec fn obeys_from_spec() -> bool {
        true
    }

    open spec fn from_spec(user: User) -> Owner {
        Owner::User(user)
    }
}

impl From<Group> for Owner {
    fn from(group: Group) -> (r: Owner)
        ensures
            r == Owner::Group(group),
    {
        Owner::Group(group)
    }
}

impl FromSpecImpl<Group> for Owner {
    open spec fn obeys_from_spec() -> bool {
        true
    }

    open spec fn from_spec(group: Group) -> Owner {
        Owner::Group(group)
    }
}

} // verus!
