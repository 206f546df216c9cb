use super::{Authentication, NoAuthentication, RequestMethod, API_BASE_URI};
use crate::json::{member_pairs, object_text, write_object, Json, JsonView, Member};
use vstd::prelude::*;
use vstd::string::*;

verus! {

/// An identifier to use when requesting a session from the Neos API.
///
/// Used when logging in for example in
/// [`LoginCredentials`](LoginCredentials::identifier).
#[derive(Debug, Clone, PartialEq, Eq, Hash)]
pub enum LoginCredentialsIdentifier {
    /// Identify using the username
    Username(String),
    /// Identify using the user's ID
    OwnerID(String),
    /// Identify using an email address
    Email(String),
}

impl View for LoginCredentialsIdentifier {
    type V = Seq<char>;

    /// The text that identifies the account.
    open spec fn view(&self) -> Seq<char> {
        match self {
            LoginCredentialsIdentifier::Username(s) => s@,
            LoginCredentialsIdentifier::OwnerID(s) => s@,
            LoginCredentialsIdentifier::Email(s) => s@,
        }
    }
}

impl LoginCredentialsIdentifier {
    /// Gets the inner string
    #[must_use]
    pub fn inner(&self) -> (r: &String)
        ensures
            r@ == self@,
    {
        match self {
            LoginCredentialsIdentifier::Username(s) => s,
            LoginCredentialsIdentifier::Email(s) => s,
            LoginCredentialsIdentifier::OwnerID(s) => s,
        }
    }

    /// The same kind of identifier with another text.
    pub open spec fn with_inner(self, text: String) -> Self {
        match self {
            LoginCredentialsIdentifier::Username(_) => LoginCredentialsIdentifier::Username(text),
            LoginCredentialsIdentifier::OwnerID(_) => LoginCredentialsIdentifier::OwnerID(text),
            LoginCredentialsIdentifier::Email(_) => LoginCredentialsIdentifier::Email(text),
        }
    }

    /// Gets the inner string, to change it in place
    #[must_use]
    pub fn inner_mut(&mut self) -> (r: &mut String)
        ensures
            r@ == old(self)@,
            *final(self) == old(self).with_inner(*final(r)),
    {
        match self {
            LoginCredentialsIdentifier::Username(s) => s,
            LoginCredentialsIdentifier::Email(s) => s,
            LoginCredentialsIdentifier::OwnerID(s) => s,
        }
    }

    /// If is username
    #[must_use]
    pub fn is_username(&self) -> (r: bool)
        ensures
            r == (self is Username),
    {
        matches!(self, LoginCredentialsIdentifier::Username(_))
    }

    /// If is email based
    #[must_use]
    pub fn is_email(&self) -> (r: bool)
        ensures
            r == (self is Email),
    {
        matches!(self, LoginCredentialsIdentifier::Email(_))
    }

    /// If is owner's ID based
    #[must_use]
    pub fn is_ownerid(&self) -> (r: bool)
        ensures
            r == (self is OwnerID),
    {
        matches!(self, LoginCredentialsIdentifier::OwnerID(_))
    }

    /// The key under which the identifier is sent.
    pub open spec fn key_of(&self) -> Seq<char> {
        match self {
            LoginCredentialsIdentifier::Username(_) => "username"@,
            LoginCredentialsIdentifier::OwnerID(_) => "ownerID"@,
            LoginCredentialsIdentifier::Email(_) => "email"@,
        }
    }

    /// The key under which the identifier is sent.
    pub fn key(&self) -> (r: &'static str)
        ensures
            r@ == self.key_of(),
    {
        match self {
            LoginCredentialsIdentifier::Username(_) => "username",
            LoginCredentialsIdentifier::OwnerID(_) => "ownerID",
            LoginCredentialsIdentifier::Email(_) => "email",
        }
    }
}

/// Data for a user session request to Neos' API.
#[derive(Clone, PartialEq, Eq, Hash)]
pub struct LoginCredentials {
    /// The way to identify the user account the request is for
    pub identifier: LoginCredentialsIdentifier,
    /// The password of the account
    pub password: String,
    /// Two factor authenticator code, if such is required
    pub totp: Option<String>,
    /// A secret machine ID for the session.
    ///
    /// Note that without this, the request will log out all other sessions if
    /// successful.
    pub secret_machine_id: Option<String>,
    /// If the session should be remembered. Meaning it'll last for a longer
    /// time.
    pub remember_me: bool,
}

/// How an optional text is written in a description.
pub open spec fn optional_text(text: Option<String>) -> Seq<char> {
    match text {
        Some(t) => "Some("@ + t@ + ")"@,
        None => "None"@,
    }
}

impl LoginCredentials {
    /// Creates a new instance of `LoginCredentials` with the identifier,
    /// password and other values set to defaults.
    #[must_use]
    pub fn new(identifier: impl Into<LoginCredentialsIdentifier>, password: impl Into<String>) -> (r:
        Self)
        ensures
            call_ensures(Into::<LoginCredentialsIdentifier>::into, (identifier,), r.identifier),
            call_ensures(Into::<String>::into, (password,), r.password),
            r.totp is None,
            r.secret_machine_id is None,
            !r.remember_me,
    {
        LoginCredentials {
            identifier: identifier.into(),
            password: password.into(),
            totp: None,
            secret_machine_id: None,
            remember_me: false,
        }
    }

    /// Sets the TOTP field's value
    #[must_use]
    pub fn totp(self, totp: impl Into<Option<String>>) -> (r: Self)
        ensures
            call_ensures(Into::<Option<String>>::into, (totp,), r.totp),
            r.identifier == self.identifier,
            r.password == self.password,
            r.secret_machine_id == self.secret_machine_id,
            r.remember_me == self.remember_me,
    {
        let mut r = self;
        r.totp = totp.into();
        r
    }

    /// Sets the secret machine ID field's value
    #[must_use]
    pub fn machine_id(self, machine_id: impl Into<Option<String>>) -> (r: Self)
        ensures
            call_ensures(Into::<Option<String>>::into, (machine_id,), r.secret_machine_id),
            r.identifier == self.identifier,
            r.password == self.password,
            r.totp == self.totp,
            r.remember_me == self.remember_me,
    {
        let mut r = self;
        r.secret_machine_id = machine_id.into();
        r
    }

    /// Sets the remember me field's value
    #[must_use]
    pub fn remember_me(self, remember_me: impl Into<bool>) -> (r: Self)
        ensures
            call_ensures(Into::<bool>::into, (remember_me,), r.remember_me),
            r.identifier == self.identifier,
            r.password == self.password,
            r.totp == self.totp,
            r.secret_machine_id == self.secret_machine_id,
    {
        let mut r = self;
        r.remember_me = remember_me.into();
        r
    }

    /// Sets the `machine_id` to a generated value: one that the caller has
    /// drawn at random. It need not be cryptographically safe.
    #[must_use]
    pub fn use_generated_machine_id(self, generated: String) -> (r: Self)
        ensures
            r.secret_machine_id == Some(generated),
            r.identifier == self.identifier,
            r.password == self.password,
            r.totp == self.totp,
            r.remember_me == self.remember_me,
    {
        let mut r = self;
        r.secret_machine_id = Some(generated);
        r
    }

    pub fn url(&self, _state: &NoAuthentication) -> (r: String)
        ensures
            r@ == API_BASE_URI@ + "/userSessions"@,
    {
        let mut r = String::from_str(API_BASE_URI);
        r.append("/userSessions");
        r
    }

    /// The members of the body, in the order in which they are written.
    pub open spec fn body_members(&self) -> Seq<(Seq<char>, JsonView)> {
        seq![
            (self.identifier.key_of(), JsonView::Text(self.identifier@)),
            ("password"@, JsonView::Text(self.password@)),
            (
                "totp"@,
                match self.totp {
                    Some(t) => JsonView::Text(t@),
                    None => JsonView::Null,
                },
            ),
            (
                "secretMachineId"@,
                match self.secret_machine_id {
                    Some(t) => JsonView::Text(t@),
                    None => JsonView::Null,
                },
            ),
            ("rememberMe"@, JsonView::Bool(self.remember_me)),
        ]
    }

    /// The body: the credentials as a JSON object. Fails, with the reason,
    /// exactly where the texts cannot be written as JSON.
    pub fn body(&self, _state: &NoAuthentication) -> (r: Option<Result<String, String>>)
        ensures
            match r {
                Some(Ok(text)) => object_text(self.body_members()) == Some(text@),
                Some(Err(_)) => object_text(self.body_members()) is None,
                None => false,
            },
    {
        let mut members: Vec<Member> = Vec::new();
        members.push(Member::new(self.identifier.key(), Json::Text(self.identifier.inner().clone())));
        members.push(Member::new("password", Json::Text(self.password.clone())));
        members.push(Member::new("totp", Json::optional_text(&self.totp)));
        members.push(Member::new("secretMachineId", Json::optional_text(&self.secret_machine_id)));
        members.push(Member::new("rememberMe", Json::Bool(self.remember_me)));
        assert(member_pairs(members@) =~= self.body_members());
        Some(write_object(&members))
    }

    pub fn method(&self, _state: &NoAuthentication) -> (r: RequestMethod)
        ensures
            r == RequestMethod::Post,
    {
        RequestMethod::Post
    }

    /// The description that is safe to log: the password is masked, and of
    /// the machine ID only its presence is told.
    pub open spec fn description(&self) -> Seq<char> {
        "LoginCredentials { identifier: "@ + self.identifier.key_of() + "("@ + self.identifier@
            + "), password: *****, totp: "@ + optional_text(self.totp) + ", secret_machine_id: "@
            + (if self.secret_machine_id is Some {
            "Some(*****)"@
        } else {
            "None"@
        }) + ", remember_me: "@ + (if self.remember_me {
            "true"@
        } else {
            "false"@
        }) + " }"@
    }

    /// Describes the credentials for logs, with the secrets masked.
    pub fn redacted(&self) -> (r: String)
        ensures
            r@ == self.description(),
    {
        let mut r = String::from_str("LoginCredentials { identifier: ");
        r.append(self.identifier.key());
        r.append("(");
        r.append(self.identifier.inner().as_str());
        r.append("), password: *****, totp: ");
        match &self.totp {
            Some(t) => {
                r.append("Some(");
                r.append(t.as_str());
                r.append(")");
            },
            None => r.append("None"),
        }
        r.append(", secret_machine_id: ");
        match &self.secret_machine_id {
            Some(_) => r.append("Some(*****)"),
            None => r.append("None"),
        }
        r.append(", remember_me: ");
        r.append(crate::text::bool_text(self.remember_me));
        r.append(" }");
        assert(r@ =~= self.description());
        r
    }
}

/// Tries to remove the current authentication session
pub struct DestroyUserSession;

impl DestroyUserSession {
    pub fn url(&self, auth: &Authentication) -> (r: String)
        ensures
            r@ == API_BASE_URI@ + "/userSessions/"@ + auth.user_id@,
    {
        let mut r = String::from_str(API_BASE_URI);
        r.append("/userSessions/");
        r.append(auth.user_id.as_ref());
        r
    }

    pub fn method(&self, _state: &Authentication) -> (r: RequestMethod)
        ensures
            r == RequestMethod::Delete,
    {
        RequestMethod::Delete
    }

    /// Whatever the answer holds, there is nothing to report.
    pub fn deserialize(&self, _data: &[u8]) -> (r: Result<(), String>)
        ensures
            r is Ok,
    {
        Ok(())
    }
}

/// Tries to make the current authentication session last longer
pub struct ExtendUserSession;

impl ExtendUserSession {
    pub fn url(&self, _state: &Authentication) -> (r: String)
        ensures
            r@ == API_BASE_URI@ + "/userSessions"@,
    {
        let mut r = String::from_str(API_BASE_URI);
        r.append("/userSessions");
        r
    }

    pub fn method(&self, _state: &Authentication) -> (r: RequestMethod)
        ensures
            r == RequestMethod::Patch,
    {
        RequestMethod::Patch
    }

    /// Whatever the answer holds, there is nothing to report.
    pub fn deserialize(&self, _data: &[u8]) -> (r: Result<(), String>)
        ensures
            r is Ok,
    {
        Ok(())
    }
}

} // verus!
