use neos::clock::WallTime;
use neos::http::Method;
use neos::id::{Group, Session, User};
use neos::model::{Message, MessageContents, UserSession};
use neos::query::{
    Authentication, DestroyUserSession, ExtendUserSession, Friends, GroupInfo, LoginCredentials,
    LoginCredentialsIdentifier, Messages, NoAuthentication, OnlineInstanceCount, OnlineUserCount,
    Ping, RemoveFriend, RequestMethod, SessionInfo, Sessions, UserIdOrUsername, UserInfo,
    UserSearch, UserStatus,
};

fn auth() -> Authentication {
    Authentication { token: "tok".to_string(), user_id: User::try_from("U-me".to_string()).unwrap() }
}

#[test]
fn queries_without_authentication() {
    let state = NoAuthentication {};
    let base = "https://api.neos.com/api";
    assert_eq!(Ping.url(&state), format!("{base}/testing/ping"));
    assert_eq!(Ping.deserialize(b"anything"), Ok(()));
    assert_eq!(OnlineUserCount.url(&state), format!("{base}/stats/onlineUsers"));
    assert_eq!(OnlineInstanceCount.url(&state), format!("{base}/stats/onlineInstances"));
    assert_eq!(Sessions.url(&state), format!("{base}/sessions"));
    let session = Session::try_from("S-1".to_string()).unwrap();
    assert_eq!(SessionInfo::new(session).url(&state), format!("{base}/sessions/S-1"));
    let group = Group::try_from("G-Neos".to_string()).unwrap();
    assert_eq!(GroupInfo::new(group).url(&state), format!("{base}/groups/G-Neos"));
    let user = User::try_from("U-Neos".to_string()).unwrap();
    assert_eq!(
        UserInfo::new(user.clone()).url(&state),
        format!("{base}/users/U-Neos?byUsername=false")
    );
    assert_eq!(UserInfo::new("Neos").url(&state), format!("{base}/users/Neos?byUsername=true"));
    assert_eq!(
        UserInfo::new("U-Neos".to_string()).url(&state),
        format!("{base}/users/U-Neos?byUsername=true")
    );
    assert_eq!(UserStatus::new(user).url(&state), format!("{base}/users/U-Neos/status"));
    assert_eq!(UserSearch::new("Neos").url(&state), format!("{base}/users?name=Neos"));
    assert_eq!(UserSearch::new(String::new()).url(&state), format!("{base}/users?name="));
}

#[test]
fn user_id_or_username() {
    let by_name = UserIdOrUsername::from("Neos");
    assert!(by_name.is_username() && !by_name.is_id());
    assert_eq!(by_name.as_ref(), "Neos");
    let by_id = UserIdOrUsername::from(User::try_from("U-Neos".to_string()).unwrap());
    assert!(by_id.is_id() && !by_id.is_username());
    assert_eq!(by_id.as_ref(), "U-Neos");
    assert!(UserIdOrUsername::from("U-Neos".to_string()).is_username());
}

#[test]
fn queries_with_authentication() {
    let auth = auth();
    let base = "https://api.neos.com/api";
    assert_eq!(DestroyUserSession.url(&auth), format!("{base}/userSessions/U-me"));
    assert_eq!(DestroyUserSession.method(&auth), RequestMethod::Delete);
    assert_eq!(DestroyUserSession.deserialize(b""), Ok(()));
    assert_eq!(ExtendUserSession.url(&auth), format!("{base}/userSessions"));
    assert_eq!(ExtendUserSession.method(&auth), RequestMethod::Patch);
    assert_eq!(ExtendUserSession.deserialize(b"{}"), Ok(()));

    assert_eq!(Friends::default().url(&auth), Some(format!("{base}/users/U-me/friends")));
    let at = WallTime { secs: 1_546_300_800, nanos: 0 };
    let text = time::OffsetDateTime::from_unix_timestamp(1_546_300_800).unwrap().to_string();
    assert_eq!(
        Friends { last_status_update: Some(at) }.url(&auth),
        Some(format!("{base}/users/U-me/friends?lastStatusUpdate={text}"))
    );
    let never = WallTime { secs: i64::MAX, nanos: 0 };
    assert_eq!(Friends { last_status_update: Some(never) }.url(&auth), None);

    let you = User::try_from("U-you".to_string()).unwrap();
    let remove = RemoveFriend::new(you.clone());
    assert_eq!(remove.url(&auth), format!("{base}/users/U-me/friends/U-you"));
    assert_eq!(remove.method(&auth), RequestMethod::Delete);
    assert_eq!(
        remove.body(&auth),
        Some(Ok("{\"friendStatus\":\"Ignored\",\"ownerId\":\"U-me\"}".to_string()))
    );

    let all = Messages::default();
    assert_eq!((all.max_amount, all.unread_only), (100, false));
    assert_eq!(all.url(&auth), Some(format!("{base}/users/U-me/messages?maxItems=100")));
    let some = Messages {
        max_amount: 0,
        unread_only: true,
        from_time: Some(at),
        with_user: Some(you.clone()),
    };
    assert_eq!(
        some.url(&auth),
        Some(format!("{base}/users/U-me/messages?maxItems=0&unread=true&fromTime={text}&user=U-you"))
    );
    let unread = Messages { unread_only: true, with_user: Some(you.clone()), ..Messages::default() };
    assert_eq!(
        unread.url(&auth),
        Some(format!("{base}/users/U-me/messages?maxItems=100&unread=true&user=U-you"))
    );
    assert_eq!(Messages { from_time: Some(never), ..Messages::default() }.url(&auth), None);

    let message = Message::new(
        MessageContents::Text("hi".to_string()),
        auth.user_id.clone(),
        you,
        "r",
        at,
    );
    assert_eq!(message.url(&auth), format!("{base}/users/U-you/messages"));
    assert_eq!(message.method(&auth), RequestMethod::Post);
}

#[test]
fn request_methods_convert() {
    assert_eq!(RequestMethod::Head.to_method(), Method::Head);
    assert_eq!(RequestMethod::Get.to_method(), Method::Get);
    assert_eq!(RequestMethod::Post.to_method(), Method::Post);
    assert_eq!(RequestMethod::Put.to_method(), Method::Put);
    assert_eq!(RequestMethod::Patch.to_method(), Method::Patch);
    assert_eq!(RequestMethod::Delete.to_method(), Method::Delete);
}

#[test]
fn authentication_comes_from_a_session() {
    let session = UserSession {
        user_id: User::try_from("U-me".to_string()).unwrap(),
        token: "s3cret".to_string(),
        creation_time: WallTime { secs: 0, nanos: 0 },
        expiration: WallTime { secs: 0, nanos: 0 },
        remember_me: false,
        source_ip: String::new(),
        timestamp: WallTime { secs: 0, nanos: 0 },
        e_tag: String::new(),
        secret_machine_id: None,
    };
    let auth = Authentication::from(&session);
    assert_eq!(auth.token, "s3cret");
    assert_eq!(auth.user_id.as_ref(), "U-me");
    assert_eq!(auth.redacted(), "Authentication { token: *****, user_id: U-me }");
}

#[test]
fn login_credentials_are_built() {
    let credentials =
        LoginCredentials::new(LoginCredentialsIdentifier::Username("me".to_string()), "pw");
    assert_eq!(credentials.identifier, LoginCredentialsIdentifier::Username("me".to_string()));
    assert_eq!(credentials.password, "pw");
    assert_eq!(credentials.totp, None);
    assert_eq!(credentials.secret_machine_id, None);
    assert!(!credentials.remember_me);
    let state = NoAuthentication {};
    assert_eq!(credentials.url(&state), "https://api.neos.com/api/userSessions");
    assert_eq!(credentials.method(&state), RequestMethod::Post);
    assert_eq!(
        credentials.body(&state),
        Some(Ok("{\"username\":\"me\",\"password\":\"pw\",\"totp\":null,\
                 \"secretMachineId\":null,\"rememberMe\":false}"
            .to_string()))
    );
    let full = credentials
        .clone()
        .totp("000111".to_string())
        .machine_id(Some("m-1".to_string()))
        .remember_me(true);
    assert_eq!(full.totp.as_deref(), Some("000111"));
    assert_eq!(full.secret_machine_id.as_deref(), Some("m-1"));
    assert!(full.remember_me);
    assert_eq!(full.password, "pw");
    assert_eq!(
        full.redacted(),
        "LoginCredentials { identifier: username(me), password: *****, totp: Some(000111), \
         secret_machine_id: Some(*****), remember_me: true }"
    );
    assert!(!full.redacted().contains("pw"));
    assert!(!full.redacted().contains("m-1"));
    let cleared = full.clone().totp(None).machine_id(None);
    assert_eq!((cleared.totp, cleared.secret_machine_id), (None, None));
    let generated = full.use_generated_machine_id("x".repeat(32));
    assert_eq!(generated.secret_machine_id, Some("x".repeat(32)));
    assert_eq!(generated.totp.as_deref(), Some("000111"));
    assert_eq!(
        credentials.redacted(),
        "LoginCredentials { identifier: username(me), password: *****, totp: None, \
         secret_machine_id: None, remember_me: false }"
    );
}

#[test]
fn login_identifiers() {
    let mut identifier = LoginCredentialsIdentifier::Email("a@b.c".to_string());
    assert!(identifier.is_email() && !identifier.is_username() && !identifier.is_ownerid());
    assert_eq!(identifier.inner(), "a@b.c");
    assert_eq!(identifier.key(), "email");
    identifier.inner_mut().push_str(".d");
    assert_eq!(identifier, LoginCredentialsIdentifier::Email("a@b.c.d".to_string()));
    let mut identifier = LoginCredentialsIdentifier::OwnerID("U-me".to_string());
    assert!(identifier.is_ownerid() && !identifier.is_email());
    assert_eq!(identifier.key(), "ownerID");
    *identifier.inner_mut() = "U-you".to_string();
    assert_eq!(identifier.inner(), "U-you");
    let mut identifier = LoginCredentialsIdentifier::Username("me".to_string());
    assert!(identifier.is_username() && !identifier.is_ownerid());
    assert_eq!(identifier.key(), "username");
    identifier.inner_mut().clear();
    assert_eq!(identifier, LoginCredentialsIdentifier::Username(String::new()));
}

#[test]
fn addresses_for_times_that_are_written() {
    let auth = auth();
    let base = "https://api.neos.com/api";
    assert_eq!(Friends::url_with(&auth, None), format!("{base}/users/U-me/friends"));
    assert_eq!(
        Friends::url_with(&auth, Some("now")),
        format!("{base}/users/U-me/friends?lastStatusUpdate=now")
    );
    let query = Messages { max_amount: 7, unread_only: true, from_time: None, with_user: None };
    assert_eq!(
        query.url_with(&auth, Some("then")),
        format!("{base}/users/U-me/messages?maxItems=7&unread=true&fromTime=then")
    );
    assert_eq!(
        Messages::default().url_with(&auth, None),
        format!("{base}/users/U-me/messages?maxItems=100")
    );
}
