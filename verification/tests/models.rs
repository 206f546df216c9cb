use neos::assets::AssetUrl;
use neos::clock::WallTime;
use neos::id::{Any, Group, Owner, Record, Session, User};
use neos::model::{
    bad_xml_strip, has_ended_default, FriendStatus, Message, MessageContents, OnlineStatus,
    OutputDevice, PublicBanType, SessionAccessLevel, TransactionType, UserSession,
};

#[test]
fn ids_need_their_prefix() {
    assert_eq!(User::try_from("U-neos".to_string()).unwrap().as_ref(), "U-neos");
    assert_eq!(User::try_from("U-".to_string()).unwrap().as_ref(), "U-");
    assert_eq!(User::try_from("G-neos".to_string()), Err("should start with `U-`"));
    assert_eq!(User::try_from("u-neos".to_string()), Err("should start with `U-`"));
    assert_eq!(User::try_from("U".to_string()), Err("should start with `U-`"));
    assert_eq!(User::try_from(String::new()), Err("should start with `U-`"));
    assert_eq!(Group::try_from("G-x".to_string()).unwrap().as_ref(), "G-x");
    assert_eq!(Group::try_from("U-x".to_string()), Err("should start with `G-`"));
    assert_eq!(Session::try_from("S-x".to_string()).unwrap().as_ref(), "S-x");
    assert_eq!(Session::try_from(" S-x".to_string()), Err("should start with `S-`"));
    assert_eq!(Record::try_from("R-x".to_string()).unwrap().as_ref(), "R-x");
    assert_eq!(Record::try_from("Rx-".to_string()), Err("should start with `R-`"));
}

#[test]
fn ids_convert() {
    let user = User::try_from("U-totally-legit-id".to_string()).unwrap();
    let other = User::try_from("U-other-legit-id".to_string()).unwrap();
    assert!(user != other);
    assert_eq!(user.clone(), user);
    assert_eq!(String::from(user.clone()), "U-totally-legit-id");
    let record = Record::try_from("R-totally-legit-id".to_string()).unwrap();
    let any_user: Any = user.clone().into();
    let any_record: Any = record.clone().into();
    assert!(any_user != any_record);
    assert_eq!(any_user, Any::User(user.clone()));
    assert_eq!(any_record.as_ref(), "R-totally-legit-id");
    let group = Group::try_from("G-totally-legit-id".to_string()).unwrap();
    let owner_user: Owner = user.clone().into();
    let owner_group: Owner = group.clone().into();
    assert!(owner_user != owner_group);
    assert_eq!(owner_user, Owner::User(user));
    assert_eq!(owner_group.as_ref(), "G-totally-legit-id");
    let session = Session::try_from("S-1".to_string()).unwrap();
    assert_eq!(Any::from(session.clone()), Any::Session(session));
    assert_eq!(Any::from(group.clone()), Any::Group(group));
}

#[test]
fn asset_urls_are_taken_apart() {
    let asset = AssetUrl::try_from("neosdb:///abc123.webp").unwrap();
    assert_eq!(asset.id(), "abc123");
    assert_eq!(asset.ext(), &Some("webp".to_string()));
    assert_eq!(asset.filename(), "abc123webp");
    assert_eq!(asset.to_string(), "https://assets.neos.com/assets/abc123");
    assert_eq!(asset.to_wire_form(), "neosdb:///abc123.webp");

    let asset = AssetUrl::try_from("https://example.com/a/b.tar.gz").unwrap();
    assert_eq!(asset.id(), "b.tar");
    assert_eq!(asset.ext(), &Some("gz".to_string()));
    assert_eq!(asset.filename(), "b.targz");
    assert_eq!(asset.to_string(), "https://example.com/a/b.tar.gz");
    assert_eq!(asset.to_wire_form(), "https://example.com/a/b.tar.gz");

    let asset = AssetUrl::try_from("https://example.com/plain").unwrap();
    assert_eq!(asset.id(), "plain");
    assert_eq!(asset.ext(), &None);
    assert_eq!(asset.filename(), "plain");
    assert_eq!(asset.to_string(), "https://example.com/plain");

    let asset = AssetUrl::try_from("https://example.com/.hidden").unwrap();
    assert_eq!(asset.id(), "hidden");
    assert_eq!(asset.ext(), &None);
    assert_eq!(asset.to_string(), "https://example.com/hidden");

    let asset = AssetUrl::try_from("https://example.com/x.").unwrap();
    assert_eq!(asset.id(), "x");
    assert_eq!(asset.ext(), &Some(String::new()));
    assert_eq!(asset.to_string(), "https://example.com/x.");

    let asset = AssetUrl::try_from("https://").unwrap();
    assert_eq!(asset.id(), "");
    assert_eq!(asset.to_string(), "https://");

    let asset = AssetUrl::try_from("neosdb:///dir/file").unwrap();
    assert_eq!(asset.id(), "file");
    assert_eq!(asset.to_string(), "https://assets.neos.com/assets/dir/file");
    assert_eq!(asset.to_wire_form(), "neosdb:///file");

    let message = "should start with `neosdb:///` `https://`";
    assert_eq!(AssetUrl::try_from("neosdb:///"), Err(message));
    assert_eq!(AssetUrl::try_from("http://example.com/a.png"), Err(message));
    assert_eq!(AssetUrl::try_from("neosdb://x"), Err(message));
    assert_eq!(AssetUrl::try_from(""), Err(message));

    let asset = AssetUrl::from_url("no slash.txt", false).unwrap();
    assert_eq!(asset.id(), "no slash");
    assert_eq!(asset.to_string(), "/no slash.txt");
    let short = AssetUrl::from_url("https://a/b.c", true).unwrap();
    assert_eq!(short.to_string(), "https://a/b");
    assert_eq!(short.to_wire_form(), "neosdb:///b.c");
    assert_ne!(Ok(short), AssetUrl::from_url("https://a/b.c", false));
}

#[test]
fn enums_have_names() {
    assert_eq!(FriendStatus::NotFriends.as_str(), "None");
    assert_eq!(FriendStatus::from_name("None"), Some(FriendStatus::NotFriends));
    assert_eq!(FriendStatus::from_name("Accepted"), Some(FriendStatus::Accepted));
    assert_eq!(FriendStatus::from_name("accepted"), None);
    for status in [
        FriendStatus::NotFriends,
        FriendStatus::SearchResult,
        FriendStatus::Requested,
        FriendStatus::Ignored,
        FriendStatus::Blocked,
        FriendStatus::Accepted,
    ] {
        assert_eq!(FriendStatus::from_name(status.as_str()), Some(status.clone()));
        assert_eq!(status.to_string(), status.as_str());
    }
    for status in [
        OnlineStatus::Online,
        OnlineStatus::Invisible,
        OnlineStatus::Away,
        OnlineStatus::Busy,
        OnlineStatus::Offline,
    ] {
        assert_eq!(OnlineStatus::from_name(status.as_str()), Some(status.clone()));
    }
    assert_eq!(OnlineStatus::Invisible.to_string(), "Invisible");
    assert_eq!(OnlineStatus::from_name(""), None);
    for ban in [PublicBanType::Standard, PublicBanType::Soft, PublicBanType::Hard] {
        assert_eq!(PublicBanType::from_name(ban.as_str()), Some(ban.clone()));
    }
    assert_eq!(PublicBanType::Soft.to_string(), "Soft");
    assert_eq!(PublicBanType::from_name("Softer"), None);
}

#[test]
fn status_colors() {
    assert_eq!(OnlineStatus::Online.color(), (0, 255, 0));
    assert_eq!(OnlineStatus::Away.color(), (255, 200, 0));
    assert_eq!(OnlineStatus::Busy.color(), (255, 0, 0));
    assert_eq!(OnlineStatus::Offline.color(), (127, 127, 127));
    assert_eq!(OnlineStatus::Invisible.color(), (127, 127, 127));
}

#[test]
fn output_devices_are_names_or_numbers() {
    let all = [
        (OutputDevice::Unknown, "Unknown", 0_u8),
        (OutputDevice::Headless, "Headless", 1),
        (OutputDevice::Screen, "Screen", 2),
        (OutputDevice::Vr, "VR", 3),
        (OutputDevice::Camera, "Camera", 4),
    ];
    for (device, name, number) in all {
        assert_eq!(device.as_str(), name);
        assert_eq!(device.to_string(), name);
        assert_eq!(device.to_repr(), number);
        assert_eq!(OutputDevice::from_name(name), Some(device.clone()));
        assert_eq!(OutputDevice::from_repr(number), Some(device.clone()));
        assert_eq!(OutputDevice::from_u64(number as u64), Some(device.clone()));
        assert_eq!(OutputDevice::from_i64(number as i64), Some(device));
    }
    assert_eq!(OutputDevice::from_name("Vr"), None);
    assert_eq!(OutputDevice::from_repr(5), None);
    assert_eq!(OutputDevice::from_u64(256), None);
    assert_eq!(OutputDevice::from_u64(258), None);
    assert_eq!(OutputDevice::from_u64(u64::MAX), None);
    assert_eq!(OutputDevice::from_i64(-1), None);
    assert_eq!(OutputDevice::from_i64(-254), None);
    assert_eq!(OutputDevice::from_i64(i64::MIN), None);
    assert_eq!(OutputDevice::from_i64(258), None);
}

#[test]
fn access_levels_are_names_or_numbers() {
    let all = [
        (SessionAccessLevel::Private, "Private"),
        (SessionAccessLevel::Lan, "Lan"),
        (SessionAccessLevel::Friends, "Friends"),
        (SessionAccessLevel::FriendsOfFriends, "FriendsOfFriends"),
        (SessionAccessLevel::RegisteredUsers, "RegisteredUsers"),
        (SessionAccessLevel::Anyone, "Anyone"),
    ];
    for (number, (level, name)) in all.iter().enumerate() {
        assert_eq!(level.as_str(), *name);
        assert_eq!(level.to_repr() as usize, number);
        assert_eq!(SessionAccessLevel::from_name(name).as_ref(), Some(level));
        assert_eq!(SessionAccessLevel::from_repr(number as u8).as_ref(), Some(level));
        assert_eq!(SessionAccessLevel::from_u64(number as u64).as_ref(), Some(level));
        assert_eq!(SessionAccessLevel::from_i64(number as i64).as_ref(), Some(level));
    }
    assert!(SessionAccessLevel::Private < SessionAccessLevel::Lan);
    assert!(SessionAccessLevel::RegisteredUsers < SessionAccessLevel::Anyone);
    assert_eq!(SessionAccessLevel::from_repr(6), None);
    assert_eq!(SessionAccessLevel::from_name("LAN"), None);
    assert_eq!(SessionAccessLevel::from_i64(-1), None);
    assert_eq!(SessionAccessLevel::from_u64(262), None);
}

#[test]
fn transaction_types_are_names_or_numbers() {
    let all = [
        TransactionType::User2User,
        TransactionType::Withdrawal,
        TransactionType::Deposit,
        TransactionType::Tip,
        TransactionType::Purchase,
    ];
    for (number, kind) in all.iter().enumerate() {
        assert_eq!(kind.to_repr() as usize, number);
        assert_eq!(TransactionType::from_repr(number as u8).as_ref(), Some(kind));
        assert_eq!(TransactionType::from_name(kind.as_str()).as_ref(), Some(kind));
    }
    assert_eq!(TransactionType::Tip.to_string(), "Tip");
    assert_eq!(TransactionType::from_repr(5), None);
}

#[test]
fn tags_are_stripped() {
    assert_eq!(bad_xml_strip("<b>Hello</b> world"), "Hello world");
    assert_eq!(bad_xml_strip("plain"), "plain");
    assert_eq!(bad_xml_strip(""), "");
    assert_eq!(bad_xml_strip("<color=red>é<b>ü</b></color>!"), "éü!");
    assert_eq!(bad_xml_strip("a > b"), "a > b");
    assert_eq!(bad_xml_strip("a < b"), "a < b");
    assert_eq!(bad_xml_strip("> <"), "> <");
    assert_eq!(bad_xml_strip("x<y>z>"), "x");
    assert_eq!(bad_xml_strip("<<a>"), "<");
    assert_eq!(bad_xml_strip("<a<b>c>"), "");
    assert_eq!(bad_xml_strip("1<a>2<b>"), "12");
    assert!(has_ended_default());
}

#[test]
fn messages() {
    let me = User::try_from("U-me".to_string()).unwrap();
    let you = User::try_from("U-you".to_string()).unwrap();
    let now = WallTime { secs: 10, nanos: 20 };
    let content = MessageContents::Text("hi".to_string());
    let sent = Message::new(content.clone(), me.clone(), you.clone(), "abcDEF123", now);
    assert_eq!(sent.id, "MSG-abcDEF123");
    assert_eq!(sent.owner_id, me);
    assert_eq!(sent.sender_id, me);
    assert_eq!(sent.recipient_id, you);
    assert_eq!(sent.content, content);
    assert_eq!(sent.send_time, now);
    assert_eq!(sent.last_update_time, now);
    assert_eq!(sent.read_time, None);
    assert_eq!(sent.non_owner_id(), &you);
    let received = Message { owner_id: you.clone(), ..sent.clone() };
    assert_eq!(received.non_owner_id(), &me);
    assert_eq!(Message::new_id(""), "MSG-");
    assert_eq!(content.message_type(), "Text");
    assert_eq!(MessageContents::Object("{}".to_string()).message_type(), "Object");
    assert_eq!(MessageContents::Sound("{}".to_string()).message_type(), "Sound");
    assert_eq!(MessageContents::CreditTransfer("{}".to_string()).message_type(), "CreditTransfer");
    assert_eq!(MessageContents::SugarCubes("1".to_string()).message_type(), "SugarCubes");
}

#[test]
fn sessions_are_described_without_their_secrets() {
    let session = UserSession {
        user_id: User::try_from("U-me".to_string()).unwrap(),
        token: "s3cret-token".to_string(),
        creation_time: WallTime { secs: 1, nanos: 2 },
        expiration: WallTime { secs: -3, nanos: 0 },
        remember_me: true,
        source_ip: "::1".to_string(),
        timestamp: WallTime { secs: 4, nanos: 5 },
        e_tag: "W/1".to_string(),
        secret_machine_id: Some("s3cret-machine".to_string()),
    };
    assert_eq!(session.auth_header(), "neos U-me:s3cret-token");
    let text = session.redacted();
    assert_eq!(
        text,
        "NeosUserSession { user_id: U-me, token: *****, secret_machine_id: Some(*****), \
         creation_time: 1.2, expiration: -3.0, remember_me: true, source_ip: ::1, \
         timestamp: 4.5, e_tag: W/1 }"
    );
    assert!(!text.contains("s3cret"));
    let other = UserSession {
        token: "another".to_string(),
        secret_machine_id: Some("machine".to_string()),
        ..session.clone()
    };
    assert_eq!(other.redacted(), text);
    let bare = UserSession { secret_machine_id: None, ..session };
    assert!(bare.redacted().contains("secret_machine_id: None,"));
}
