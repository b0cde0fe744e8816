use teloxide_core::chat::{Chat, ChatId};
use teloxide_core::chat_join_request::ChatJoinRequest;
use teloxide_core::invite_link::ChatInviteLink;
use teloxide_core::shared_chat::SharedChat;
use teloxide_core::timestamp::{UnixTime, MAX_UNIX, MIN_UNIX};
use teloxide_core::user::User;
use teloxide_core::wire::{DecodeErrorKind, Json};

fn user(id: u64, name: &str) -> User {
    User { id, is_bot: false, first_name: name.to_string(), username: None }
}

fn request(users: Vec<User>) -> ChatJoinRequest {
    ChatJoinRequest {
        chat: Chat { id: ChatId(-100), title: Some("club".to_string()), users },
        from: user(1, "A"),
        user_chat_id: ChatId(1),
        date: UnixTime::from_unix(1_700_000_000).unwrap(),
        bio: None,
        invite_link: None,
    }
}

fn keys(j: &Json) -> Vec<String> {
    match j {
        Json::Object(fields) => fields.iter().map(|(k, _)| k.clone()).collect(),
        _ => panic!("not an object"),
    }
}

fn set(j: &mut Json, key: &str, v: Json) {
    if let Json::Object(fields) = j {
        for f in fields.iter_mut() {
            if f.0 == key {
                f.1 = v;
                return;
            }
        }
    }
    panic!("no such member");
}

#[test]
fn mentioned_users_keeps_order_and_duplicates() {
    let a = user(1, "A");
    let b = user(2, "B");
    let r = request(vec![b.clone(), a.clone()]);
    let ids: Vec<u64> = r.mentioned_users().iter().map(|u| u.id).collect();
    assert_eq!(ids, vec![1, 2, 1]);
    assert_eq!(r.mentioned_users(), vec![&a, &b, &a]);
}

#[test]
fn mentioned_users_of_empty_chat_is_requester() {
    let r = request(vec![]);
    assert_eq!(r.mentioned_users(), vec![&user(1, "A")]);
}

#[test]
fn join_request_round_trip() {
    let mut r = request(vec![user(2, "B"), user(u64::MAX, "C")]);
    assert_eq!(ChatJoinRequest::from_json(&r.to_json()).unwrap(), r);
    r.bio = Some("hi".to_string());
    r.invite_link = Some(ChatInviteLink {
        invite_link: "https://t.me/+abc".to_string(),
        creates_join_request: true,
        is_primary: false,
        is_revoked: false,
        name: Some("door".to_string()),
    });
    r.from.username = Some("alice".to_string());
    assert_eq!(ChatJoinRequest::from_json(&r.to_json()).unwrap(), r);
}

#[test]
fn join_request_minimal_omits_optional_fields() {
    let j = request(vec![]).to_json();
    assert_eq!(keys(&j), vec!["chat", "from", "user_chat_id", "date"]);
}

#[test]
fn join_request_date_is_unix_integer() {
    let j = request(vec![]).to_json();
    if let Json::Object(fields) = &j {
        assert_eq!(fields[3].0, "date");
        assert!(matches!(fields[3].1, Json::Int(1_700_000_000)));
    } else {
        panic!("not an object");
    }
}

#[test]
fn join_request_date_out_of_range_is_rejected() {
    let mut j = request(vec![]).to_json();
    set(&mut j, "date", Json::Int(MAX_UNIX as i128 + 1));
    let e = ChatJoinRequest::from_json(&j).unwrap_err();
    assert_eq!(e.kind, DecodeErrorKind::OutOfRange);
    assert_eq!(e.path, vec!["date".to_string()]);
}

#[test]
fn join_request_nested_user_error_has_path() {
    let mut j = request(vec![user(2, "B")]).to_json();
    let mut bad_chat = Chat { id: ChatId(5), title: None, users: vec![] }.to_json();
    set(&mut bad_chat, "users", Json::Array(vec![Json::Bool(true)]));
    set(&mut j, "chat", bad_chat);
    let e = ChatJoinRequest::from_json(&j).unwrap_err();
    assert_eq!(e.kind, DecodeErrorKind::NotAnObject);
    assert_eq!(e.path, vec!["chat".to_string(), "users".to_string()]);
}

#[test]
fn timestamp_round_trip() {
    for t in [0i64, 1_700_000_000, -1, MIN_UNIX, MAX_UNIX] {
        assert_eq!(UnixTime::from_unix(t).unwrap().unix(), t);
    }
}

#[test]
fn timestamp_outside_calendar_is_rejected() {
    assert!(UnixTime::from_unix(MIN_UNIX - 1).is_none());
    assert!(UnixTime::from_unix(MAX_UNIX + 1).is_none());
    assert!(UnixTime::from_unix(i64::MAX).is_none());
    assert!(UnixTime::from_unix(i64::MIN).is_none());
}

#[test]
fn shared_chat_round_trip() {
    let s = SharedChat { request_id: 4, chat_id: ChatId(-1001234567890) };
    let j = s.to_json();
    assert_eq!(keys(&j), vec!["request_id", "chat_id"]);
    assert_eq!(SharedChat::from_json(&j).unwrap(), s);
}
