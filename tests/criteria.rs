use teloxide_core::keyboard_button_request_chat::KeyboardButtonRequestChat;
use teloxide_core::keyboard_button_request_user::KeyboardButtonRequestUser;
use teloxide_core::rights::ChatAdministratorRights;
use teloxide_core::wire::{DecodeErrorKind, Json};

fn keys(j: &Json) -> Vec<String> {
    match j {
        Json::Object(fields) => fields.iter().map(|(k, _)| k.clone()).collect(),
        _ => panic!("not an object"),
    }
}

fn member<'a>(j: &'a Json, key: &str) -> Option<&'a Json> {
    match j {
        Json::Object(fields) => fields.iter().find(|(k, _)| k == key).map(|(_, v)| v),
        _ => None,
    }
}

fn is_bool(j: Option<&Json>, b: bool) -> bool {
    matches!(j, Some(Json::Bool(x)) if *x == b)
}

fn is_int(j: Option<&Json>, n: i128) -> bool {
    matches!(j, Some(Json::Int(x)) if *x == n)
}

fn obj(members: Vec<(&str, Json)>) -> Json {
    Json::Object(members.into_iter().map(|(k, v)| (k.to_string(), v)).collect())
}

fn rights() -> ChatAdministratorRights {
    ChatAdministratorRights {
        is_anonymous: false,
        can_manage_chat: true,
        can_delete_messages: true,
        can_invite_users: false,
        can_post_messages: Some(false),
        can_pin_messages: None,
    }
}

#[test]
fn user_criteria_with_only_request_id_has_one_key() {
    let j = KeyboardButtonRequestUser::new(7).to_json();
    assert_eq!(keys(&j), vec!["request_id".to_string()]);
    assert!(is_int(member(&j, "request_id"), 7));
}

#[test]
fn chat_criteria_with_only_mandatory_fields_omits_the_rest() {
    let j = KeyboardButtonRequestChat::new(3, true).to_json();
    assert_eq!(keys(&j), vec!["request_id".to_string(), "chat_is_channel".to_string()]);
    assert!(is_bool(member(&j, "chat_is_channel"), true));
}

#[test]
fn tri_state_false_is_written() {
    let j = KeyboardButtonRequestChat::new(1, false)
        .chat_is_not_forum()
        .chat_has_no_username()
        .chat_is_not_created()
        .to_json();
    assert!(is_bool(member(&j, "chat_is_forum"), false));
    assert!(is_bool(member(&j, "chat_has_username"), false));
    assert!(is_bool(member(&j, "chat_is_created"), false));
    let u = KeyboardButtonRequestUser::new(2).user_is_not_bot().is_non_premium().to_json();
    assert!(is_bool(member(&u, "user_is_bot"), false));
    assert!(is_bool(member(&u, "user_is_premium"), false));
    let t = KeyboardButtonRequestUser::new(2).user_is_bot().is_premium().to_json();
    assert!(is_bool(member(&t, "user_is_bot"), true));
    assert!(is_bool(member(&t, "user_is_premium"), true));
}

#[test]
fn bot_is_member_written_only_when_true() {
    let off = KeyboardButtonRequestChat::new(1, false).to_json();
    assert!(member(&off, "bot_is_member").is_none());
    let on = KeyboardButtonRequestChat::new(1, false).bot_is_member().to_json();
    assert!(is_bool(member(&on, "bot_is_member"), true));
}

#[test]
fn last_forum_setter_wins() {
    let both = KeyboardButtonRequestChat::new(9, true).chat_is_forum().chat_is_not_forum();
    let alone = KeyboardButtonRequestChat::new(9, true).chat_is_not_forum();
    assert_eq!(both, alone);
    assert_eq!(both.chat_is_forum, Some(false));
    let u = KeyboardButtonRequestUser::new(1).user_is_bot().user_is_not_bot();
    assert_eq!(u, KeyboardButtonRequestUser::new(1).user_is_not_bot());
}

#[test]
fn rights_setters_store_last_value() {
    let r = rights();
    let mut other = rights();
    other.is_anonymous = true;
    let c = KeyboardButtonRequestChat::new(1, true)
        .user_administrator_rights(r)
        .bot_administrator_rights(r)
        .user_administrator_rights(other);
    assert_eq!(c.user_administrator_rights, Some(other));
    assert_eq!(c.bot_administrator_rights, Some(r));
}

#[test]
fn chat_criteria_round_trip() {
    let c = KeyboardButtonRequestChat::new(-5, false)
        .chat_is_forum()
        .chat_has_no_username()
        .user_administrator_rights(rights())
        .bot_administrator_rights(rights())
        .bot_is_member();
    let j = c.to_json();
    let rj = member(&j, "user_administrator_rights").unwrap();
    assert!(is_bool(member(rj, "can_post_messages"), false));
    assert!(member(rj, "can_pin_messages").is_none());
    assert_eq!(KeyboardButtonRequestChat::from_json(&j).unwrap(), c);
    let plain = KeyboardButtonRequestChat::new(i32::MAX, true);
    assert_eq!(KeyboardButtonRequestChat::from_json(&plain.to_json()).unwrap(), plain);
}

#[test]
fn user_criteria_round_trip() {
    for c in [
        KeyboardButtonRequestUser::new(i32::MIN),
        KeyboardButtonRequestUser::new(4).user_is_bot(),
        KeyboardButtonRequestUser::new(4).is_non_premium(),
    ] {
        assert_eq!(KeyboardButtonRequestUser::from_json(&c.to_json()).unwrap(), c);
    }
}

#[test]
fn absent_bot_is_member_decodes_as_false() {
    let j = obj(vec![("request_id", Json::Int(1)), ("chat_is_channel", Json::Bool(true))]);
    let c = KeyboardButtonRequestChat::from_json(&j).unwrap();
    assert!(!c.bot_is_member);
    assert_eq!(c.chat_is_forum, None);
}

#[test]
fn null_tri_state_decodes_as_unset() {
    let j = obj(vec![("request_id", Json::Int(1)), ("user_is_bot", Json::Null)]);
    assert_eq!(KeyboardButtonRequestUser::from_json(&j).unwrap(), KeyboardButtonRequestUser::new(1));
}

#[test]
fn decode_errors_name_the_field() {
    let e = KeyboardButtonRequestUser::from_json(&Json::Int(1)).unwrap_err();
    assert_eq!(e.kind, DecodeErrorKind::NotAnObject);
    assert!(e.path.is_empty());

    let e = KeyboardButtonRequestChat::from_json(&obj(vec![("request_id", Json::Int(1))])).unwrap_err();
    assert_eq!(e.kind, DecodeErrorKind::MissingField);
    assert_eq!(e.path, vec!["chat_is_channel".to_string()]);

    let e = KeyboardButtonRequestUser::from_json(&obj(vec![
        ("request_id", Json::Int(1)),
        ("user_is_premium", Json::Str("yes".to_string())),
    ]))
    .unwrap_err();
    assert_eq!(e.kind, DecodeErrorKind::WrongType);
    assert_eq!(e.path, vec!["user_is_premium".to_string()]);

    let e = KeyboardButtonRequestUser::from_json(&obj(vec![(
        "request_id",
        Json::Int(i32::MAX as i128 + 1),
    )]))
    .unwrap_err();
    assert_eq!(e.kind, DecodeErrorKind::OutOfRange);
    assert_eq!(e.path, vec!["request_id".to_string()]);

    let e = KeyboardButtonRequestChat::from_json(&obj(vec![
        ("request_id", Json::Int(1)),
        ("chat_is_channel", Json::Bool(false)),
        ("bot_administrator_rights", obj(vec![("is_anonymous", Json::Int(0))])),
    ]))
    .unwrap_err();
    assert_eq!(e.kind, DecodeErrorKind::WrongType);
    assert_eq!(
        e.path,
        vec!["bot_administrator_rights".to_string(), "is_anonymous".to_string()]
    );
}
