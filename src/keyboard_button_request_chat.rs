use vstd::prelude::*;

use crate::rights::{
    get_opt_rights, lemma_rights_round_trip, opt_rights_model, push_opt_rights, read_opt_rights,
    ChatAdministratorRights,
};
use crate::wire::{
    fields_model, get_bool, get_flag, get_int, get_opt_bool, lemma_lookup_append,
    lemma_lookup_empty, lemma_lookup_single, lemma_object_model, member, member_if_some,
    member_if_true, members, object_members, opt_bool_model, push_flag, push_member,
    push_opt_bool, read_bool, read_flag, read_int, read_opt_bool, DecodeError, DecodeFailure, Json,
    JsonModel, lookup, wire_members,
};

verus! {

/// The criteria used to request a suitable chat. The identifier of the selected
/// chat is shared with the bot when the corresponding button is pressed.
#[derive(Clone, Copy, Debug, PartialEq, Eq, Hash, Structural)]
pub struct KeyboardButtonRequestChat {
    /// Identifier of the request, received back in the shared-chat object.
    /// Must be unique within the message.
    pub request_id: i32,
    /// `true` to request a channel chat, `false` a group or a supergroup chat.
    pub chat_is_channel: bool,
    /// `true` to request a forum supergroup, `false` a non-forum chat; unset
    /// puts no restriction.
    pub chat_is_forum: Option<bool>,
    /// `true` to request a chat with a username, `false` one without; unset
    /// puts no restriction.
    pub chat_has_username: Option<bool>,
    /// `true` to request a chat owned by the user, `false` one not owned by
    /// the user; unset puts no restriction.
    pub chat_is_created: Option<bool>,
    /// The rights the user must hold in the chat; a superset of
    /// `bot_administrator_rights`.
    pub user_administrator_rights: Option<ChatAdministratorRights>,
    /// The rights the bot must hold in the chat; a subset of
    /// `user_administrator_rights`.
    pub bot_administrator_rights: Option<ChatAdministratorRights>,
    /// `true` to request a chat with the bot as a member; `false` puts no
    /// restriction.
    pub bot_is_member: bool,
}

impl KeyboardButtonRequestChat {
    /// The wire form: the two mandatory members always, each optional member
    /// only when set, and `bot_is_member` only when `true`.
    pub open spec fn wire(self) -> JsonModel {
        JsonModel::Object(
            member("request_id", JsonModel::Int(self.request_id as int)) + member(
                "chat_is_channel",
                JsonModel::Bool(self.chat_is_channel),
            ) + member_if_some("chat_is_forum", opt_bool_model(self.chat_is_forum))
                + member_if_some("chat_has_username", opt_bool_model(self.chat_has_username))
                + member_if_some("chat_is_created", opt_bool_model(self.chat_is_created))
                + member_if_some(
                "user_administrator_rights",
                opt_rights_model(self.user_administrator_rights),
            ) + member_if_some(
                "bot_administrator_rights",
                opt_rights_model(self.bot_administrator_rights),
            ) + member_if_true("bot_is_member", self.bot_is_member),
        )
    }

    /// What a wire value decodes to.
    pub open spec fn parse(j: JsonModel) -> Result<Self, DecodeFailure> {
        match object_members(j) {
            Err(e) => Err(e),
            Ok(f) => match read_int(f, "request_id", i32::MIN as int, i32::MAX as int) {
                Err(e) => Err(e),
                Ok(id) => match read_bool(f, "chat_is_channel") {
                    Err(e) => Err(e),
                    Ok(channel) => match read_opt_bool(f, "chat_is_forum") {
                        Err(e) => Err(e),
                        Ok(forum) => match read_opt_bool(f, "chat_has_username") {
                            Err(e) => Err(e),
                            Ok(username) => match read_opt_bool(f, "chat_is_created") {
                                Err(e) => Err(e),
                                Ok(created) => match read_opt_rights(
                                    f,
                                    "user_administrator_rights",
                                ) {
                                    Err(e) => Err(e),
                                    Ok(user_rights) => match read_opt_rights(
                                        f,
                                        "bot_administrator_rights",
                                    ) {
                                        Err(e) => Err(e),
                                        Ok(bot_rights) => match read_flag(f, "bot_is_member") {
                                            Err(e) => Err(e),
                                            Ok(member) => Ok(
                                                KeyboardButtonRequestChat {
                                                    request_id: id as i32,
                                                    chat_is_channel: channel,
                                                    chat_is_forum: forum,
                                                    chat_has_username: username,
                                                    chat_is_created: created,
                                                    user_administrator_rights: user_rights,
                                                    bot_administrator_rights: bot_rights,
                                                    bot_is_member: member,
                                                },
                                            ),
                                        },
                                    },
                                },
                            },
                        },
                    },
                },
            },
        }
    }

    /// These criteria with the forum flag set to `v`.
    pub open spec fn with_forum(self, v: bool) -> Self {
        Self { chat_is_forum: Some(v), ..self }
    }

    /// These criteria with the username flag set to `v`.
    pub open spec fn with_username(self, v: bool) -> Self {
        Self { chat_has_username: Some(v), ..self }
    }

    /// These criteria with the ownership flag set to `v`.
    pub open spec fn with_created(self, v: bool) -> Self {
        Self { chat_is_created: Some(v), ..self }
    }

    /// Creates criteria from the mandatory fields, with no further restriction.
    pub fn new(request_id: i32, chat_is_channel: bool) -> (r: Self)
        ensures
            r == (KeyboardButtonRequestChat {
                request_id,
                chat_is_channel,
                chat_is_forum: None,
                chat_has_username: None,
                chat_is_created: None,
                user_administrator_rights: None,
                bot_administrator_rights: None,
                bot_is_member: false,
            }),
    {
        Self {
            request_id,
            chat_is_channel,
            chat_is_forum: None,
            chat_has_username: None,
            chat_is_created: None,
            user_administrator_rights: None,
            bot_administrator_rights: None,
            bot_is_member: false,
        }
    }

    /// Requests a forum supergroup.
    pub fn chat_is_forum(self) -> (r: Self)
        ensures
            r == self.with_forum(true),
    {
        let mut s = self;
        s.chat_is_forum = Some(true);
        s
    }

    /// Requests a non-forum chat.
    pub fn chat_is_not_forum(self) -> (r: Self)
        ensures
            r == self.with_forum(false),
    {
        let mut s = self;
        s.chat_is_forum = Some(false);
        s
    }

    /// Requests a supergroup or a channel with a username.
    pub fn chat_has_username(self) -> (r: Self)
        ensures
            r == self.with_username(true),
    {
        let mut s = self;
        s.chat_has_username = Some(true);
        s
    }

    /// Requests a chat without a username.
    pub fn chat_has_no_username(self) -> (r: Self)
        ensures
            r == self.with_username(false),
    {
        let mut s = self;
        s.chat_has_username = Some(false);
        s
    }

    /// Requests a chat owned by the user.
    pub fn chat_is_created(self) -> (r: Self)
        ensures
            r == self.with_created(true),
    {
        let mut s = self;
        s.chat_is_created = Some(true);
        s
    }

    /// Requests a chat not owned by the user.
    pub fn chat_is_not_created(self) -> (r: Self)
        ensures
            r == self.with_created(false),
    {
        let mut s = self;
        s.chat_is_created = Some(false);
        s
    }

    /// Requests a chat where the user has the given administrator rights.
    pub fn user_administrator_rights(self, rights: ChatAdministratorRights) -> (r: Self)
        ensures
            r == (Self { user_administrator_rights: Some(rights), ..self }),
    {
        let mut s = self;
        s.user_administrator_rights = Some(rights);
        s
    }

    /// Requests a chat where the bot has the given administrator rights.
    pub fn bot_administrator_rights(self, rights: ChatAdministratorRights) -> (r: Self)
        ensures
            r == (Self { bot_administrator_rights: Some(rights), ..self }),
    {
        let mut s = self;
        s.bot_administrator_rights = Some(rights);
        s
    }

    /// Requests a chat where the bot is a member.
    pub fn bot_is_member(self) -> (r: Self)
        ensures
            r == (Self { bot_is_member: true, ..self }),
    {
        let mut s = self;
        s.bot_is_member = true;
        s
    }

    /// Encodes the criteria for the wire.
    pub fn to_json(&self) -> (r: Json)
        ensures
            r.model() == self.wire(),
    {
        let mut fields: Vec<(String, Json)> = Vec::new();
        push_member(&mut fields, "request_id", Json::Int(self.request_id as i128));
        push_member(&mut fields, "chat_is_channel", Json::Bool(self.chat_is_channel));
        push_opt_bool(&mut fields, "chat_is_forum", self.chat_is_forum);
        push_opt_bool(&mut fields, "chat_has_username", self.chat_has_username);
        push_opt_bool(&mut fields, "chat_is_created", self.chat_is_created);
        push_opt_rights(&mut fields, "user_administrator_rights", &self.user_administrator_rights);
        push_opt_rights(&mut fields, "bot_administrator_rights", &self.bot_administrator_rights);
        push_flag(&mut fields, "bot_is_member", self.bot_is_member);
        proof {
            lemma_object_model(fields);
        }
        Json::Object(fields)
    }

    /// Decodes criteria from the wire.
    pub fn from_json(j: &Json) -> (r: Result<Self, DecodeError>)
        ensures
            match r {
                Ok(v) => Self::parse(j.model()) == Ok::<Self, DecodeFailure>(v),
                Err(e) => Self::parse(j.model()) == Err::<Self, DecodeFailure>(e@),
            },
    {
        let fields = match members(j) {
            Ok(f) => f,
            Err(e) => return Err(e),
        };
        let id = match get_int(fields, "request_id", i32::MIN as i128, i32::MAX as i128) {
            Ok(n) => n as i32,
            Err(e) => return Err(e),
        };
        let channel = match get_bool(fields, "chat_is_channel") {
            Ok(b) => b,
            Err(e) => return Err(e),
        };
        let forum = match get_opt_bool(fields, "chat_is_forum") {
            Ok(o) => o,
            Err(e) => return Err(e),
        };
        let username = match get_opt_bool(fields, "chat_has_username") {
            Ok(o) => o,
            Err(e) => return Err(e),
        };
        let created = match get_opt_bool(fields, "chat_is_created") {
            Ok(o) => o,
            Err(e) => return Err(e),
        };
        let user_rights = match get_opt_rights(fields, "user_administrator_rights") {
            Ok(o) => o,
            Err(e) => return Err(e),
        };
        let bot_rights = match get_opt_rights(fields, "bot_administrator_rights") {
            Ok(o) => o,
            Err(e) => return Err(e),
        };
        let member = match get_flag(fields, "bot_is_member") {
            Ok(b) => b,
            Err(e) => return Err(e),
        };
        Ok(
            Self {
                request_id: id,
                chat_is_channel: channel,
                chat_is_forum: forum,
                chat_has_username: username,
                chat_is_created: created,
                user_administrator_rights: user_rights,
                bot_administrator_rights: bot_rights,
                bot_is_member: member,
            },
        )
    }
}

/// Decoding the wire form of any chat criteria gives the same criteria back.
#[verifier::rlimit(50)]
pub proof fn lemma_chat_criteria_round_trip(c: KeyboardButtonRequestChat)
    ensures
        KeyboardButtonRequestChat::parse(c.wire()) == Ok::<KeyboardButtonRequestChat, DecodeFailure>(c),
{
    broadcast use lemma_lookup_append, lemma_lookup_single, lemma_lookup_empty;

    reveal_strlit("request_id");
    reveal_strlit("chat_is_channel");
    reveal_strlit("chat_is_forum");
    reveal_strlit("chat_has_username");
    reveal_strlit("chat_is_created");
    reveal_strlit("user_administrator_rights");
    reveal_strlit("bot_administrator_rights");
    reveal_strlit("bot_is_member");
    assert("request_id"@.len() == 10);
    assert("chat_is_channel"@.len() == 15);
    assert("chat_is_forum"@.len() == 13);
    assert("chat_has_username"@.len() == 17);
    assert("chat_is_created"@.len() == 15);
    assert("user_administrator_rights"@.len() == 25);
    assert("bot_administrator_rights"@.len() == 24);
    assert("bot_is_member"@.len() == 13);
    assert("chat_is_channel"@[9] != "chat_is_created"@[9]);
    assert("chat_is_forum"@[0] != "bot_is_member"@[0]);
    if let Some(r) = c.user_administrator_rights {
        lemma_rights_round_trip(r);
    }
    if let Some(r) = c.bot_administrator_rights {
        lemma_rights_round_trip(r);
    }
}

/// Setting a tri-state flag twice leaves only the second value: the two
/// setters of a flag share one slot, and the last write wins.
pub proof fn lemma_chat_flags_last_write_wins(c: KeyboardButtonRequestChat, a: bool, b: bool)
    ensures
        c.with_forum(a).with_forum(b) == c.with_forum(b),
        c.with_username(a).with_username(b) == c.with_username(b),
        c.with_created(a).with_created(b) == c.with_created(b),
{
}

/// Criteria with only the mandatory fields set encode to exactly those two members.
pub proof fn lemma_chat_criteria_minimal_wire(c: KeyboardButtonRequestChat)
    requires
        c.chat_is_forum is None,
        c.chat_has_username is None,
        c.chat_is_created is None,
        c.user_administrator_rights is None,
        c.bot_administrator_rights is None,
        !c.bot_is_member,
    ensures
        c.wire() == JsonModel::Object(
            member("request_id", JsonModel::Int(c.request_id as int)) + member(
                "chat_is_channel",
                JsonModel::Bool(c.chat_is_channel),
            ),
        ),
{
    let m = member("request_id", JsonModel::Int(c.request_id as int)) + member(
        "chat_is_channel",
        JsonModel::Bool(c.chat_is_channel),
    );
    assert(m + Seq::empty() + Seq::empty() + Seq::empty() + Seq::empty() + Seq::empty()
        + Seq::empty() =~= m);
}

/// Each tri-state flag is on the wire exactly when it is set, with its value, so a
/// flag set to `false` is written as `false`; `bot_is_member` is written, as `true`,
/// exactly when it is `true`.
pub proof fn lemma_chat_criteria_flag_members(c: KeyboardButtonRequestChat)
    ensures
        lookup(wire_members(c.wire()), "chat_is_forum"@) == opt_bool_model(c.chat_is_forum),
        lookup(wire_members(c.wire()), "chat_has_username"@) == opt_bool_model(c.chat_has_username),
        lookup(wire_members(c.wire()), "chat_is_created"@) == opt_bool_model(c.chat_is_created),
        lookup(wire_members(c.wire()), "bot_is_member"@) == (if c.bot_is_member {
            Some(JsonModel::Bool(true))
        } else {
            None
        }),
{
    broadcast use lemma_lookup_append, lemma_lookup_single, lemma_lookup_empty;

    reveal_strlit("request_id");
    reveal_strlit("chat_is_channel");
    reveal_strlit("chat_is_forum");
    reveal_strlit("chat_has_username");
    reveal_strlit("chat_is_created");
    reveal_strlit("user_administrator_rights");
    reveal_strlit("bot_administrator_rights");
    reveal_strlit("bot_is_member");
    assert("request_id"@.len() == 10);
    assert("chat_is_channel"@.len() == 15);
    assert("chat_is_forum"@.len() == 13);
    assert("chat_has_username"@.len() == 17);
    assert("chat_is_created"@.len() == 15);
    assert("user_administrator_rights"@.len() == 25);
    assert("bot_administrator_rights"@.len() == 24);
    assert("bot_is_member"@.len() == 13);
    assert("chat_is_channel"@[9] != "chat_is_created"@[9]);
    assert("chat_is_forum"@[0] != "bot_is_member"@[0]);
}

} // verus!
