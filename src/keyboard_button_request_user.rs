use vstd::prelude::*;

use crate::wire::{
    fields_model, get_int, get_opt_bool, lemma_lookup_append, lemma_lookup_empty,
    lemma_lookup_single, lemma_object_model, lookup, member, member_if_some, members,
    object_members, opt_bool_model, push_member, push_opt_bool, read_int, read_opt_bool,
    wire_members, DecodeError, DecodeFailure, Json, JsonModel,
};

verus! {

/// The criteria used to request a suitable user. The identifier of the selected
/// user is shared with the bot when the corresponding button is pressed.
#[derive(Clone, Copy, Debug, PartialEq, Eq, Hash, Structural)]
pub struct KeyboardButtonRequestUser {
    /// Identifier of the request, received back in the shared-user object.
    /// Must be unique within the message.
    pub request_id: i32,
    /// `true` to request a bot, `false` to request a regular user; unset puts
    /// no restriction.
    pub user_is_bot: Option<bool>,
    /// `true` to request a premium user, `false` a non-premium one; unset puts
    /// no restriction.
    pub user_is_premium: Option<bool>,
}

impl KeyboardButtonRequestUser {
    /// The wire form: `request_id` always, each tri-state flag only when set.
    pub open spec fn wire(self) -> JsonModel {
        JsonModel::Object(
            member("request_id", JsonModel::Int(self.request_id as int)) + member_if_some(
                "user_is_bot",
                opt_bool_model(self.user_is_bot),
            ) + member_if_some("user_is_premium", opt_bool_model(self.user_is_premium)),
        )
    }

    /// What a wire value decodes to.
    pub open spec fn parse(j: JsonModel) -> Result<Self, DecodeFailure> {
        match object_members(j) {
            Err(e) => Err(e),
            Ok(f) => match read_int(f, "request_id", i32::MIN as int, i32::MAX as int) {
                Err(e) => Err(e),
                Ok(id) => match read_opt_bool(f, "user_is_bot") {
                    Err(e) => Err(e),
                    Ok(bot) => match read_opt_bool(f, "user_is_premium") {
                        Err(e) => Err(e),
                        Ok(premium) => Ok(
                            KeyboardButtonRequestUser {
                                request_id: id as i32,
                                user_is_bot: bot,
                                user_is_premium: premium,
                            },
                        ),
                    },
                },
            },
        }
    }

    /// These criteria with the bot flag set to `v`.
    pub open spec fn with_bot(self, v: bool) -> Self {
        Self { user_is_bot: Some(v), ..self }
    }

    /// These criteria with the premium flag set to `v`.
    pub open spec fn with_premium(self, v: bool) -> Self {
        Self { user_is_premium: Some(v), ..self }
    }

    /// Creates criteria with the given request identifier and no restriction.
    pub fn new(request_id: i32) -> (r: Self)
        ensures
            r.request_id == request_id,
            r.user_is_bot == None::<bool>,
            r.user_is_premium == None::<bool>,
    {
        Self { request_id, user_is_bot: None, user_is_premium: None }
    }

    /// Requests a bot.
    pub fn user_is_bot(self) -> (r: Self)
        ensures
            r == self.with_bot(true),
    {
        let mut s = self;
        s.user_is_bot = Some(true);
        s
    }

    /// Requests a regular user (non-bot).
    pub fn user_is_not_bot(self) -> (r: Self)
        ensures
            r == self.with_bot(false),
    {
        let mut s = self;
        s.user_is_bot = Some(false);
        s
    }

    /// Requests a premium user.
    pub fn is_premium(self) -> (r: Self)
        ensures
            r == self.with_premium(true),
    {
        let mut s = self;
        s.user_is_premium = Some(true);
        s
    }

    /// Requests a non-premium user.
    pub fn is_non_premium(self) -> (r: Self)
        ensures
            r == self.with_premium(false),
    {
        let mut s = self;
        s.user_is_premium = Some(false);
        s
    }

    /// Encodes the criteria for the wire.
    pub fn to_json(&self) -> (r: Json)
        ensures
            r.model() == self.wire(),
    {
        let mut fields: Vec<(String, Json)> = Vec::new();
        push_member(&mut fields, "request_id", Json::Int(self.request_id as i128));
        push_opt_bool(&mut fields, "user_is_bot", self.user_is_bot);
        push_opt_bool(&mut fields, "user_is_premium", self.user_is_premium);
        proof {
            lemma_object_model(fields);
            assert(fields_model(fields@) =~= member(
                "request_id",
                JsonModel::Int(self.request_id as int),
            ) + member_if_some("user_is_bot", opt_bool_model(self.user_is_bot)) + member_if_some(
                "user_is_premium",
                opt_bool_model(self.user_is_premium),
            ));
        }
        Json::Object(fields)
    }

    /// Decodes criteria from the wire.
    pub fn from_json(j: &Json) -> (r: Result<Self, DecodeError>)
        ensures
            match r {
                Ok(v) => Self::parse(j.model()) == Ok::<Self, DecodeFailure>(v),
                Err(e) => Self::parse(j.model()) == Err::<Self, DecodeFailure>(e@),
            },
    {
        let fields = match members(j) {
            Ok(f) => f,
            Err(e) => return Err(e),
        };
        let id = match get_int(fields, "request_id", i32::MIN as i128, i32::MAX as i128) {
            Ok(n) => n as i32,
            Err(e) => return Err(e),
        };
        let bot = match get_opt_bool(fields, "user_is_bot") {
            Ok(o) => o,
            Err(e) => return Err(e),
        };
        let premium = match get_opt_bool(fields, "user_is_premium") {
            Ok(o) => o,
            Err(e) => return Err(e),
        };
        Ok(Self { request_id: id, user_is_bot: bot, user_is_premium: premium })
    }
}

/// Decoding the wire form of any criteria gives the same criteria back.
pub proof fn lemma_user_criteria_round_trip(c: KeyboardButtonRequestUser)
    ensures
        KeyboardButtonRequestUser::parse(c.wire()) == Ok::<KeyboardButtonRequestUser, DecodeFailure>(c),
{
    broadcast use lemma_lookup_append, lemma_lookup_single, lemma_lookup_empty;
    reveal_strlit("request_id");
    reveal_strlit("user_is_bot");
    reveal_strlit("user_is_premium");
    assert("request_id"@.len() == 10);
    assert("user_is_bot"@.len() == 11);
    assert("user_is_premium"@.len() == 15);
}

/// Setting a tri-state flag twice leaves only the second value.
pub proof fn lemma_user_flags_last_write_wins(c: KeyboardButtonRequestUser, a: bool, b: bool)
    ensures
        c.with_bot(a).with_bot(b) == c.with_bot(b),
        c.with_premium(a).with_premium(b) == c.with_premium(b),
{
}

/// Criteria with only `request_id` set encode to an object with that one member.
pub proof fn lemma_user_criteria_minimal_wire(c: KeyboardButtonRequestUser)
    requires
        c.user_is_bot is None,
        c.user_is_premium is None,
    ensures
        c.wire() == JsonModel::Object(seq![("request_id"@, JsonModel::Int(c.request_id as int))]),
        wire_members(c.wire()).len() == 1,
{
    assert(member("request_id", JsonModel::Int(c.request_id as int)) + Seq::empty()
        + Seq::empty() =~= seq![("request_id"@, JsonModel::Int(c.request_id as int))]);
}

/// Each tri-state flag is on the wire exactly when it is set, with its value, so a
/// flag set to `false` is written as `false`.
pub proof fn lemma_user_criteria_flag_members(c: KeyboardButtonRequestUser)
    ensures
        lookup(wire_members(c.wire()), "user_is_bot"@) == opt_bool_model(c.user_is_bot),
        lookup(wire_members(c.wire()), "user_is_premium"@) == opt_bool_model(c.user_is_premium),
{
    broadcast use lemma_lookup_append, lemma_lookup_single, lemma_lookup_empty;

    reveal_strlit("request_id");
    reveal_strlit("user_is_bot");
    reveal_strlit("user_is_premium");
    assert("request_id"@.len() == 10);
    assert("user_is_bot"@.len() == 11);
    assert("user_is_premium"@.len() == 15);
}

} // verus!
