use vstd::prelude::*;

use crate::wire::{
    fields_model, get_bool, get_opt_bool, lemma_lookup_append, lemma_lookup_empty,
    lemma_lookup_single, lemma_object_model, member, member_if_some, members, object_members,
    opt_bool_model, push_member, push_opt_bool, read_bool, read_opt_bool, DecodeError,
    DecodeFailure, Json, JsonModel, Fields, lookup, failure, get, nest,
};

verus! {

/// The administrator rights of a user or a bot in a chat.
#[derive(Clone, Copy, Debug, PartialEq, Eq, Hash, Structural)]
pub struct ChatAdministratorRights {
    pub is_anonymous: bool,
    pub can_manage_chat: bool,
    pub can_delete_messages: bool,
    pub can_invite_users: bool,
    /// Channels only.
    pub can_post_messages: Option<bool>,
    /// Groups and supergroups only.
    pub can_pin_messages: Option<bool>,
}

impl ChatAdministratorRights {
    pub open spec fn wire(self) -> JsonModel {
        JsonModel::Object(
            member("is_anonymous", JsonModel::Bool(self.is_anonymous)) + member(
                "can_manage_chat",
                JsonModel::Bool(self.can_manage_chat),
            ) + member("can_delete_messages", JsonModel::Bool(self.can_delete_messages)) + member(
                "can_invite_users",
                JsonModel::Bool(self.can_invite_users),
            ) + member_if_some("can_post_messages", opt_bool_model(self.can_post_messages))
                + member_if_some("can_pin_messages", opt_bool_model(self.can_pin_messages)),
        )
    }

    pub open spec fn parse(j: JsonModel) -> Result<Self, DecodeFailure> {
        match object_members(j) {
            Err(e) => Err(e),
            Ok(f) => match read_bool(f, "is_anonymous") {
                Err(e) => Err(e),
                Ok(a) => match read_bool(f, "can_manage_chat") {
                    Err(e) => Err(e),
                    Ok(m) => match read_bool(f, "can_delete_messages") {
                        Err(e) => Err(e),
                        Ok(d) => match read_bool(f, "can_invite_users") {
                            Err(e) => Err(e),
                            Ok(i) => match read_opt_bool(f, "can_post_messages") {
                                Err(e) => Err(e),
                                Ok(p) => match read_opt_bool(f, "can_pin_messages") {
                                    Err(e) => Err(e),
                                    Ok(n) => Ok(
                                        ChatAdministratorRights {
                                            is_anonymous: a,
                                            can_manage_chat: m,
                                            can_delete_messages: d,
                                            can_invite_users: i,
                                            can_post_messages: p,
                                            can_pin_messages: n,
                                        },
                                    ),
                                },
                            },
                        },
                    },
                },
            },
        }
    }

    /// Encodes the rights for the wire.
    pub fn to_json(&self) -> (r: Json)
        ensures
            r.model() == self.wire(),
    {
        let mut fields: Vec<(String, Json)> = Vec::new();
        push_member(&mut fields, "is_anonymous", Json::Bool(self.is_anonymous));
        push_member(&mut fields, "can_manage_chat", Json::Bool(self.can_manage_chat));
        push_member(&mut fields, "can_delete_messages", Json::Bool(self.can_delete_messages));
        push_member(&mut fields, "can_invite_users", Json::Bool(self.can_invite_users));
        push_opt_bool(&mut fields, "can_post_messages", self.can_post_messages);
        push_opt_bool(&mut fields, "can_pin_messages", self.can_pin_messages);
        proof {
            lemma_object_model(fields);
        }
        Json::Object(fields)
    }

    /// Decodes rights from the wire.
    pub fn from_json(j: &Json) -> (r: Result<Self, DecodeError>)
        ensures
            match r {
                Ok(v) => Self::parse(j.model()) == Ok::<Self, DecodeFailure>(v),
                Err(e) => Self::parse(j.model()) == Err::<Self, DecodeFailure>(e@),
            },
    {
        let fields = match members(j) {
            Ok(f) => f,
            Err(e) => return Err(e),
        };
        let a = match get_bool(fields, "is_anonymous") {
            Ok(b) => b,
            Err(e) => return Err(e),
        };
        let m = match get_bool(fields, "can_manage_chat") {
            Ok(b) => b,
            Err(e) => return Err(e),
        };
        let d = match get_bool(fields, "can_delete_messages") {
            Ok(b) => b,
            Err(e) => return Err(e),
        };
        let i = match get_bool(fields, "can_invite_users") {
            Ok(b) => b,
            Err(e) => return Err(e),
        };
        let p = match get_opt_bool(fields, "can_post_messages") {
            Ok(o) => o,
            Err(e) => return Err(e),
        };
        let n = match get_opt_bool(fields, "can_pin_messages") {
            Ok(o) => o,
            Err(e) => return Err(e),
        };
        Ok(
            Self {
                is_anonymous: a,
                can_manage_chat: m,
                can_delete_messages: d,
                can_invite_users: i,
                can_post_messages: p,
                can_pin_messages: n,
            },
        )
    }
}

pub open spec fn opt_rights_model(o: Option<ChatAdministratorRights>) -> Option<JsonModel> {
    match o {
        Some(r) => Some(r.wire()),
        None => None,
    }
}

/// Optional rights under `key`: absent or `null` is unset.
pub open spec fn read_opt_rights(f: Fields, key: &str) -> Result<
    Option<ChatAdministratorRights>,
    DecodeFailure,
> {
    match lookup(f, key@) {
        None => Ok(None),
        Some(JsonModel::Null) => Ok(None),
        Some(j) => match ChatAdministratorRights::parse(j) {
            Ok(r) => Ok(Some(r)),
            Err(e) => failure(e.kind, seq![key@] + e.path),
        },
    }
}

/// Appends optional rights, leaving them out when unset.
pub fn push_opt_rights(
    fields: &mut Vec<(String, Json)>,
    key: &str,
    value: &Option<ChatAdministratorRights>,
)
    ensures
        fields_model(final(fields)@) == fields_model(old(fields)@) + member_if_some(
            key,
            opt_rights_model(*value),
        ),
{
    match value {
        Some(r) => push_member(fields, key, r.to_json()),
        None => {
            assert(fields_model(fields@) =~= fields_model(fields@) + Seq::empty());
        },
    }
}

/// Reads optional rights: absent or `null` is unset.
pub fn get_opt_rights(fields: &Vec<(String, Json)>, key: &str) -> (r: Result<
    Option<ChatAdministratorRights>,
    DecodeError,
>)
    ensures
        match r {
            Ok(o) => read_opt_rights(fields_model(fields@), key) == Ok::<
                Option<ChatAdministratorRights>,
                DecodeFailure,
            >(o),
            Err(e) => read_opt_rights(fields_model(fields@), key) == Err::<
                Option<ChatAdministratorRights>,
                DecodeFailure,
            >(e@),
        },
{
    match get(fields, key) {
        None => Ok(None),
        Some(Json::Null) => Ok(None),
        Some(j) => match ChatAdministratorRights::from_json(j) {
            Ok(r) => Ok(Some(r)),
            Err(e) => Err(nest(key, e)),
        },
    }
}

/// Decoding the wire form of any rights gives the same rights back.
pub proof fn lemma_rights_round_trip(r: ChatAdministratorRights)
    ensures
        ChatAdministratorRights::parse(r.wire()) == Ok::<ChatAdministratorRights, DecodeFailure>(r),
{
    broadcast use lemma_lookup_append, lemma_lookup_single, lemma_lookup_empty;

    reveal_strlit("is_anonymous");
    reveal_strlit("can_manage_chat");
    reveal_strlit("can_delete_messages");
    reveal_strlit("can_invite_users");
    reveal_strlit("can_post_messages");
    reveal_strlit("can_pin_messages");
    assert("is_anonymous"@.len() == 12);
    assert("can_manage_chat"@.len() == 15);
    assert("can_delete_messages"@.len() == 19);
    assert("can_invite_users"@.len() == 16);
    assert("can_post_messages"@.len() == 17);
    assert("can_pin_messages"@.len() == 16);
    assert("can_invite_users"@[4] != "can_pin_messages"@[4]);
}

} // verus!
