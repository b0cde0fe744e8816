use vstd::prelude::*;

use crate::chat::ChatId;
use crate::wire::{
    fields_model, get_int, lemma_lookup_append, lemma_lookup_empty, lemma_lookup_single,
    lemma_object_model, member, members, object_members, push_member, read_int, DecodeError,
    DecodeFailure, Json, JsonModel,
};

verus! {

/// Information about a chat shared with the bot through a request-chat button.
#[derive(Clone, Copy, Debug, PartialEq, Eq, Hash, Structural)]
pub struct SharedChat {
    /// Identifier of the request.
    pub request_id: i32,
    /// Identifier of the shared chat.
    pub chat_id: ChatId,
}

impl SharedChat {
    pub open spec fn wire(self) -> JsonModel {
        JsonModel::Object(
            member("request_id", JsonModel::Int(self.request_id as int)) + member(
                "chat_id",
                JsonModel::Int(self.chat_id.0 as int),
            ),
        )
    }

    pub open spec fn parse(j: JsonModel) -> Result<Self, DecodeFailure> {
        match object_members(j) {
            Err(e) => Err(e),
            Ok(f) => match read_int(f, "request_id", i32::MIN as int, i32::MAX as int) {
                Err(e) => Err(e),
                Ok(id) => match read_int(f, "chat_id", i64::MIN as int, i64::MAX as int) {
                    Err(e) => Err(e),
                    Ok(chat) => Ok(SharedChat { request_id: id as i32, chat_id: ChatId(chat as i64) }),
                },
            },
        }
    }

    /// Encodes the notification for the wire.
    pub fn to_json(&self) -> (r: Json)
        ensures
            r.model() == self.wire(),
    {
        let mut fields: Vec<(String, Json)> = Vec::new();
        push_member(&mut fields, "request_id", Json::Int(self.request_id as i128));
        push_member(&mut fields, "chat_id", Json::Int(self.chat_id.0 as i128));
        proof {
            lemma_object_model(fields);
        }
        Json::Object(fields)
    }

    /// Decodes a notification from the wire.
    pub fn from_json(j: &Json) -> (r: Result<Self, DecodeError>)
        ensures
            match r {
                Ok(v) => Self::parse(j.model()) == Ok::<Self, DecodeFailure>(v),
                Err(e) => Self::parse(j.model()) == Err::<Self, DecodeFailure>(e@),
            },
    {
        let fields = match members(j) {
            Ok(f) => f,
            Err(e) => return Err(e),
        };
        let id = match get_int(fields, "request_id", i32::MIN as i128, i32::MAX as i128) {
            Ok(n) => n as i32,
            Err(e) => return Err(e),
        };
        let chat = match get_int(fields, "chat_id", i64::MIN as i128, i64::MAX as i128) {
            Ok(n) => n as i64,
            Err(e) => return Err(e),
        };
        Ok(SharedChat { request_id: id, chat_id: ChatId(chat) })
    }
}

/// Decoding the wire form of any notification gives the same notification back.
pub proof fn lemma_shared_chat_round_trip(s: SharedChat)
    ensures
        SharedChat::parse(s.wire()) == Ok::<SharedChat, DecodeFailure>(s),
{
    broadcast use lemma_lookup_append, lemma_lookup_single, lemma_lookup_empty;

    reveal_strlit("request_id");
    reveal_strlit("chat_id");
    assert("request_id"@.len() == 10);
    assert("chat_id"@.len() == 7);
}

} // verus!
