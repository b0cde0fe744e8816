use vstd::prelude::*;

use crate::wire::{
    fields_model, get_bool, get_opt_str, get_str, lemma_lookup_append, lemma_lookup_empty,
    lemma_lookup_single, lemma_object_model, member, member_if_some, members, object_members,
    opt_str_model, opt_view, push_member, push_opt_str, read_bool, read_opt_str, read_str,
    DecodeError, DecodeFailure, Json, JsonModel,
};

verus! {

/// An invite link of a chat.
#[derive(Clone, Debug, PartialEq, Eq, Hash)]
pub struct ChatInviteLink {
    pub invite_link: String,
    pub creates_join_request: bool,
    pub is_primary: bool,
    pub is_revoked: bool,
    pub name: Option<String>,
}

/// The model of a [`ChatInviteLink`].
pub struct ChatInviteLinkView {
    pub invite_link: Seq<char>,
    pub creates_join_request: bool,
    pub is_primary: bool,
    pub is_revoked: bool,
    pub name: Option<Seq<char>>,
}

impl View for ChatInviteLink {
    type V = ChatInviteLinkView;

    open spec fn view(&self) -> ChatInviteLinkView {
        ChatInviteLinkView {
            invite_link: self.invite_link@,
            creates_join_request: self.creates_join_request,
            is_primary: self.is_primary,
            is_revoked: self.is_revoked,
            name: opt_view(self.name),
        }
    }
}

impl ChatInviteLink {
    pub open spec fn wire(v: ChatInviteLinkView) -> JsonModel {
        JsonModel::Object(
            member("invite_link", JsonModel::Str(v.invite_link)) + member(
                "creates_join_request",
                JsonModel::Bool(v.creates_join_request),
            ) + member("is_primary", JsonModel::Bool(v.is_primary)) + member(
                "is_revoked",
                JsonModel::Bool(v.is_revoked),
            ) + member_if_some("name", opt_str_model(v.name)),
        )
    }

    pub open spec fn parse(j: JsonModel) -> Result<ChatInviteLinkView, DecodeFailure> {
        match object_members(j) {
            Err(e) => Err(e),
            Ok(f) => match read_str(f, "invite_link") {
                Err(e) => Err(e),
                Ok(link) => match read_bool(f, "creates_join_request") {
                    Err(e) => Err(e),
                    Ok(creates) => match read_bool(f, "is_primary") {
                        Err(e) => Err(e),
                        Ok(primary) => match read_bool(f, "is_revoked") {
                            Err(e) => Err(e),
                            Ok(revoked) => match read_opt_str(f, "name") {
                                Err(e) => Err(e),
                                Ok(name) => Ok(
                                    ChatInviteLinkView {
                                        invite_link: link,
                                        creates_join_request: creates,
                                        is_primary: primary,
                                        is_revoked: revoked,
                                        name,
                                    },
                                ),
                            },
                        },
                    },
                },
            },
        }
    }

    /// Encodes the invite link for the wire.
    pub fn to_json(&self) -> (r: Json)
        ensures
            r.model() == ChatInviteLink::wire(self@),
    {
        let mut fields: Vec<(String, Json)> = Vec::new();
        push_member(&mut fields, "invite_link", Json::Str(self.invite_link.clone()));
        push_member(&mut fields, "creates_join_request", Json::Bool(self.creates_join_request));
        push_member(&mut fields, "is_primary", Json::Bool(self.is_primary));
        push_member(&mut fields, "is_revoked", Json::Bool(self.is_revoked));
        push_opt_str(&mut fields, "name", &self.name);
        proof {
            lemma_object_model(fields);
        }
        Json::Object(fields)
    }

    /// Decodes an invite link from the wire.
    pub fn from_json(j: &Json) -> (r: Result<Self, DecodeError>)
        ensures
            match r {
                Ok(v) => ChatInviteLink::parse(j.model()) == Ok::<ChatInviteLinkView, DecodeFailure>(
                    v@,
                ),
                Err(e) => ChatInviteLink::parse(j.model()) == Err::<
                    ChatInviteLinkView,
                    DecodeFailure,
                >(e@),
            },
    {
        let fields = match members(j) {
            Ok(f) => f,
            Err(e) => return Err(e),
        };
        let invite_link = match get_str(fields, "invite_link") {
            Ok(s) => s,
            Err(e) => return Err(e),
        };
        let creates_join_request = match get_bool(fields, "creates_join_request") {
            Ok(b) => b,
            Err(e) => return Err(e),
        };
        let is_primary = match get_bool(fields, "is_primary") {
            Ok(b) => b,
            Err(e) => return Err(e),
        };
        let is_revoked = match get_bool(fields, "is_revoked") {
            Ok(b) => b,
            Err(e) => return Err(e),
        };
        let name = match get_opt_str(fields, "name") {
            Ok(o) => o,
            Err(e) => return Err(e),
        };
        Ok(ChatInviteLink { invite_link, creates_join_request, is_primary, is_revoked, name })
    }
}

/// Decoding the wire form of any invite link gives the same link back.
pub proof fn lemma_invite_link_round_trip(l: ChatInviteLinkView)
    ensures
        ChatInviteLink::parse(ChatInviteLink::wire(l)) == Ok::<ChatInviteLinkView, DecodeFailure>(l),
{
    broadcast use lemma_lookup_append, lemma_lookup_single, lemma_lookup_empty;

    reveal_strlit("invite_link");
    reveal_strlit("creates_join_request");
    reveal_strlit("is_primary");
    reveal_strlit("is_revoked");
    reveal_strlit("name");
    assert("invite_link"@.len() == 11);
    assert("creates_join_request"@.len() == 20);
    assert("is_primary"@.len() == 10);
    assert("is_revoked"@.len() == 10);
    assert("name"@.len() == 4);
    assert("is_primary"@[3] != "is_revoked"@[3]);
}

} // verus!
