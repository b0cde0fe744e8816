use vstd::prelude::*;

use crate::chat::{lemma_chat_round_trip, Chat, ChatId, ChatView};
use crate::invite_link::{lemma_invite_link_round_trip, ChatInviteLink, ChatInviteLinkView};
use crate::timestamp::{decode_unix, UnixTime};
use crate::user::{lemma_user_round_trip, User, UserView};
use crate::wire::{
    error_at, failure, fields_model, get, get_int, get_opt_str, lemma_lookup_append,
    lemma_lookup_empty, lemma_lookup_single, lemma_object_model, lookup, member, member_if_some,
    members, nest, object_members, opt_str_model, opt_view, push_member, push_opt_str, read_int,
    read_opt_str, DecodeError, DecodeErrorKind, DecodeFailure, Fields, Json, JsonModel,
};

verus! {

/// A request sent by a user to join a chat.
#[derive(Clone, Debug, PartialEq, Eq)]
pub struct ChatJoinRequest {
    /// Chat to which the request was sent.
    pub chat: Chat,
    /// User that sent the join request.
    pub from: User,
    /// Identifier of a private chat with the requesting user. The bot can use
    /// it for 5 minutes to send messages until the request is processed.
    pub user_chat_id: ChatId,
    /// Date the request was sent; on the wire, in Unix time.
    pub date: UnixTime,
    /// Bio of the user.
    pub bio: Option<String>,
    /// Chat invite link that was used by the user to send the join request.
    pub invite_link: Option<ChatInviteLink>,
}

/// The model of a [`ChatJoinRequest`].
pub struct ChatJoinRequestView {
    pub chat: ChatView,
    pub from: UserView,
    pub user_chat_id: i64,
    pub date: int,
    pub bio: Option<Seq<char>>,
    pub invite_link: Option<ChatInviteLinkView>,
}

pub open spec fn opt_link_view(o: Option<ChatInviteLink>) -> Option<ChatInviteLinkView> {
    match o {
        Some(l) => Some(l@),
        None => None,
    }
}

pub open spec fn opt_link_model(o: Option<ChatInviteLinkView>) -> Option<JsonModel> {
    match o {
        Some(l) => Some(ChatInviteLink::wire(l)),
        None => None,
    }
}

impl View for ChatJoinRequest {
    type V = ChatJoinRequestView;

    open spec fn view(&self) -> ChatJoinRequestView {
        ChatJoinRequestView {
            chat: self.chat@,
            from: self.from@,
            user_chat_id: self.user_chat_id.0,
            date: self.date.seconds(),
            bio: opt_view(self.bio),
            invite_link: opt_link_view(self.invite_link),
        }
    }
}

/// A mandatory chat under `key`.
pub open spec fn read_chat(f: Fields, key: &str) -> Result<ChatView, DecodeFailure> {
    match lookup(f, key@) {
        None => failure(DecodeErrorKind::MissingField, seq![key@]),
        Some(j) => match Chat::parse(j) {
            Ok(c) => Ok(c),
            Err(e) => failure(e.kind, seq![key@] + e.path),
        },
    }
}

/// A mandatory user under `key`.
pub open spec fn read_user(f: Fields, key: &str) -> Result<UserView, DecodeFailure> {
    match lookup(f, key@) {
        None => failure(DecodeErrorKind::MissingField, seq![key@]),
        Some(j) => match User::parse(j) {
            Ok(u) => Ok(u),
            Err(e) => failure(e.kind, seq![key@] + e.path),
        },
    }
}

/// A mandatory timestamp under `key`, as a Unix integer.
pub open spec fn read_date(f: Fields, key: &str) -> Result<int, DecodeFailure> {
    match read_int(f, key, i64::MIN as int, i64::MAX as int) {
        Err(e) => Err(e),
        Ok(n) => match decode_unix(n) {
            Some(t) => Ok(t),
            None => failure(DecodeErrorKind::OutOfRange, seq![key@]),
        },
    }
}

/// An optional invite link under `key`: absent or `null` is unset.
pub open spec fn read_opt_link(f: Fields, key: &str) -> Result<
    Option<ChatInviteLinkView>,
    DecodeFailure,
> {
    match lookup(f, key@) {
        None => Ok(None),
        Some(JsonModel::Null) => Ok(None),
        Some(j) => match ChatInviteLink::parse(j) {
            Ok(l) => Ok(Some(l)),
            Err(e) => failure(e.kind, seq![key@] + e.path),
        },
    }
}

impl ChatJoinRequest {
    /// The wire form: the mandatory members always, each optional one only when present.
    pub open spec fn wire(v: ChatJoinRequestView) -> JsonModel {
        JsonModel::Object(
            member("chat", Chat::wire(v.chat)) + member("from", User::wire(v.from)) + member(
                "user_chat_id",
                JsonModel::Int(v.user_chat_id as int),
            ) + member("date", JsonModel::Int(v.date)) + member_if_some(
                "bio",
                opt_str_model(v.bio),
            ) + member_if_some("invite_link", opt_link_model(v.invite_link)),
        )
    }

    /// What a wire value decodes to.
    pub open spec fn parse(j: JsonModel) -> Result<ChatJoinRequestView, DecodeFailure> {
        match object_members(j) {
            Err(e) => Err(e),
            Ok(f) => match read_chat(f, "chat") {
                Err(e) => Err(e),
                Ok(chat) => match read_user(f, "from") {
                    Err(e) => Err(e),
                    Ok(from) => match read_int(f, "user_chat_id", i64::MIN as int, i64::MAX as int) {
                        Err(e) => Err(e),
                        Ok(user_chat_id) => match read_date(f, "date") {
                            Err(e) => Err(e),
                            Ok(date) => match read_opt_str(f, "bio") {
                                Err(e) => Err(e),
                                Ok(bio) => match read_opt_link(f, "invite_link") {
                                    Err(e) => Err(e),
                                    Ok(invite_link) => Ok(
                                        ChatJoinRequestView {
                                            chat,
                                            from,
                                            user_chat_id: user_chat_id as i64,
                                            date,
                                            bio,
                                            invite_link,
                                        },
                                    ),
                                },
                            },
                        },
                    },
                },
            },
        }
    }

    /// The users this request refers to: the requester first, then those of the chat.
    pub open spec fn mentions(self) -> Seq<User> {
        seq![self.from] + self.chat.users@
    }

    /// Returns all users that are contained in this request, in order: the
    /// requester, then the users of the chat. The same user may come more than once.
    pub fn mentioned_users(&self) -> (r: Vec<&User>)
        ensures
            r@.len() == self.mentions().len(),
            forall|i: int| 0 <= i < r@.len() ==> *r@[i] == self.mentions()[i],
    {
        let mut r: Vec<&User> = Vec::new();
        r.push(&self.from);
        let chat_users = self.chat.mentioned_users();
        let mut i: usize = 0;
        while i < chat_users.len()
            invariant
                i <= chat_users@.len(),
                chat_users@.len() == self.chat.users@.len(),
                forall|j: int| 0 <= j < chat_users@.len() ==> *chat_users@[j] == self.chat.users@[j],
                r@.len() == i + 1,
                *r@[0] == self.from,
                forall|j: int| 0 <= j < i ==> *r@[j + 1] == self.chat.users@[j],
            decreases chat_users@.len() - i,
        {
            r.push(chat_users[i]);
            i = i + 1;
        }
        r
    }

    /// Encodes the request for the wire.
    pub fn to_json(&self) -> (r: Json)
        ensures
            r.model() == ChatJoinRequest::wire(self@),
    {
        let mut fields: Vec<(String, Json)> = Vec::new();
        push_member(&mut fields, "chat", self.chat.to_json());
        push_member(&mut fields, "from", self.from.to_json());
        push_member(&mut fields, "user_chat_id", Json::Int(self.user_chat_id.0 as i128));
        push_member(&mut fields, "date", Json::Int(self.date.unix() as i128));
        push_opt_str(&mut fields, "bio", &self.bio);
        match &self.invite_link {
            Some(l) => push_member(&mut fields, "invite_link", l.to_json()),
            None => {
                assert(fields_model(fields@) =~= fields_model(fields@) + Seq::empty());
            },
        }
        proof {
            lemma_object_model(fields);
        }
        Json::Object(fields)
    }

    /// Decodes a request from the wire.
    pub fn from_json(j: &Json) -> (r: Result<Self, DecodeError>)
        ensures
            match r {
                Ok(v) => ChatJoinRequest::parse(j.model()) == Ok::<
                    ChatJoinRequestView,
                    DecodeFailure,
                >(v@),
                Err(e) => ChatJoinRequest::parse(j.model()) == Err::<
                    ChatJoinRequestView,
                    DecodeFailure,
                >(e@),
            },
    {
        let fields = match members(j) {
            Ok(f) => f,
            Err(e) => return Err(e),
        };
        let chat = match get(fields, "chat") {
            None => return Err(error_at(DecodeErrorKind::MissingField, "chat")),
            Some(c) => match Chat::from_json(c) {
                Ok(c) => c,
                Err(e) => return Err(nest("chat", e)),
            },
        };
        let from = match get(fields, "from") {
            None => return Err(error_at(DecodeErrorKind::MissingField, "from")),
            Some(u) => match User::from_json(u) {
                Ok(u) => u,
                Err(e) => return Err(nest("from", e)),
            },
        };
        let user_chat_id = match get_int(fields, "user_chat_id", i64::MIN as i128, i64::MAX as i128) {
            Ok(n) => n as i64,
            Err(e) => return Err(e),
        };
        let date = match get_int(fields, "date", i64::MIN as i128, i64::MAX as i128) {
            Ok(n) => match UnixTime::from_unix(n as i64) {
                Some(t) => t,
                None => return Err(error_at(DecodeErrorKind::OutOfRange, "date")),
            },
            Err(e) => return Err(e),
        };
        let bio = match get_opt_str(fields, "bio") {
            Ok(o) => o,
            Err(e) => return Err(e),
        };
        let invite_link = match get(fields, "invite_link") {
            None => None,
            Some(Json::Null) => None,
            Some(l) => match ChatInviteLink::from_json(l) {
                Ok(l) => Some(l),
                Err(e) => return Err(nest("invite_link", e)),
            },
        };
        Ok(
            ChatJoinRequest {
                chat,
                from,
                user_chat_id: ChatId(user_chat_id),
                date,
                bio,
                invite_link,
            },
        )
    }
}

/// Decoding the wire form of any join request gives the same request back, as
/// long as its date lies within the calendar.
pub proof fn lemma_join_request_round_trip(v: ChatJoinRequestView)
    requires
        decode_unix(v.date) is Some,
    ensures
        ChatJoinRequest::parse(ChatJoinRequest::wire(v)) == Ok::<ChatJoinRequestView, DecodeFailure>(v),
{
    broadcast use lemma_lookup_append, lemma_lookup_single, lemma_lookup_empty;

    reveal_strlit("chat");
    reveal_strlit("from");
    reveal_strlit("user_chat_id");
    reveal_strlit("date");
    reveal_strlit("bio");
    reveal_strlit("invite_link");
    assert("chat"@.len() == 4);
    assert("from"@.len() == 4);
    assert("user_chat_id"@.len() == 12);
    assert("date"@.len() == 4);
    assert("bio"@.len() == 3);
    assert("invite_link"@.len() == 11);
    assert("chat"@[0] != "from"@[0]);
    assert("chat"@[0] != "date"@[0]);
    assert("from"@[0] != "date"@[0]);
    lemma_chat_round_trip(v.chat);
    lemma_user_round_trip(v.from);
    if let Some(l) = v.invite_link {
        lemma_invite_link_round_trip(l);
    }
}

/// A date written as its Unix integer reads back as the same second, for every
/// second that the calendar holds.
pub proof fn lemma_date_round_trip(t: int)
    requires
        decode_unix(t) is Some,
    ensures
        read_date(member("date", JsonModel::Int(t)), "date") == Ok::<int, DecodeFailure>(t),
{
    broadcast use lemma_lookup_single;

}

/// A join request without bio or invite link encodes to its four mandatory members only.
pub proof fn lemma_join_request_minimal_wire(v: ChatJoinRequestView)
    requires
        v.bio is None,
        v.invite_link is None,
    ensures
        ChatJoinRequest::wire(v) == JsonModel::Object(
            member("chat", Chat::wire(v.chat)) + member("from", User::wire(v.from)) + member(
                "user_chat_id",
                JsonModel::Int(v.user_chat_id as int),
            ) + member("date", JsonModel::Int(v.date)),
        ),
{
    let m = member("chat", Chat::wire(v.chat)) + member("from", User::wire(v.from)) + member(
        "user_chat_id",
        JsonModel::Int(v.user_chat_id as int),
    ) + member("date", JsonModel::Int(v.date));
    assert(m + Seq::empty() + Seq::empty() =~= m);
}

} // verus!
