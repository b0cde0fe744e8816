use vstd::prelude::*;

use crate::user::{lemma_user_round_trip, User, UserView};
use crate::wire::{
    error_at, fields_model, get, get_int, get_opt_str, items_model, lemma_array_model,
    lemma_lookup_append, lemma_lookup_empty, lemma_lookup_single, lemma_object_model, lookup,
    member, member_if_some, members, nest, object_members, opt_str_model, opt_view, push_member,
    push_opt_str, read_int, read_opt_str, within, failure, DecodeError, DecodeErrorKind,
    DecodeFailure, Fields, Json, JsonModel,
};

verus! {

/// A unique identifier of a chat.
#[derive(Clone, Copy, Debug, PartialEq, Eq, Hash, Structural)]
pub struct ChatId(pub i64);

/// A chat, with the users that its content refers to.
#[derive(Clone, Debug, PartialEq, Eq, Hash)]
pub struct Chat {
    pub id: ChatId,
    pub title: Option<String>,
    /// The users that the chat's content mentions, in order, possibly repeated.
    pub users: Vec<User>,
}

/// The model of a [`Chat`].
pub struct ChatView {
    pub id: i64,
    pub title: Option<Seq<char>>,
    pub users: Seq<UserView>,
}

pub open spec fn users_view(us: Seq<User>) -> Seq<UserView> {
    us.map_values(|u: User| u@)
}

impl View for Chat {
    type V = ChatView;

    open spec fn view(&self) -> ChatView {
        ChatView { id: self.id.0, title: opt_view(self.title), users: users_view(self.users@) }
    }
}

pub open spec fn users_wire(us: Seq<UserView>) -> Seq<JsonModel> {
    us.map_values(|u: UserView| User::wire(u))
}

/// The users of a wire array, or the failure of the first element that is no user.
pub open spec fn parse_users(items: Seq<JsonModel>) -> Result<Seq<UserView>, DecodeFailure>
    decreases items.len(),
{
    if items.len() == 0 {
        Ok(Seq::empty())
    } else {
        match parse_users(items.drop_last()) {
            Err(e) => Err(e),
            Ok(us) => match User::parse(items.last()) {
                Err(e) => Err(e),
                Ok(u) => Ok(us.push(u)),
            },
        }
    }
}

/// A list of users under `key`: absent is empty.
pub open spec fn read_users(f: Fields, key: &str) -> Result<Seq<UserView>, DecodeFailure> {
    match lookup(f, key@) {
        None => Ok(Seq::empty()),
        Some(JsonModel::Array(items)) => within(key, parse_users(items)),
        Some(_) => failure(DecodeErrorKind::WrongType, seq![key@]),
    }
}

impl Chat {
    pub open spec fn wire(v: ChatView) -> JsonModel {
        JsonModel::Object(
            member("id", JsonModel::Int(v.id as int)) + member_if_some(
                "title",
                opt_str_model(v.title),
            ) + member("users", JsonModel::Array(users_wire(v.users))),
        )
    }

    pub open spec fn parse(j: JsonModel) -> Result<ChatView, DecodeFailure> {
        match object_members(j) {
            Err(e) => Err(e),
            Ok(f) => match read_int(f, "id", i64::MIN as int, i64::MAX as int) {
                Err(e) => Err(e),
                Ok(id) => match read_opt_str(f, "title") {
                    Err(e) => Err(e),
                    Ok(title) => match read_users(f, "users") {
                        Err(e) => Err(e),
                        Ok(users) => Ok(ChatView { id: id as i64, title, users }),
                    },
                },
            },
        }
    }

    /// The users that this chat refers to, in order, duplicates included.
    pub fn mentioned_users(&self) -> (r: Vec<&User>)
        ensures
            r@.len() == self.users@.len(),
            forall|i: int| 0 <= i < r@.len() ==> *r@[i] == self.users@[i],
    {
        let mut r: Vec<&User> = Vec::new();
        let mut i: usize = 0;
        while i < self.users.len()
            invariant
                i <= self.users@.len(),
                r@.len() == i,
                forall|j: int| 0 <= j < i ==> *r@[j] == self.users@[j],
            decreases self.users@.len() - i,
        {
            r.push(&self.users[i]);
            i = i + 1;
        }
        r
    }

    /// Encodes the chat for the wire.
    pub fn to_json(&self) -> (r: Json)
        ensures
            r.model() == Chat::wire(self@),
    {
        let mut items: Vec<Json> = Vec::new();
        let mut i: usize = 0;
        while i < self.users.len()
            invariant
                i <= self.users@.len(),
                items_model(items@) == users_wire(users_view(self.users@.take(i as int))),
            decreases self.users@.len() - i,
        {
            let j = self.users[i].to_json();
            let ghost before = items@;
            items.push(j);
            assert(items_model(items@) =~= items_model(before).push(j.model()));
            assert(users_wire(users_view(self.users@.take(i + 1))) =~= users_wire(
                users_view(self.users@.take(i as int)),
            ).push(User::wire(self.users@[i as int]@)));
            i = i + 1;
        }
        assert(self.users@.take(i as int) =~= self.users@);
        proof {
            lemma_array_model(items);
        }
        let mut fields: Vec<(String, Json)> = Vec::new();
        push_member(&mut fields, "id", Json::Int(self.id.0 as i128));
        push_opt_str(&mut fields, "title", &self.title);
        push_member(&mut fields, "users", Json::Array(items));
        proof {
            lemma_object_model(fields);
        }
        Json::Object(fields)
    }

    /// Decodes a chat from the wire.
    pub fn from_json(j: &Json) -> (r: Result<Self, DecodeError>)
        ensures
            match r {
                Ok(v) => Chat::parse(j.model()) == Ok::<ChatView, DecodeFailure>(v@),
                Err(e) => Chat::parse(j.model()) == Err::<ChatView, DecodeFailure>(e@),
            },
    {
        let fields = match members(j) {
            Ok(f) => f,
            Err(e) => return Err(e),
        };
        let id = match get_int(fields, "id", i64::MIN as i128, i64::MAX as i128) {
            Ok(n) => n as i64,
            Err(e) => return Err(e),
        };
        let title = match get_opt_str(fields, "title") {
            Ok(o) => o,
            Err(e) => return Err(e),
        };
        let users = match get_users(fields, "users") {
            Ok(v) => v,
            Err(e) => return Err(e),
        };
        Ok(Chat { id: ChatId(id), title, users })
    }
}

/// Reads a list of users: absent is empty.
fn get_users(fields: &Vec<(String, Json)>, key: &str) -> (r: Result<Vec<User>, DecodeError>)
    ensures
        match r {
            Ok(v) => read_users(fields_model(fields@), key) == Ok::<Seq<UserView>, DecodeFailure>(
                users_view(v@),
            ),
            Err(e) => read_users(fields_model(fields@), key) == Err::<Seq<UserView>, DecodeFailure>(
                e@,
            ),
        },
{
    match get(fields, key) {
        None => {
            let v: Vec<User> = Vec::new();
            assert(users_view(v@) =~= Seq::empty());
            Ok(v)
        },
        Some(Json::Array(items)) => {
            proof {
                lemma_array_model(*items);
            }
            let ghost m = items_model(items@);
            let mut out: Vec<User> = Vec::new();
            let mut i: usize = 0;
            assert(m.take(0) =~= Seq::<JsonModel>::empty());
            assert(users_view(out@) =~= Seq::<UserView>::empty());
            while i < items.len()
                invariant
                    i <= items@.len(),
                    m == items_model(items@),
                    lookup(fields_model(fields@), key@) == Some(JsonModel::Array(m)),
                    parse_users(m.take(i as int)) == Ok::<Seq<UserView>, DecodeFailure>(
                        users_view(out@),
                    ),
                decreases items@.len() - i,
            {
                assert(m.take(i + 1).drop_last() =~= m.take(i as int));
                assert(m.take(i + 1).last() == items@[i as int].model());
                match User::from_json(&items[i]) {
                    Ok(u) => {
                        let ghost before = out@;
                        let ghost uv = u@;
                        out.push(u);
                        assert(users_view(out@) =~= users_view(before).push(uv));
                    },
                    Err(e) => {
                        proof {
                            assert(parse_users(m.take(i + 1)) == Err::<Seq<UserView>, DecodeFailure>(
                                e@,
                            ));
                            lemma_parse_users_prefix(m, i + 1);
                        }
                        return Err(nest(key, e));
                    },
                }
                i = i + 1;
            }
            assert(m.take(i as int) =~= m);
            Ok(out)
        },
        Some(_) => Err(error_at(DecodeErrorKind::WrongType, key)),
    }
}

/// A failure among the first `k` elements is the failure of the whole array.
proof fn lemma_parse_users_prefix(items: Seq<JsonModel>, k: int)
    requires
        0 <= k <= items.len(),
        parse_users(items.take(k)) is Err,
    ensures
        parse_users(items) == parse_users(items.take(k)),
    decreases items.len() - k,
{
    if k < items.len() {
        assert(items.take(k + 1).drop_last() =~= items.take(k));
        lemma_parse_users_prefix(items, k + 1);
    } else {
        assert(items.take(k) =~= items);
    }
}

proof fn lemma_users_round_trip(us: Seq<UserView>)
    ensures
        parse_users(users_wire(us)) == Ok::<Seq<UserView>, DecodeFailure>(us),
    decreases us.len(),
{
    if us.len() > 0 {
        assert(users_wire(us).drop_last() =~= users_wire(us.drop_last()));
        lemma_users_round_trip(us.drop_last());
        lemma_user_round_trip(us.last());
        assert(users_wire(us).last() == User::wire(us.last()));
        assert(us.drop_last().push(us.last()) =~= us);
    } else {
        assert(users_wire(us) =~= Seq::empty());
        assert(us =~= Seq::empty());
    }
}

/// Decoding the wire form of any chat gives the same chat back.
pub proof fn lemma_chat_round_trip(c: ChatView)
    ensures
        Chat::parse(Chat::wire(c)) == Ok::<ChatView, DecodeFailure>(c),
{
    broadcast use lemma_lookup_append, lemma_lookup_single, lemma_lookup_empty;

    reveal_strlit("id");
    reveal_strlit("title");
    reveal_strlit("users");
    assert("id"@.len() == 2);
    assert("title"@.len() == 5);
    assert("users"@.len() == 5);
    assert("title"@[0] != "users"@[0]);
    lemma_users_round_trip(c.users);
}

} // verus!
