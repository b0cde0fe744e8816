use vstd::prelude::*;

use crate::wire::{
    fields_model, get_bool, get_int, get_opt_str, get_str, lemma_lookup_append,
    lemma_lookup_empty, lemma_lookup_single, lemma_object_model, member, member_if_some, members,
    object_members, opt_str_model, opt_view, push_member, push_opt_str, read_bool, read_int,
    read_opt_str, read_str, DecodeError, DecodeFailure, Json, JsonModel,
};

verus! {

/// A user or a bot, identified by `id`.
#[derive(Clone, Debug, PartialEq, Eq, Hash)]
pub struct User {
    pub id: u64,
    pub is_bot: bool,
    pub first_name: String,
    pub username: Option<String>,
}

/// The model of a [`User`].
pub struct UserView {
    pub id: u64,
    pub is_bot: bool,
    pub first_name: Seq<char>,
    pub username: Option<Seq<char>>,
}

impl View for User {
    type V = UserView;

    open spec fn view(&self) -> UserView {
        UserView {
            id: self.id,
            is_bot: self.is_bot,
            first_name: self.first_name@,
            username: opt_view(self.username),
        }
    }
}

impl User {
    pub open spec fn wire(v: UserView) -> JsonModel {
        JsonModel::Object(
            member("id", JsonModel::Int(v.id as int)) + member("is_bot", JsonModel::Bool(v.is_bot))
                + member("first_name", JsonModel::Str(v.first_name)) + member_if_some(
                "username",
                opt_str_model(v.username),
            ),
        )
    }

    pub open spec fn parse(j: JsonModel) -> Result<UserView, DecodeFailure> {
        match object_members(j) {
            Err(e) => Err(e),
            Ok(f) => match read_int(f, "id", 0, u64::MAX as int) {
                Err(e) => Err(e),
                Ok(id) => match read_bool(f, "is_bot") {
                    Err(e) => Err(e),
                    Ok(is_bot) => match read_str(f, "first_name") {
                        Err(e) => Err(e),
                        Ok(first_name) => match read_opt_str(f, "username") {
                            Err(e) => Err(e),
                            Ok(username) => Ok(
                                UserView { id: id as u64, is_bot, first_name, username },
                            ),
                        },
                    },
                },
            },
        }
    }

    /// Encodes the user for the wire.
    pub fn to_json(&self) -> (r: Json)
        ensures
            r.model() == User::wire(self@),
    {
        let mut fields: Vec<(String, Json)> = Vec::new();
        push_member(&mut fields, "id", Json::Int(self.id as i128));
        push_member(&mut fields, "is_bot", Json::Bool(self.is_bot));
        push_member(&mut fields, "first_name", Json::Str(self.first_name.clone()));
        push_opt_str(&mut fields, "username", &self.username);
        proof {
            lemma_object_model(fields);
        }
        Json::Object(fields)
    }

    /// Decodes a user from the wire.
    pub fn from_json(j: &Json) -> (r: Result<Self, DecodeError>)
        ensures
            match r {
                Ok(v) => User::parse(j.model()) == Ok::<UserView, DecodeFailure>(v@),
                Err(e) => User::parse(j.model()) == Err::<UserView, DecodeFailure>(e@),
            },
    {
        let fields = match members(j) {
            Ok(f) => f,
            Err(e) => return Err(e),
        };
        let id = match get_int(fields, "id", 0, u64::MAX as i128) {
            Ok(n) => n as u64,
            Err(e) => return Err(e),
        };
        let is_bot = match get_bool(fields, "is_bot") {
            Ok(b) => b,
            Err(e) => return Err(e),
        };
        let first_name = match get_str(fields, "first_name") {
            Ok(s) => s,
            Err(e) => return Err(e),
        };
        let username = match get_opt_str(fields, "username") {
            Ok(o) => o,
            Err(e) => return Err(e),
        };
        Ok(User { id, is_bot, first_name, username })
    }
}

/// Decoding the wire form of any user gives the same user back.
pub proof fn lemma_user_round_trip(u: UserView)
    ensures
        User::parse(User::wire(u)) == Ok::<UserView, DecodeFailure>(u),
{
    broadcast use lemma_lookup_append, lemma_lookup_single, lemma_lookup_empty;

    reveal_strlit("id");
    reveal_strlit("is_bot");
    reveal_strlit("first_name");
    reveal_strlit("username");
    assert("id"@.len() == 2);
    assert("is_bot"@.len() == 6);
    assert("first_name"@.len() == 10);
    assert("username"@.len() == 8);
}

} // verus!
