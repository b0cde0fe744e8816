use vstd::prelude::*;

verus! {

/// A value in a JSON payload, as entities are written to and read from the wire.
pub enum Json {
    Null,
    Bool(bool),
    Int(i128),
    Str(String),
    Array(Vec<Json>),
    Object(Vec<(String, Json)>),
}

/// The mathematical model of a wire value.
pub enum JsonModel {
    Null,
    Bool(bool),
    Int(int),
    Str(Seq<char>),
    Array(Seq<JsonModel>),
    Object(Seq<(Seq<char>, JsonModel)>),
}

/// The members of an object, in the order in which they were written.
pub type Fields = Seq<(Seq<char>, JsonModel)>;

impl Json {
    pub open spec fn model(&self) -> JsonModel
        decreases self,
    {
        match self {
            Json::Null => JsonModel::Null,
            Json::Bool(b) => JsonModel::Bool(*b),
            Json::Int(i) => JsonModel::Int(*i as int),
            Json::Str(s) => JsonModel::Str(s@),
            Json::Array(v) => JsonModel::Array(
                Seq::new(
                    v@.len(),
                    |i: int|
                        if 0 <= i < v@.len() {
                            v@[i].model()
                        } else {
                            JsonModel::Null
                        },
                ),
            ),
            Json::Object(v) => JsonModel::Object(
                Seq::new(
                    v@.len(),
                    |i: int|
                        if 0 <= i < v@.len() {
                            (v@[i].0@, v@[i].1.model())
                        } else {
                            (Seq::empty(), JsonModel::Null)
                        },
                ),
            ),
        }
    }
}

/// The model of a list of object members.
pub open spec fn fields_model(v: Seq<(String, Json)>) -> Fields {
    Seq::new(v.len(), |i: int| (v[i].0@, v[i].1.model()))
}

/// The model of a list of array elements.
pub open spec fn items_model(v: Seq<Json>) -> Seq<JsonModel> {
    Seq::new(v.len(), |i: int| v[i].model())
}

pub proof fn lemma_object_model(v: Vec<(String, Json)>)
    ensures
        Json::Object(v).model() == JsonModel::Object(fields_model(v@)),
{
    assert(fields_model(v@) =~= match Json::Object(v).model() {
        JsonModel::Object(f) => f,
        _ => Seq::empty(),
    });
}

pub proof fn lemma_array_model(v: Vec<Json>)
    ensures
        Json::Array(v).model() == JsonModel::Array(items_model(v@)),
{
    assert(items_model(v@) =~= match Json::Array(v).model() {
        JsonModel::Array(f) => f,
        _ => Seq::empty(),
    });
}

/// The value of the first member named `key`, if any.
pub open spec fn lookup(fields: Fields, key: Seq<char>) -> Option<JsonModel>
    decreases fields.len(),
{
    if fields.len() == 0 {
        None
    } else if fields[0].0 == key {
        Some(fields[0].1)
    } else {
        lookup(fields.drop_first(), key)
    }
}

/// Looking a key up in two lists of members laid end to end.
pub broadcast proof fn lemma_lookup_append(a: Fields, b: Fields, key: Seq<char>)
    ensures
        #[trigger] lookup(a + b, key) == (match lookup(a, key) {
            Some(v) => Some(v),
            None => lookup(b, key),
        }),
    decreases a.len(),
{
    if a.len() > 0 {
        assert((a + b).drop_first() =~= a.drop_first() + b);
        lemma_lookup_append(a.drop_first(), b, key);
    } else {
        assert(a + b =~= b);
    }
}

/// Looking a key up in a single member.
pub broadcast proof fn lemma_lookup_single(k: Seq<char>, v: JsonModel, key: Seq<char>)
    ensures
        #[trigger] lookup(seq![(k, v)], key) == (if k == key {
            Some(v)
        } else {
            None
        }),
{
    assert(seq![(k, v)].drop_first() =~= Seq::<(Seq<char>, JsonModel)>::empty());
    assert(lookup(Seq::<(Seq<char>, JsonModel)>::empty(), key) == None::<JsonModel>);
}

/// Nothing is found in no members.
pub broadcast proof fn lemma_lookup_empty(key: Seq<char>)
    ensures
        #[trigger] lookup(Seq::empty(), key) == None::<JsonModel>,
{
}

/// The members of a value, or none where it is not an object.
pub open spec fn wire_members(j: JsonModel) -> Fields {
    match j {
        JsonModel::Object(f) => f,
        _ => Seq::empty(),
    }
}

/// A member that is always written.
pub open spec fn member(key: &str, value: JsonModel) -> Fields {
    seq![(key@, value)]
}

/// Option-based suppression: written if and only if a value is present.
pub open spec fn member_if_some(key: &str, value: Option<JsonModel>) -> Fields {
    match value {
        Some(v) => seq![(key@, v)],
        None => Seq::empty(),
    }
}

/// Default-value suppression: a flag that defaults to `false` is written only when `true`.
pub open spec fn member_if_true(key: &str, flag: bool) -> Fields {
    if flag {
        seq![(key@, JsonModel::Bool(true))]
    } else {
        Seq::empty()
    }
}

pub open spec fn opt_bool_model(o: Option<bool>) -> Option<JsonModel> {
    match o {
        Some(b) => Some(JsonModel::Bool(b)),
        None => None,
    }
}

pub open spec fn opt_str_model(o: Option<Seq<char>>) -> Option<JsonModel> {
    match o {
        Some(s) => Some(JsonModel::Str(s)),
        None => None,
    }
}

/// Appends a member.
pub fn push_member(fields: &mut Vec<(String, Json)>, key: &str, value: Json)
    ensures
        fields_model(final(fields)@) == fields_model(old(fields)@) + member(key, value.model()),
{
    let k = key.to_owned();
    let ghost m = value.model();
    fields.push((k, value));
    assert(fields_model(fields@) =~= fields_model(old(fields)@) + member(key, m));
}

/// Appends a tri-state flag, leaving it out when unset.
pub fn push_opt_bool(fields: &mut Vec<(String, Json)>, key: &str, value: Option<bool>)
    ensures
        fields_model(final(fields)@) == fields_model(old(fields)@) + member_if_some(
            key,
            opt_bool_model(value),
        ),
{
    match value {
        Some(b) => push_member(fields, key, Json::Bool(b)),
        None => {
            assert(fields_model(fields@) =~= fields_model(fields@) + Seq::empty());
        },
    }
}

/// Appends an optional string, leaving it out when absent.
pub fn push_opt_str(fields: &mut Vec<(String, Json)>, key: &str, value: &Option<String>)
    ensures
        fields_model(final(fields)@) == fields_model(old(fields)@) + member_if_some(
            key,
            opt_str_model(opt_view(*value)),
        ),
{
    match value {
        Some(s) => push_member(fields, key, Json::Str(s.clone())),
        None => {
            assert(fields_model(fields@) =~= fields_model(fields@) + Seq::empty());
        },
    }
}

/// Appends a flag that defaults to `false`, leaving it out when it has that default.
pub fn push_flag(fields: &mut Vec<(String, Json)>, key: &str, flag: bool)
    ensures
        fields_model(final(fields)@) == fields_model(old(fields)@) + member_if_true(key, flag),
{
    if flag {
        push_member(fields, key, Json::Bool(true));
    } else {
        assert(fields_model(fields@) =~= fields_model(fields@) + Seq::empty());
    }
}

pub open spec fn opt_view(o: Option<String>) -> Option<Seq<char>> {
    match o {
        Some(s) => Some(s@),
        None => None,
    }
}

/// Finds the first member named `key`.
pub fn get<'a>(fields: &'a Vec<(String, Json)>, key: &str) -> (r: Option<&'a Json>)
    ensures
        match r {
            Some(j) => lookup(fields_model(fields@), key@) == Some(j.model()),
            None => lookup(fields_model(fields@), key@) == None::<JsonModel>,
        },
{
    let k = key.to_owned();
    let mut i: usize = 0;
    assert(fields_model(fields@).subrange(0, fields@.len() as int) =~= fields_model(fields@));
    while i < fields.len()
        invariant
            0 <= i <= fields@.len(),
            k@ == key@,
            lookup(fields_model(fields@), key@) == lookup(
                fields_model(fields@).subrange(i as int, fields@.len() as int),
                key@,
            ),
        decreases fields@.len() - i,
    {
        let ghost rest = fields_model(fields@).subrange(i as int, fields@.len() as int);
        assert(rest.drop_first() =~= fields_model(fields@).subrange(
            i + 1,
            fields@.len() as int,
        ));
        assert(rest[0] == (fields@[i as int].0@, fields@[i as int].1.model()));
        if fields[i].0 == k {
            return Some(&fields[i].1);
        }
        i = i + 1;
    }
    None
}

/// What went wrong while reading a payload.
#[derive(Clone, Copy, Debug, PartialEq, Eq, Structural)]
pub enum DecodeErrorKind {
    /// An entity was expected, and something else than an object came.
    NotAnObject,
    /// A mandatory member is absent.
    MissingField,
    /// A member holds a value of another kind than its field's.
    WrongType,
    /// A number does not fit its field, or a timestamp lies outside the calendar.
    OutOfRange,
}

/// A decoding failure, with the path of member names that leads to the offending value.
#[derive(Clone, Debug)]
pub struct DecodeError {
    pub kind: DecodeErrorKind,
    pub path: Vec<String>,
}

/// The model of a decoding failure.
pub struct DecodeFailure {
    pub kind: DecodeErrorKind,
    pub path: Seq<Seq<char>>,
}

impl View for DecodeError {
    type V = DecodeFailure;

    open spec fn view(&self) -> DecodeFailure {
        DecodeFailure { kind: self.kind, path: self.path@.map_values(|s: String| s@) }
    }
}

pub open spec fn failure<A>(kind: DecodeErrorKind, path: Seq<Seq<char>>) -> Result<A, DecodeFailure> {
    Err(DecodeFailure { kind, path })
}

/// A failure inside the member `key` is reported with `key` in front of its path.
pub open spec fn within<A>(key: &str, r: Result<A, DecodeFailure>) -> Result<A, DecodeFailure> {
    match r {
        Ok(v) => Ok(v),
        Err(f) => failure(f.kind, seq![key@] + f.path),
    }
}

/// The members of a value that must be an object.
pub open spec fn object_members(j: JsonModel) -> Result<Fields, DecodeFailure> {
    match j {
        JsonModel::Object(f) => Ok(f),
        _ => failure(DecodeErrorKind::NotAnObject, Seq::empty()),
    }
}

/// A mandatory integer member within `lo..=hi`.
pub open spec fn read_int(f: Fields, key: &str, lo: int, hi: int) -> Result<int, DecodeFailure> {
    match lookup(f, key@) {
        None => failure(DecodeErrorKind::MissingField, seq![key@]),
        Some(JsonModel::Int(n)) => if lo <= n <= hi {
            Ok(n)
        } else {
            failure(DecodeErrorKind::OutOfRange, seq![key@])
        },
        Some(_) => failure(DecodeErrorKind::WrongType, seq![key@]),
    }
}

/// A mandatory boolean member.
pub open spec fn read_bool(f: Fields, key: &str) -> Result<bool, DecodeFailure> {
    match lookup(f, key@) {
        None => failure(DecodeErrorKind::MissingField, seq![key@]),
        Some(JsonModel::Bool(b)) => Ok(b),
        Some(_) => failure(DecodeErrorKind::WrongType, seq![key@]),
    }
}

/// A mandatory string member.
pub open spec fn read_str(f: Fields, key: &str) -> Result<Seq<char>, DecodeFailure> {
    match lookup(f, key@) {
        None => failure(DecodeErrorKind::MissingField, seq![key@]),
        Some(JsonModel::Str(s)) => Ok(s),
        Some(_) => failure(DecodeErrorKind::WrongType, seq![key@]),
    }
}

/// An optional boolean member: absent or `null` is unset.
pub open spec fn read_opt_bool(f: Fields, key: &str) -> Result<Option<bool>, DecodeFailure> {
    match lookup(f, key@) {
        None => Ok(None),
        Some(JsonModel::Null) => Ok(None),
        Some(JsonModel::Bool(b)) => Ok(Some(b)),
        Some(_) => failure(DecodeErrorKind::WrongType, seq![key@]),
    }
}

/// An optional string member: absent or `null` is unset.
pub open spec fn read_opt_str(f: Fields, key: &str) -> Result<Option<Seq<char>>, DecodeFailure> {
    match lookup(f, key@) {
        None => Ok(None),
        Some(JsonModel::Null) => Ok(None),
        Some(JsonModel::Str(s)) => Ok(Some(s)),
        Some(_) => failure(DecodeErrorKind::WrongType, seq![key@]),
    }
}

/// A flag that defaults to `false`: absent means `false`.
pub open spec fn read_flag(f: Fields, key: &str) -> Result<bool, DecodeFailure> {
    match lookup(f, key@) {
        None => Ok(false),
        Some(JsonModel::Bool(b)) => Ok(b),
        Some(_) => failure(DecodeErrorKind::WrongType, seq![key@]),
    }
}

/// Builds the failure of kind `kind` at the member `key`.
pub fn error_at(kind: DecodeErrorKind, key: &str) -> (e: DecodeError)
    ensures
        e@ == (DecodeFailure { kind, path: seq![key@] }),
{
    let mut path: Vec<String> = Vec::new();
    path.push(key.to_owned());
    let e = DecodeError { kind, path };
    assert(e@.path =~= seq![key@]);
    e
}

/// Puts the member name `key` in front of the path of `e`.
pub fn nest(key: &str, e: DecodeError) -> (r: DecodeError)
    ensures
        r@ == (DecodeFailure { kind: e@.kind, path: seq![key@] + e@.path }),
{
    let mut path = e.path;
    path.insert(0, key.to_owned());
    let r = DecodeError { kind: e.kind, path };
    assert(r@.path =~= seq![key@] + e@.path);
    r
}

/// The members of `j`, which must be an object.
pub fn members(j: &Json) -> (r: Result<&Vec<(String, Json)>, DecodeError>)
    ensures
        match r {
            Ok(v) => object_members(j.model()) == Ok::<Fields, DecodeFailure>(fields_model(v@)),
            Err(e) => object_members(j.model()) == Err::<Fields, DecodeFailure>(e@),
        },
{
    match j {
        Json::Object(v) => {
            proof {
                lemma_object_model(*v);
            }
            Ok(v)
        },
        _ => {
            let e = DecodeError { kind: DecodeErrorKind::NotAnObject, path: Vec::new() };
            assert(e@.path =~= Seq::empty());
            Err(e)
        },
    }
}

/// Reads a mandatory integer member within `lo..=hi`.
pub fn get_int(fields: &Vec<(String, Json)>, key: &str, lo: i128, hi: i128) -> (r: Result<
    i128,
    DecodeError,
>)
    ensures
        match r {
            Ok(n) => read_int(fields_model(fields@), key, lo as int, hi as int) == Ok::<
                int,
                DecodeFailure,
            >(n as int),
            Err(e) => read_int(fields_model(fields@), key, lo as int, hi as int) == Err::<
                int,
                DecodeFailure,
            >(e@),
        },
{
    match get(fields, key) {
        None => Err(error_at(DecodeErrorKind::MissingField, key)),
        Some(Json::Int(n)) => if lo <= *n && *n <= hi {
            Ok(*n)
        } else {
            Err(error_at(DecodeErrorKind::OutOfRange, key))
        },
        Some(_) => Err(error_at(DecodeErrorKind::WrongType, key)),
    }
}

/// Reads a mandatory boolean member.
pub fn get_bool(fields: &Vec<(String, Json)>, key: &str) -> (r: Result<bool, DecodeError>)
    ensures
        match r {
            Ok(b) => read_bool(fields_model(fields@), key) == Ok::<bool, DecodeFailure>(b),
            Err(e) => read_bool(fields_model(fields@), key) == Err::<bool, DecodeFailure>(e@),
        },
{
    match get(fields, key) {
        None => Err(error_at(DecodeErrorKind::MissingField, key)),
        Some(Json::Bool(b)) => Ok(*b),
        Some(_) => Err(error_at(DecodeErrorKind::WrongType, key)),
    }
}

/// Reads a mandatory string member.
pub fn get_str(fields: &Vec<(String, Json)>, key: &str) -> (r: Result<String, DecodeError>)
    ensures
        match r {
            Ok(s) => read_str(fields_model(fields@), key) == Ok::<Seq<char>, DecodeFailure>(s@),
            Err(e) => read_str(fields_model(fields@), key) == Err::<Seq<char>, DecodeFailure>(e@),
        },
{
    match get(fields, key) {
        None => Err(error_at(DecodeErrorKind::MissingField, key)),
        Some(Json::Str(s)) => Ok(s.clone()),
        Some(_) => Err(error_at(DecodeErrorKind::WrongType, key)),
    }
}

/// Reads a tri-state flag: absent or `null` is unset.
pub fn get_opt_bool(fields: &Vec<(String, Json)>, key: &str) -> (r: Result<Option<bool>, DecodeError>)
    ensures
        match r {
            Ok(o) => read_opt_bool(fields_model(fields@), key) == Ok::<Option<bool>, DecodeFailure>(o),
            Err(e) => read_opt_bool(fields_model(fields@), key) == Err::<Option<bool>, DecodeFailure>(e@),
        },
{
    match get(fields, key) {
        None => Ok(None),
        Some(Json::Null) => Ok(None),
        Some(Json::Bool(b)) => Ok(Some(*b)),
        Some(_) => Err(error_at(DecodeErrorKind::WrongType, key)),
    }
}

/// Reads an optional string: absent or `null` is unset.
pub fn get_opt_str(fields: &Vec<(String, Json)>, key: &str) -> (r: Result<Option<String>, DecodeError>)
    ensures
        match r {
            Ok(o) => read_opt_str(fields_model(fields@), key) == Ok::<Option<Seq<char>>, DecodeFailure>(opt_view(o)),
            Err(e) => read_opt_str(fields_model(fields@), key) == Err::<Option<Seq<char>>, DecodeFailure>(e@),
        },
{
    match get(fields, key) {
        None => Ok(None),
        Some(Json::Null) => Ok(None),
        Some(Json::Str(s)) => Ok(Some(s.clone())),
        Some(_) => Err(error_at(DecodeErrorKind::WrongType, key)),
    }
}

/// Reads a flag that defaults to `false`: absent means `false`.
pub fn get_flag(fields: &Vec<(String, Json)>, key: &str) -> (r: Result<bool, DecodeError>)
    ensures
        match r {
            Ok(b) => read_flag(fields_model(fields@), key) == Ok::<bool, DecodeFailure>(b),
            Err(e) => read_flag(fields_model(fields@), key) == Err::<bool, DecodeFailure>(e@),
        },
{
    match get(fields, key) {
        None => Ok(false),
        Some(Json::Bool(b)) => Ok(*b),
        Some(_) => Err(error_at(DecodeErrorKind::WrongType, key)),
    }
}

} // verus!
