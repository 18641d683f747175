use crate::error::{DecodeError, Entity, Field};
use vstd::prelude::*;

verus! {

/// The mathematical form of a JSON value: strings as character sequences,
/// arrays as sequences, objects as ordered sequences of key/value pairs.
pub enum Json {
    Null,
    Bool(bool),
    Num(Seq<char>),
    Str(Seq<char>),
    Arr(Seq<Json>),
    Obj(Seq<(Seq<char>, Json)>),
}

/// One member of a JSON object.
#[derive(Debug, PartialEq)]
pub struct Member {
    pub key: String,
    pub value: JsonValue,
}

/// A JSON value held in memory. Numbers keep their decimal text so that
/// they are re-emitted exactly as read. Object members keep their order.
///
/// An object may repeat a name: a recognized field is then read from its
/// first occurrence, and an unrecognized name enters the extension once, at
/// its first place, with its last value.
#[derive(Debug, PartialEq)]
pub enum JsonValue {
    Null,
    Bool(bool),
    Number(String),
    Str(String),
    Array(Vec<JsonValue>),
    Object(Vec<Member>),
}

impl View for JsonValue {
    type V = Json;

    open spec fn view(&self) -> Json
        decreases self,
    {
        match self {
            JsonValue::Null => Json::Null,
            JsonValue::Bool(b) => Json::Bool(*b),
            JsonValue::Number(n) => Json::Num(n@),
            JsonValue::Str(s) => Json::Str(s@),
            JsonValue::Array(items) => Json::Arr(
                Seq::new(
                    items@.len(),
                    |i: int|
                        if 0 <= i < items@.len() {
                            items@[i].view()
                        } else {
                            Json::Null
                        },
                ),
            ),
            JsonValue::Object(members) => Json::Obj(
                Seq::new(
                    members@.len(),
                    |i: int|
                        (
                            members@[i].key@,
                            if 0 <= i < members@.len() {
                                members@[i].value.view()
                            } else {
                                Json::Null
                            },
                        ),
                ),
            ),
        }
    }
}

/// The view of a list of object members.
pub open spec fn members_view(m: Seq<Member>) -> Seq<(Seq<char>, Json)> {
    Seq::new(m.len(), |i: int| (m[i].key@, m[i].value@))
}

/// The view of a list of values.
pub open spec fn items_view(v: Seq<JsonValue>) -> Seq<Json> {
    Seq::new(v.len(), |i: int| v[i]@)
}

/// The view of an object is the view of its members.
pub proof fn lemma_object_view(m: Vec<Member>)
    ensures
        JsonValue::Object(m)@ == Json::Obj(members_view(m@)),
{
    assert(JsonValue::Object(m)@->Obj_0 =~= members_view(m@));
}

/// The view of an array is the view of its items.
pub proof fn lemma_array_view(v: Vec<JsonValue>)
    ensures
        JsonValue::Array(v)@ == Json::Arr(items_view(v@)),
{
    assert(JsonValue::Array(v)@->Arr_0 =~= items_view(v@));
}

/// The position of the first member named `key` at or after `from`.
pub open spec fn find_from(m: Seq<(Seq<char>, Json)>, key: Seq<char>, from: int) -> Option<int>
    decreases m.len() - from,
{
    if from < 0 || from >= m.len() {
        None
    } else if m[from].0 == key {
        Some(from)
    } else {
        find_from(m, key, from + 1)
    }
}

/// The value of the first member named `key`, if any.
pub open spec fn lookup(m: Seq<(Seq<char>, Json)>, key: Seq<char>) -> Option<Json> {
    match find_from(m, key, 0) {
        Some(i) => Some(m[i].1),
        None => None,
    }
}

/// Whether some member of `m` is named `key`.
pub open spec fn has_key(m: Seq<(Seq<char>, Json)>, key: Seq<char>) -> bool {
    exists|i: int| 0 <= i < m.len() && m[i].0 == key
}

pub proof fn lemma_find_from_absent(m: Seq<(Seq<char>, Json)>, key: Seq<char>, from: int)
    requires
        0 <= from,
        forall|i: int| from <= i < m.len() ==> m[i].0 != key,
    ensures
        find_from(m, key, from) is None,
    decreases m.len() - from,
{
    if from < m.len() {
        lemma_find_from_absent(m, key, from + 1);
    }
}

pub proof fn lemma_find_from_first(m: Seq<(Seq<char>, Json)>, key: Seq<char>, from: int, at: int)
    requires
        0 <= from <= at < m.len(),
        m[at].0 == key,
        forall|i: int| from <= i < at ==> m[i].0 != key,
    ensures
        find_from(m, key, from) == Some(at),
    decreases at - from,
{
    if from < at {
        lemma_find_from_first(m, key, from + 1, at);
    }
}

/// Whether `key` is absent from `m` exactly when `lookup` finds nothing.
pub proof fn lemma_lookup_none(m: Seq<(Seq<char>, Json)>, key: Seq<char>)
    ensures
        lookup(m, key) is None <==> !has_key(m, key),
{
    if has_key(m, key) {
        let j = choose|j: int| 0 <= j < m.len() && m[j].0 == key;
        lemma_find_some(m, key, 0, j);
    } else {
        lemma_find_from_absent(m, key, 0);
    }
}

proof fn lemma_find_some(m: Seq<(Seq<char>, Json)>, key: Seq<char>, from: int, j: int)
    requires
        0 <= from <= j < m.len(),
        m[j].0 == key,
    ensures
        find_from(m, key, from) is Some,
    decreases j - from,
{
    if m[from].0 != key {
        lemma_find_some(m, key, from + 1, j);
    }
}

/// Whether a string holds exactly the characters of `name`.
pub fn same_text(k: &String, name: &str) -> (r: bool)
    ensures
        r == (k@ == name@),
{
    let n: String = name.to_owned();
    *k == n
}

/// A copy of a JSON value, built member by member.
pub fn copy_json(v: &JsonValue) -> (r: JsonValue)
    ensures
        r@ == v@,
    decreases v@,
{
    match v {
        JsonValue::Null => JsonValue::Null,
        JsonValue::Bool(b) => JsonValue::Bool(*b),
        JsonValue::Number(n) => JsonValue::Number(n.clone()),
        JsonValue::Str(s) => JsonValue::Str(s.clone()),
        JsonValue::Array(items) => {
            let mut out: Vec<JsonValue> = Vec::new();
            let mut i: usize = 0;
            while i < items.len()
                invariant
                    *v == JsonValue::Array(*items),
                    i <= items@.len(),
                    out@.len() == i,
                    forall|j: int| 0 <= j < i ==> out@[j]@ == items@[j]@,
                decreases items@.len() - i,
            {
                let item = &items[i];
                proof {
                    let t = v@->Arr_0;
                    assert(t[i as int] == item@);
                    assert(decreases_to!(t => t[i as int]));
                }
                let c = copy_json(item);
                out.push(c);
                i = i + 1;
            }
            let r = JsonValue::Array(out);
            assert(r@ == v@) by {
                if let Json::Arr(a) = r@ {
                    if let Json::Arr(b) = v@ {
                        assert(a =~= b);
                    }
                }
            }
            r
        },
        JsonValue::Object(members) => {
            let mut out: Vec<Member> = Vec::new();
            let mut i: usize = 0;
            while i < members.len()
                invariant
                    *v == JsonValue::Object(*members),
                    i <= members@.len(),
                    out@.len() == i,
                    forall|j: int|
                        0 <= j < i ==> out@[j].key@ == members@[j].key@ && out@[j].value@ == members@[j].value@,
                decreases members@.len() - i,
            {
                let member = &members[i];
                proof {
                    let t = v@->Obj_0;
                    assert(*member == members@[i as int]);
                    assert(t[i as int].1 == member.value@);
                    assert(decreases_to!(t => t[i as int]));
                }
                let k = member.key.clone();
                let c = copy_json(&member.value);
                out.push(Member { key: k, value: c });
                i = i + 1;
            }
            let r = JsonValue::Object(out);
            assert(r@ == v@) by {
                if let Json::Obj(a) = r@ {
                    if let Json::Obj(b) = v@ {
                        assert(a =~= b);
                    }
                }
            }
            r
        },
    }
}

/// The position of the first member named `name`, if any.
pub fn find_member(m: &Vec<Member>, name: &str) -> (r: Option<usize>)
    ensures
        r matches Some(i) ==> i < m@.len() && find_from(members_view(m@), name@, 0) == Some(
            i as int,
        ),
        r is None ==> find_from(members_view(m@), name@, 0) is None,
{
    let ghost mv = members_view(m@);
    let mut i: usize = 0;
    while i < m.len()
        invariant
            i <= m@.len(),
            mv == members_view(m@),
            forall|j: int| 0 <= j < i ==> mv[j].0 != name@,
        decreases m@.len() - i,
    {
        if same_text(&m[i].key, name) {
            proof {
                lemma_find_from_first(mv, name@, 0, i as int);
            }
            return Some(i);
        }
        i = i + 1;
    }
    proof {
        lemma_find_from_absent(mv, name@, 0);
    }
    None
}

/// Reading a required string member named `name`, for the field `f` of `at`.
pub open spec fn string_field(m: Seq<(Seq<char>, Json)>, name: Seq<char>, at: Entity, f: Field) -> Result<
    Seq<char>,
    DecodeError,
> {
    match lookup(m, name) {
        None => Err(DecodeError::MissingRequiredField(at, f)),
        Some(Json::Str(s)) => Ok(s),
        Some(_) => Err(DecodeError::WrongFieldType(at, f)),
    }
}

/// Reads the required string member named `name`, for the field `f` of `at`.
pub fn string_member(m: &Vec<Member>, name: &str, at: Entity, f: Field) -> (r: Result<String, DecodeError>)
    ensures
        match string_field(members_view(m@), name@, at, f) {
            Ok(s) => r is Ok && r->Ok_0@ == s,
            Err(e) => r == Err::<String, DecodeError>(e),
        },
{
    match find_member(m, name) {
        None => Err(DecodeError::MissingRequiredField(at, f)),
        Some(i) => match &m[i].value {
            JsonValue::Str(s) => Ok(s.clone()),
            _ => Err(DecodeError::WrongFieldType(at, f)),
        },
    }
}

} // verus!
