use vstd::prelude::*;

verus! {

#[verifier::external_type_specification]
#[verifier::external_body]
pub struct ExJsonValue(serde_json::Value);

/// The abstract value of a JSON document. Numbers are kept without their
/// value: nothing here reads one.
pub ghost enum JsonModel {
    Null,
    Bool(bool),
    Number,
    Str(Seq<char>),
    Array(Seq<JsonModel>),
    Object(Seq<(Seq<char>, JsonModel)>),
}

/// A JSON document held as plain values.
#[derive(Debug)]
pub enum Json {
    Null,
    Bool(bool),
    Number,
    Str(String),
    Array(Vec<Json>),
    /// The members in the order serde_json keeps them.
    Object(Vec<(String, Json)>),
}

pub open spec fn json_view(j: Json) -> JsonModel
    decreases j,
{
    match j {
        Json::Null => JsonModel::Null,
        Json::Bool(b) => JsonModel::Bool(b),
        Json::Number => JsonModel::Number,
        Json::Str(s) => JsonModel::Str(s@),
        Json::Array(items) => JsonModel::Array(
            Seq::new(
                items@.len(),
                |i: int|
                    if 0 <= i < items@.len() {
                        json_view(items@[i])
                    } else {
                        JsonModel::Null
                    },
            ),
        ),
        Json::Object(members) => JsonModel::Object(
            Seq::new(
                members@.len(),
                |i: int|
                    if 0 <= i < members@.len() {
                        (members@[i].0@, json_view(members@[i].1))
                    } else {
                        (Seq::empty(), JsonModel::Null)
                    },
            ),
        ),
    }
}

pub open spec fn opt_json_view(o: Option<&Json>) -> Option<JsonModel> {
    match o {
        Some(j) => Some(json_view(*j)),
        None => None,
    }
}

/// What `serde_json::from_str` makes of a text, as a `JsonModel`; `None`
/// where the text is not JSON.
pub uninterp spec fn json_parsed(text: Seq<char>) -> Option<JsonModel>;

/// Relies on `serde_json::from_str` into a `serde_json::Value`, converted
/// variant for variant into `Json`.
#[verifier::external_body]
pub(crate) fn parse_json(text: &str) -> (r: Option<Json>)
    ensures
        match r {
            Some(j) => json_parsed(text@) == Some(json_view(j)),
            None => json_parsed(text@) is None,
        },
{
    serde_json::from_str::<serde_json::Value>(text).ok().map(json_of_value)
}

/// Converts a `serde_json::Value` into `Json`, one variant into the same one;
/// the conversion of `parse_json`.
#[verifier::external_body]
fn json_of_value(v: serde_json::Value) -> Json {
    match v {
        serde_json::Value::Null => Json::Null,
        serde_json::Value::Bool(b) => Json::Bool(b),
        serde_json::Value::Number(_) => Json::Number,
        serde_json::Value::String(s) => Json::Str(s),
        serde_json::Value::Array(a) => Json::Array(a.into_iter().map(json_of_value).collect()),
        serde_json::Value::Object(m) => Json::Object(
            m.into_iter().map(|(k, x)| (k, json_of_value(x))).collect(),
        ),
    }
}

/// The value of the first member named `key`, if any.
pub open spec fn lookup(members: Seq<(Seq<char>, JsonModel)>, key: Seq<char>) -> Option<JsonModel>
    decreases members.len(),
{
    if members.len() == 0 {
        None
    } else if members[0].0 == key {
        Some(members[0].1)
    } else {
        lookup(members.drop_first(), key)
    }
}

/// The member `key` of an object; `None` for any other value.
pub open spec fn member_spec(j: JsonModel, key: Seq<char>) -> Option<JsonModel> {
    match j {
        JsonModel::Object(members) => lookup(members, key),
        _ => None,
    }
}

/// The element of rank `index` of an array; `None` for any other value.
pub open spec fn element_spec(j: JsonModel, index: int) -> Option<JsonModel> {
    match j {
        JsonModel::Array(items) => if 0 <= index < items.len() {
            Some(items[index])
        } else {
            None
        },
        _ => None,
    }
}

/// The text of a string; `None` for any other value.
pub open spec fn text_spec(j: JsonModel) -> Option<Seq<char>> {
    match j {
        JsonModel::Str(s) => Some(s),
        _ => None,
    }
}

proof fn lemma_lookup_skip(members: Seq<(Seq<char>, JsonModel)>, key: Seq<char>, i: int)
    requires
        0 <= i < members.len(),
        members[i].0 != key,
    ensures
        lookup(members.subrange(i, members.len() as int), key) == lookup(
            members.subrange(i + 1, members.len() as int),
            key,
        ),
{
    assert(members.subrange(i, members.len() as int).drop_first() =~= members.subrange(
        i + 1,
        members.len() as int,
    ));
}

impl Json {
    /// The member `key` of an object.
    pub fn member(&self, key: &str) -> (r: Option<&Json>)
        ensures
            opt_json_view(r) == member_spec(json_view(*self), key@),
    {
        match self {
            Json::Object(members) => {
                let ghost ms = match json_view(*self) {
                    JsonModel::Object(m) => m,
                    _ => Seq::empty(),
                };
                let n = members.len();
                let wanted = String::from_str(key);
                let mut i: usize = 0;
                proof {
                    assert(ms.subrange(0, n as int) =~= ms);
                }
                while i < n
                    invariant
                        n == members@.len(),
                        wanted@ == key@,
                        json_view(*self) == JsonModel::Object(ms),
                        ms.len() == n,
                        i <= n,
                        forall|k: int|
                            0 <= k < n ==> #[trigger] ms[k] == (
                            members@[k].0@,
                            json_view(members@[k].1),
                        ),
                        lookup(ms, key@) == lookup(ms.subrange(i as int, n as int), key@),
                    decreases n - i,
                {
                    let entry = &members[i];
                    if entry.0 == wanted {
                        proof {
                            assert(ms[i as int] == (members@[i as int].0@, json_view(members@[i as int].1)));
                            assert(ms.subrange(i as int, n as int)[0] == ms[i as int]);
                            assert(lookup(ms.subrange(i as int, n as int), key@) == Some(ms[i as int].1));
                            assert(member_spec(json_view(*self), key@) == lookup(ms, key@));
                        }
                        return Some(&entry.1);
                    }
                    proof {
                        assert(ms[i as int] == (members@[i as int].0@, json_view(members@[i as int].1)));
                        lemma_lookup_skip(ms, key@, i as int);
                    }
                    i = i + 1;
                }
                proof {
                    assert(ms.subrange(n as int, n as int).len() == 0);
                }
                None
            },
            _ => None,
        }
    }

    /// The element of rank `index` of an array.
    pub fn element(&self, index: usize) -> (r: Option<&Json>)
        ensures
            opt_json_view(r) == element_spec(json_view(*self), index as int),
    {
        match self {
            Json::Array(items) => {
                if index < items.len() {
                    Some(&items[index])
                } else {
                    None
                }
            },
            _ => None,
        }
    }

    /// The text of a string.
    pub fn text(&self) -> (r: Option<String>)
        ensures
            match r {
                Some(s) => text_spec(json_view(*self)) == Some(s@),
                None => text_spec(json_view(*self)) is None,
            },
    {
        match self {
            Json::Str(s) => Some(s.clone()),
            _ => None,
        }
    }
}

} // verus!
