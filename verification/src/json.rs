//! The library's own JSON tree, the trusted boundary to `serde_json` that
//! produces it, and verified accessors over it.
//!
//! Numbers are carried as their decimal rendering: the metadata schemas this
//! library reads hold only strings, booleans, arrays and objects, so a
//! number can only ever make a field fail to parse.

use vstd::prelude::*;

use crate::text::str_eq;

verus! {

/// An owned JSON tree. Object fields carry unique keys in the order the
/// parser hands them out.
#[derive(Debug, PartialEq, Eq)]
pub enum Json {
    Null,
    Bool(bool),
    Num(String),
    Str(String),
    Arr(Vec<Json>),
    Obj(Vec<(String, Json)>),
}

#[verifier::external_type_specification]
#[verifier::external_body]
pub struct ExJsonValue(serde_json::Value);

/// What a parsed `serde_json::Value` holds, as the library's own tree.
pub uninterp spec fn value_tree(v: serde_json::Value) -> Json;

/// What parsing a text as JSON yields: the tree of the parsed value, or
/// `None` when the text is not valid JSON.
pub uninterp spec fn json_of(text: Seq<char>) -> Option<Json>;

/// Relies on serde_json::from_str::<Value>: whether a text parses, and what
/// value it parses to, are functions of the text alone.
#[verifier::external_body]
fn parse_value(text: &str) -> (r: Option<serde_json::Value>)
    ensures
        (r is Some) == (json_of(text@) is Some),
        r matches Some(v) ==> json_of(text@) == Some(value_tree(v)),
{
    serde_json::from_str::<serde_json::Value>(text).ok()
}

/// Relies on serde_json::Value's six variants and serde_json::Number's
/// decimal rendering: mirrors the value as the library's own tree, one arm
/// per variant, descending into arrays and objects.
#[verifier::external_body]
fn tree_of_value(v: serde_json::Value) -> (r: Json)
    ensures
        r == value_tree(v),
{
    match v {
        serde_json::Value::Null => Json::Null,
        serde_json::Value::Bool(b) => Json::Bool(b),
        serde_json::Value::Number(n) => Json::Num(n.to_string()),
        serde_json::Value::String(s) => Json::Str(s),
        serde_json::Value::Array(a) => Json::Arr(a.into_iter().map(tree_of_value).collect()),
        serde_json::Value::Object(o) => Json::Obj(
            o.into_iter().map(|(k, x)| (k, tree_of_value(x))).collect(),
        ),
    }
}

/// Parses a text as JSON, or `None` when it is not valid JSON.
pub fn parse_json(text: &str) -> (r: Option<Json>)
    ensures
        r == json_of(text@),
{
    match parse_value(text) {
        Some(v) => Some(tree_of_value(v)),
        None => None,
    }
}

/// The value under `key` among an object's fields: the first field with that
/// key, or `None` when no field has it.
pub open spec fn spec_fields_get(fields: Seq<(String, Json)>, key: Seq<char>) -> Option<Json>
    decreases fields.len(),
{
    if fields.len() == 0 {
        None
    } else if fields[0].0@ == key {
        Some(fields[0].1)
    } else {
        spec_fields_get(fields.drop_first(), key)
    }
}

/// The value under `key` of `j`: `None` when `j` is not an object or has no
/// such field.
pub open spec fn spec_obj_get(j: Json, key: Seq<char>) -> Option<Json> {
    match j {
        Json::Obj(fields) => spec_fields_get(fields@, key),
        _ => None,
    }
}

/// The string under `key` of `j`: `None` when the field is absent or not a
/// string.
pub open spec fn spec_str_field(j: Json, key: Seq<char>) -> Option<Seq<char>> {
    match spec_obj_get(j, key) {
        Some(v) => match v {
            Json::Str(s) => Some(s@),
            _ => None,
        },
        None => None,
    }
}

/// The strings of an all-string array: `None` as soon as one element is not
/// a string.
pub open spec fn spec_string_list(items: Seq<Json>) -> Option<Seq<Seq<char>>> {
    if forall|i: int| 0 <= i < items.len() ==> items[i] is Str {
        Some(Seq::new(items.len(), |i: int| (items[i]->Str_0)@))
    } else {
        None
    }
}

impl Json {
    /// The value under `key`, when this is an object with such a field.
    #[verifier::loop_isolation(false)]
    pub fn get<'a>(&'a self, key: &str) -> (r: Option<&'a Json>)
        ensures
            match r {
                Some(v) => spec_obj_get(*self, key@) == Some(*v),
                None => spec_obj_get(*self, key@) is None,
            },
    {
        match self {
            Json::Obj(fields) => {
                let n = fields.len();
                let mut i: usize = 0;
                proof {
                    assert(fields@.skip(0) =~= fields@);
                }
                while i < n
                    invariant
                        n == fields.len(),
                        0 <= i <= n,
                        spec_fields_get(fields@, key@) == spec_fields_get(
                            fields@.skip(i as int),
                            key@,
                        ),
                    decreases n - i,
                {
                    proof {
                        assert(fields@.skip(i as int)[0] == fields@[i as int]);
                        assert(fields@.skip(i as int).drop_first() =~= fields@.skip(i + 1));
                    }
                    let pair = &fields[i];
                    if str_eq(pair.0.as_str(), key) {
                        proof {
                            assert(spec_obj_get(*self, key@) == spec_fields_get(fields@, key@));
                            assert(spec_fields_get(fields@.skip(i as int), key@) == Some(
                                fields@[i as int].1,
                            ));
                        }
                        return Some(&pair.1);
                    }
                    i += 1;
                }
                proof {
                    assert(fields@.skip(n as int) =~= Seq::<(String, Json)>::empty());
                }
                None
            },
            _ => None,
        }
    }

    /// The held string, when this is a string.
    pub fn as_str<'a>(&'a self) -> (r: Option<&'a String>)
        ensures
            match r {
                Some(s) => *self is Str && s@ == (*self)->Str_0@,
                None => !(*self is Str),
            },
    {
        match self {
            Json::Str(s) => Some(s),
            _ => None,
        }
    }

    /// The string under `key`, when this is an object holding one there.
    pub fn str_field<'a>(&'a self, key: &str) -> (r: Option<&'a String>)
        ensures
            match r {
                Some(s) => spec_str_field(*self, key@) == Some(s@),
                None => spec_str_field(*self, key@) is None,
            },
    {
        match self.get(key) {
            Some(v) => match v {
                Json::Str(s) => Some(s),
                _ => None,
            },
            None => None,
        }
    }

    /// The elements, when this is an array.
    pub fn as_arr<'a>(&'a self) -> (r: Option<&'a Vec<Json>>)
        ensures
            match r {
                Some(items) => *self is Arr && items@ == (*self)->Arr_0@,
                None => !(*self is Arr),
            },
    {
        match self {
            Json::Arr(items) => Some(items),
            _ => None,
        }
    }
}

/// The strings of `items`, when every element is a string.
pub fn string_list(items: &Vec<Json>) -> (r: Option<Vec<String>>)
    ensures
        match r {
            Some(v) => spec_string_list(items@) == Some(v.deep_view()),
            None => spec_string_list(items@) is None,
        },
{
    let n = items.len();
    let mut out: Vec<String> = Vec::new();
    let mut i: usize = 0;
    while i < n
        invariant
            n == items.len(),
            0 <= i <= n,
            out.len() == i,
            forall|j: int| 0 <= j < i ==> items@[j] is Str,
            forall|j: int| 0 <= j < i ==> out.deep_view()[j] == (items@[j]->Str_0)@,
        decreases n - i,
    {
        let ghost prev = out.deep_view();
        match &items[i] {
            Json::Str(s) => {
                out.push(s.clone());
                proof {
                    assert(items@[i as int] is Str);
                    assert(out.deep_view() =~= prev.push((items@[i as int]->Str_0)@));
                }
            },
            _ => {
                return None;
            },
        }
        i += 1;
    }
    proof {
        let ghost expected = Seq::new(items@.len(), |j: int| (items@[j]->Str_0)@);
        assert(out.deep_view() =~= expected);
    }
    Some(out)
}

} // verus!
