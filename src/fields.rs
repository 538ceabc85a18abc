//! Flat JSON objects: named text and integer fields, as carried by session
//! entries and token payloads.

use vstd::prelude::*;

verus! {

/// The value of one field.
pub enum FieldValue {
    Text(String),
    Integer(i64),
    /// Any other JSON value (null, boolean, fraction, array, object).
    Other,
}

/// What a field value holds, for contracts.
pub enum Datum {
    Text(Seq<char>),
    Integer(i64),
    Other,
}

impl View for FieldValue {
    type V = Datum;

    open spec fn view(&self) -> Datum {
        match self {
            FieldValue::Text(s) => Datum::Text(s@),
            FieldValue::Integer(n) => Datum::Integer(*n),
            FieldValue::Other => Datum::Other,
        }
    }
}

/// The fields of an object, each a name and its value.
pub open spec fn fields_view(fs: Seq<(String, FieldValue)>) -> Seq<(Seq<char>, Datum)> {
    fs.map_values(|f: (String, FieldValue)| (f.0@, f.1@))
}

/// The value that an object gives a name: that of the last field so named.
pub open spec fn field(fs: Seq<(Seq<char>, Datum)>, name: Seq<char>) -> Option<Datum>
    decreases fs.len(),
{
    if fs.len() == 0 {
        None
    } else if fs.last().0 == name {
        Some(fs.last().1)
    } else {
        field(fs.drop_last(), name)
    }
}

/// Two field lists that give every name the same value.
pub open spec fn same_fields(a: Seq<(Seq<char>, Datum)>, b: Seq<(Seq<char>, Datum)>) -> bool {
    forall|name: Seq<char>| #[trigger] field(a, name) == field(b, name)
}

/// The index of the field that gives `name` its value, if any.
pub fn find_field(fs: &Vec<(String, FieldValue)>, name: &String) -> (r: Option<usize>)
    ensures
        match r {
            Some(i) => i < fs@.len() && fs@[i as int].0@ == name@ && field(
                fields_view(fs@),
                name@,
            ) == Some(fs@[i as int].1@),
            None => field(fields_view(fs@), name@) is None,
        },
{
    let mut i: usize = fs.len();
    proof {
        assert(fields_view(fs@).take(fs@.len() as int) =~= fields_view(fs@));
    }
    while i > 0
        invariant
            i <= fs@.len(),
            field(fields_view(fs@), name@) == field(fields_view(fs@).take(i as int), name@),
        decreases i,
    {
        let ghost v = fields_view(fs@);
        proof {
            assert(v.take(i as int).drop_last() =~= v.take(i - 1));
            assert(v.take(i as int).last() == v[i - 1]);
        }
        if fs[i - 1].0 == *name {
            return Some(i - 1);
        }
        i = i - 1;
    }
    None
}

/// The text of a field, if the object gives `name` a text.
pub fn text_field(fs: &Vec<(String, FieldValue)>, name: &String) -> (r: Option<String>)
    ensures
        match field(fields_view(fs@), name@) {
            Some(Datum::Text(t)) => r matches Some(s) && s@ == t,
            _ => r is None,
        },
{
    match find_field(fs, name) {
        Some(i) => match &fs[i].1 {
            FieldValue::Text(s) => Some(s.clone()),
            _ => None,
        },
        None => None,
    }
}

/// The integer of a field, if the object gives `name` an integer.
pub fn integer_field(fs: &Vec<(String, FieldValue)>, name: &String) -> (r: Option<i64>)
    ensures
        match field(fields_view(fs@), name@) {
            Some(Datum::Integer(n)) => r == Some(n),
            _ => r is None,
        },
{
    match find_field(fs, name) {
        Some(i) => match &fs[i].1 {
            FieldValue::Integer(n) => Some(*n),
            _ => None,
        },
        None => None,
    }
}

/// The JSON text that `serde_json` writes for an object.
pub uninterp spec fn json_text(fs: Seq<(Seq<char>, Datum)>) -> Seq<char>;

/// What `serde_json` reads from a text as a JSON object, if it is one.
pub uninterp spec fn json_object(s: Seq<char>) -> Option<Seq<(Seq<char>, Datum)>>;

/// Relies on `serde_json`'s `Display` for `Value::Object`, which writes a
/// JSON object that `serde_json::from_str` reads back with the same fields
/// (a text stays a string, an `i64` stays that integer, `Other` is `null`).
#[verifier::external_body]
pub(crate) fn write_json_object(fs: &Vec<(String, FieldValue)>) -> (r: String)
    ensures
        r@ == json_text(fields_view(fs@)),
        json_object(r@) is Some,
        same_fields(json_object(r@).unwrap(), fields_view(fs@)),
{
    let map: serde_json::Map<String, serde_json::Value> = fs.iter().map(|(k, v)| (k.clone(), match v {
        FieldValue::Text(s) => serde_json::Value::from(s.clone()),
        FieldValue::Integer(n) => serde_json::Value::from(*n),
        FieldValue::Other => serde_json::Value::Null,
    })).collect();
    serde_json::Value::Object(map).to_string()
}

/// Relies on `serde_json::from_str` into a `serde_json::Map`: the fields of
/// the object that the text holds, if it holds one.
#[verifier::external_body]
pub(crate) fn read_json_object(s: &str) -> (r: Option<Vec<(String, FieldValue)>>)
    ensures
        match r {
            Some(fs) => json_object(s@) == Some(fields_view(fs@)),
            None => json_object(s@) is None,
        },
{
    let map: serde_json::Map<String, serde_json::Value> = serde_json::from_str(s).ok()?;
    Some(map.into_iter().map(|(k, v)| (k, match v {
        serde_json::Value::String(t) => FieldValue::Text(t),
        other => other.as_i64().map_or(FieldValue::Other, FieldValue::Integer),
    })).collect())
}

} // verus!
