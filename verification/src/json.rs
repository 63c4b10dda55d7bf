//! A model of JSON documents as plain data, together with the trusted bridge
//! to `serde_json` that turns text into such a document and back.
//!
//! The supervisor and its plugins exchange newline-delimited JSON. All logic
//! in this crate reads and builds `JsonValue` trees; only the bridge functions
//! at the bottom touch JSON text. Numbers are modelled as `i64`: the RPC
//! vocabulary uses only strings, integers and small objects, and a document
//! holding any other number is treated as unparseable.

use vstd::prelude::*;

verus! {

/// A JSON document. Objects keep their fields in order of appearance;
/// key lookup returns the first binding of a key.
#[derive(Debug, PartialEq, Eq)]
pub enum JsonValue {
    Null,
    Bool(bool),
    Int(i64),
    Str(String),
    Arr(Vec<JsonValue>),
    Obj(Vec<(String, JsonValue)>),
}

/// The mathematical shape of a JSON document: what a `JsonValue` denotes.
pub ghost enum JsonData {
    Null,
    Bool(bool),
    Int(int),
    Str(Seq<char>),
    Arr(Seq<JsonData>),
    Obj(Seq<(Seq<char>, JsonData)>),
}

pub open spec fn json_view(v: JsonValue) -> JsonData
    decreases v,
{
    match v {
        JsonValue::Null => JsonData::Null,
        JsonValue::Bool(b) => JsonData::Bool(b),
        JsonValue::Int(i) => JsonData::Int(i as int),
        JsonValue::Str(s) => JsonData::Str(s@),
        JsonValue::Arr(a) => JsonData::Arr(json_view_seq(a@)),
        JsonValue::Obj(f) => JsonData::Obj(json_view_fields(f@)),
    }
}

pub open spec fn json_view_seq(s: Seq<JsonValue>) -> Seq<JsonData>
    decreases s,
{
    if s.len() == 0 {
        Seq::empty()
    } else {
        seq![json_view(s[0])] + json_view_seq(s.drop_first())
    }
}

pub open spec fn json_view_fields(s: Seq<(String, JsonValue)>) -> Seq<(Seq<char>, JsonData)>
    decreases s,
{
    if s.len() == 0 {
        Seq::empty()
    } else {
        seq![(s[0].0@, json_view(s[0].1))] + json_view_fields(s.drop_first())
    }
}

impl View for JsonValue {
    type V = JsonData;

    open spec fn view(&self) -> JsonData {
        json_view(*self)
    }
}

/// `json_view_seq` maps the view of each element.
pub broadcast proof fn lemma_json_view_seq(s: Seq<JsonValue>)
    ensures
        #[trigger] json_view_seq(s).len() == s.len(),
        forall|j: int| 0 <= j < s.len() ==> json_view_seq(s)[j] == json_view(s[j]),
    decreases s,
{
    if s.len() > 0 {
        lemma_json_view_seq(s.drop_first());
    }
}

/// `json_view_fields` maps the view of each binding.
pub broadcast proof fn lemma_json_view_fields(s: Seq<(String, JsonValue)>)
    ensures
        #[trigger] json_view_fields(s).len() == s.len(),
        forall|j: int|
            0 <= j < s.len() ==> json_view_fields(s)[j] == (s[j].0@, json_view(s[j].1)),
    decreases s,
{
    if s.len() > 0 {
        lemma_json_view_fields(s.drop_first());
    }
}

/// The first value bound to `key` among `fields`, if any.
pub open spec fn spec_obj_lookup(fields: Seq<(Seq<char>, JsonData)>, key: Seq<char>) -> Option<
    JsonData,
>
    decreases fields.len(),
{
    if fields.len() == 0 {
        None
    } else if fields[0].0 == key {
        Some(fields[0].1)
    } else {
        spec_obj_lookup(fields.drop_first(), key)
    }
}

/// A key counts as present only when it is bound to a non-null value: the RPC
/// codec does not distinguish a field bound to `null` from an absent field.
pub open spec fn spec_obj_field(fields: Seq<(Seq<char>, JsonData)>, key: Seq<char>) -> Option<
    JsonData,
> {
    match spec_obj_lookup(fields, key) {
        Some(v) => if v is Null {
            None
        } else {
            Some(v)
        },
        None => None,
    }
}

/// First value bound to `key`, by reference.
pub fn obj_lookup<'a>(fields: &'a Vec<(String, JsonValue)>, key: &str) -> (r: Option<
    &'a JsonValue,
>)
    ensures
        match r {
            Some(v) => spec_obj_lookup(JsonValue::Obj(*fields)@.spec_fields(), key@) == Some(v@),
            None => spec_obj_lookup(JsonValue::Obj(*fields)@.spec_fields(), key@) is None,
        },
{
    broadcast use lemma_json_view_fields;

    let ghost gfields = JsonValue::Obj(*fields)@.spec_fields();
    proof {
        assert(gfields =~= json_view_fields(fields@));
        assert(gfields.skip(0) =~= gfields);
    }
    let mut i: usize = 0;
    while i < fields.len()
        invariant
            0 <= i <= fields@.len(),
            gfields == JsonValue::Obj(*fields)@.spec_fields(),
            gfields.len() == fields@.len(),
            forall|j: int| 0 <= j < gfields.len() ==> gfields[j] == (fields@[j].0@, fields@[j].1@),
            spec_obj_lookup(gfields.skip(i as int), key@) == spec_obj_lookup(gfields, key@),
        decreases fields@.len() - i,
    {
        proof {
            assert(gfields.skip(i as int).drop_first() =~= gfields.skip(i + 1));
            assert(gfields.skip(i as int)[0] == gfields[i as int]);
        }
        if crate::strutil::str_eq(fields[i].0.as_str(), key) {
            return Some(&fields[i].1);
        }
        i = i + 1;
    }
    None
}

/// First non-null value bound to `key`, by reference.
pub fn obj_field<'a>(fields: &'a Vec<(String, JsonValue)>, key: &str) -> (r: Option<&'a JsonValue>)
    ensures
        match r {
            Some(v) => spec_obj_field(JsonValue::Obj(*fields)@.spec_fields(), key@) == Some(v@),
            None => spec_obj_field(JsonValue::Obj(*fields)@.spec_fields(), key@) is None,
        },
{
    match obj_lookup(fields, key) {
        Some(v) => match v {
            JsonValue::Null => None,
            _ => Some(v),
        },
        None => None,
    }
}

impl JsonData {
    /// The fields of an object, the empty sequence otherwise.
    pub open spec fn spec_fields(self) -> Seq<(Seq<char>, JsonData)> {
        match self {
            JsonData::Obj(fields) => fields,
            _ => Seq::empty(),
        }
    }
}

/// A structural copy of a document, proved equal to the original in the model.
pub fn clone_json(v: &JsonValue) -> (r: JsonValue)
    ensures
        r@ == v@,
    decreases *v,
{
    broadcast use lemma_json_view_seq, lemma_json_view_fields;

    match v {
        JsonValue::Null => JsonValue::Null,
        JsonValue::Bool(b) => JsonValue::Bool(*b),
        JsonValue::Int(i) => JsonValue::Int(*i),
        JsonValue::Str(s) => JsonValue::Str(s.clone()),
        JsonValue::Arr(a) => {
            let mut out: Vec<JsonValue> = Vec::new();
            let mut i: usize = 0;
            while i < a.len()
                invariant
                    *v == JsonValue::Arr(*a),
                    0 <= i <= a@.len(),
                    out@.len() == i,
                    forall|j: int| 0 <= j < i ==> #[trigger] out@[j]@ == a@[j]@,
                decreases a@.len() - i,
            {
                proof {
                    assert(decreases_to!(*v => v->Arr_0));
                    assert(decreases_to!(*a => a@));
                    assert(decreases_to!(a@ => a@[i as int]));
                }
                let c = clone_json(&a[i]);
                out.push(c);
                i = i + 1;
            }
            proof {
                lemma_json_view_seq(out@);
                lemma_json_view_seq(a@);
                assert forall|k: int| 0 <= k < a@.len() implies json_view_seq(out@)[k]
                    == json_view_seq(a@)[k] by {
                    assert(out@[k]@ == a@[k]@);
                }
                assert(json_view_seq(out@) =~= json_view_seq(a@));
            }
            JsonValue::Arr(out)
        },
        JsonValue::Obj(f) => {
            let mut out: Vec<(String, JsonValue)> = Vec::new();
            let mut i: usize = 0;
            while i < f.len()
                invariant
                    *v == JsonValue::Obj(*f),
                    0 <= i <= f@.len(),
                    out@.len() == i,
                    forall|j: int| 0 <= j < i ==> #[trigger] out@[j].0@ == f@[j].0@,
                    forall|j: int| 0 <= j < i ==> #[trigger] out@[j].1@ == f@[j].1@,
                decreases f@.len() - i,
            {
                proof {
                    assert(decreases_to!(*v => v->Obj_0));
                    assert(decreases_to!(*f => f@));
                    assert(decreases_to!(f@ => f@[i as int]));
                    assert(decreases_to!(f@[i as int] => f@[i as int].1));
                }
                let key = f[i].0.clone();
                let val = clone_json(&f[i].1);
                out.push((key, val));
                i = i + 1;
            }
            proof {
                lemma_json_view_fields(out@);
                lemma_json_view_fields(f@);
                assert forall|k: int| 0 <= k < f@.len() implies json_view_fields(out@)[k]
                    == json_view_fields(f@)[k] by {
                    assert(out@[k].0@ == f@[k].0@);
                    assert(out@[k].1@ == f@[k].1@);
                }
                assert(json_view_fields(out@) =~= json_view_fields(f@));
            }
            JsonValue::Obj(out)
        },
    }
}

#[verifier::external_type_specification]
#[verifier::external_body]
pub struct ExValue(serde_json::Value);

/// What `serde_json::from_str::<serde_json::Value>` parses a text to, folded
/// into the crate's JSON model; `None` where the text is not one JSON document
/// whose numbers all fit in `i64`.
pub uninterp spec fn json_parse(s: Seq<char>) -> Option<JsonData>;

/// Relies on serde_json::from_str::<serde_json::Value>: parses one JSON text.
/// The result is a function of the text alone.
#[verifier::external_body]
pub fn parse_json(s: &str) -> (r: Option<JsonValue>)
    ensures
        match r {
            Some(v) => json_parse(s@) == Some(v@),
            None => json_parse(s@) is None,
        },
{
    match serde_json::from_str::<serde_json::Value>(s) {
        Ok(v) => value_to_json(v),
        Err(_) => None,
    }
}

/// Folds a `serde_json` document into the crate's model, one variant arm each.
/// Numbers outside `i64` fold to `None`. Support for `parse_json`, which alone
/// calls it and carries the contract.
#[verifier::external_body]
fn value_to_json(v: serde_json::Value) -> Option<JsonValue> {
    match v {
        serde_json::Value::Null => Some(JsonValue::Null),
        serde_json::Value::Bool(b) => Some(JsonValue::Bool(b)),
        serde_json::Value::Number(n) => n.as_i64().map(JsonValue::Int),
        serde_json::Value::String(s) => Some(JsonValue::Str(s)),
        serde_json::Value::Array(a) => {
            let folded: Option<Vec<JsonValue>> = a.into_iter().map(value_to_json).collect();
            folded.map(JsonValue::Arr)
        },
        serde_json::Value::Object(m) => {
            let folded: Option<Vec<(String, JsonValue)>> =
                m.into_iter().map(|(k, x)| Some((k, value_to_json(x)?))).collect();
            folded.map(JsonValue::Obj)
        },
    }
}

/// The JSON text that `serde_json::to_string` writes for a document of this
/// shape: one line, no interior newline, object keys written in sorted order.
pub uninterp spec fn json_text_of(j: JsonData) -> Seq<char>;

/// Relies on serde_json::to_string: one line of JSON text for the document.
/// The text is a function of the document alone, and holds no newline: the
/// compact writer emits none and escapes any inside strings, so the text can
/// frame a newline-delimited protocol. Serializing cannot fail here: a
/// `serde_json::Value` tree has only string keys.
#[verifier::external_body]
pub fn json_to_text(j: &JsonValue) -> (r: String)
    ensures
        r@ == json_text_of(j@),
        forall|i: int| 0 <= i < r@.len() ==> r@[i] != '\n',
{
    match serde_json::to_string(&json_to_value(j)) {
        Ok(s) => s,
        Err(_) => String::new(),
    }
}

/// Builds the `serde_json` document a `JsonValue` denotes, one variant arm
/// each. Support for `json_to_text`, which alone calls it and carries the
/// contract.
#[verifier::external_body]
fn json_to_value(j: &JsonValue) -> serde_json::Value {
    match j {
        JsonValue::Null => serde_json::Value::Null,
        JsonValue::Bool(b) => serde_json::Value::Bool(*b),
        JsonValue::Int(i) => serde_json::Value::Number(serde_json::Number::from(*i)),
        JsonValue::Str(s) => serde_json::Value::String(s.clone()),
        JsonValue::Arr(a) => serde_json::Value::Array(a.iter().map(json_to_value).collect()),
        JsonValue::Obj(f) => serde_json::Value::Object(
            f.iter().map(|(k, v)| (k.clone(), json_to_value(v))).collect(),
        ),
    }
}

} // verus!
