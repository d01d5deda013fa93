//! A model of JSON values, and the parse of response text into it.
use vstd::prelude::*;

verus! {

/// An IEEE-754 binary64 value, held as its bit pattern.
#[derive(Clone, Copy, PartialEq, Eq, Structural, Debug)]
pub struct Real {
    pub bits: u64,
}

/// A JSON number, as the parser reports it: its value as a signed 64-bit
/// integer where it is one, and its value as a binary64 float.
#[derive(Clone, Copy, PartialEq, Eq, Structural, Debug)]
pub struct JsonNumber {
    pub int: Option<i64>,
    pub real: Option<Real>,
}

/// A JSON value. An object keeps its members in the order the parser gave.
#[derive(Debug, PartialEq)]
pub enum Json {
    Null,
    Bool(bool),
    Number(JsonNumber),
    Str(String),
    Array(Vec<Json>),
    Object(Vec<(String, Json)>),
}

/// What a JSON value holds, with text as characters.
pub enum JsonView {
    Null,
    Bool(bool),
    Number(JsonNumber),
    Str(Seq<char>),
    Array(Seq<JsonView>),
    Object(Seq<(Seq<char>, JsonView)>),
}

/// What the JSON value `j` holds.
pub open spec fn json_view(j: Json) -> JsonView
    decreases j,
{
    match j {
        Json::Null => JsonView::Null,
        Json::Bool(b) => JsonView::Bool(b),
        Json::Number(n) => JsonView::Number(n),
        Json::Str(s) => JsonView::Str(s@),
        Json::Array(items) => JsonView::Array(
            Seq::new(items@.len(), |i: int| if 0 <= i < items@.len() { json_view(items@[i]) } else { JsonView::Null }),
        ),
        Json::Object(fs) => JsonView::Object(
            Seq::new(
                fs@.len(),
                |i: int| if 0 <= i < fs@.len() { (fs@[i].0@, json_view(fs@[i].1)) } else { (Seq::empty(), JsonView::Null) },
            ),
        ),
    }
}

impl View for Json {
    type V = JsonView;

    open spec fn view(&self) -> JsonView {
        json_view(*self)
    }
}

/// What each of the values `s` holds.
pub open spec fn views(s: Seq<Json>) -> Seq<JsonView> {
    s.map_values(|j: Json| j@)
}

/// The items of an array, as values.
pub proof fn lemma_array_views(items: Vec<Json>)
    ensures
        Json::Array(items)@ == JsonView::Array(views(items@)),
{
    assert(Json::Array(items)@->Array_0 =~= views(items@));
}

impl Json {
    /// Whether this value is an object.
    pub fn is_object(&self) -> (r: bool)
        ensures
            r == (self@ is Object),
    {
        match self {
            Json::Object(_) => true,
            _ => false,
        }
    }
}

/// The member `key` of the members `fs`; where the key repeats, the last one.
pub open spec fn member(fs: Seq<(Seq<char>, JsonView)>, key: Seq<char>) -> Option<JsonView>
    decreases fs.len(),
{
    if fs.len() == 0 {
        None
    } else if fs.last().0 == key {
        Some(fs.last().1)
    } else {
        member(fs.drop_last(), key)
    }
}

/// The member `key` of `j`, where `j` is an object.
pub open spec fn field(j: JsonView, key: Seq<char>) -> Option<JsonView> {
    match j {
        JsonView::Object(fs) => member(fs, key),
        _ => None,
    }
}

/// What an optional reference to a value holds.
pub open spec fn opt_view(f: Option<&Json>) -> Option<JsonView> {
    match f {
        Some(j) => Some(j@),
        None => None,
    }
}

/// Looks up the member `key` of `j`, where `j` is an object.
pub fn get_field<'a>(j: &'a Json, key: &str) -> (r: Option<&'a Json>)
    ensures
        opt_view(r) == field(j@, key@),
{
    let fs = match j {
        Json::Object(fs) => fs,
        _ => return None,
    };
    let ghost mv = j@->Object_0;
    let k = String::from_str(key);
    let mut i: usize = fs.len();
    assert(mv.subrange(0, i as int) =~= mv);
    while i > 0
        invariant
            i <= fs@.len(),
            mv.len() == fs@.len(),
            forall|m: int| 0 <= m < fs@.len() ==> #[trigger] mv[m] == (fs@[m].0@, fs@[m].1@),
            k@ == key@,
            field(j@, key@) == member(mv.subrange(0, i as int), key@),
        decreases i,
    {
        assert(mv[i - 1] == (fs@[i - 1].0@, fs@[i - 1].1@));
        if fs[i - 1].0 == k {
            return Some(&fs[i - 1].1);
        }
        assert(mv.subrange(0, i as int).drop_last() =~= mv.subrange(0, i - 1));
        i = i - 1;
    }
    None
}

/// serde_json's parsed value, carried through opaquely.
#[verifier::external_type_specification]
#[verifier::external_body]
pub struct ExValue(serde_json::Value);

/// One level of a parsed value: its kind, with its items still unconverted.
enum Layer {
    Null,
    Bool(bool),
    Number(JsonNumber),
    Str(String),
    Array(Vec<serde_json::Value>),
    Object(Vec<(String, serde_json::Value)>),
}

/// Whether `text` is JSON text, as serde_json reads it.
pub uninterp spec fn is_json(text: Seq<char>) -> bool;

/// The value that serde_json parses from JSON text `text`.
pub uninterp spec fn parsed(text: Seq<char>) -> JsonView;

/// What a value that serde_json holds is, as a model.
pub uninterp spec fn value_model(v: serde_json::Value) -> JsonView;

/// Relies on serde_json::from_str, which parses JSON text into a value,
/// succeeding exactly on JSON text; the value depends on the text alone.
#[verifier::external_body]
fn parse_value(text: &str) -> (r: Option<serde_json::Value>)
    ensures
        r is Some == is_json(text@),
        r is Some ==> value_model(r->0) == parsed(text@),
{
    serde_json::from_str::<serde_json::Value>(text).ok()
}

/// Relies on the variants of serde_json::Value, told apart one arm each,
/// and on Number::as_i64 and Number::as_f64 (the float as its bit pattern):
/// one level of the value, its items in order.
#[verifier::external_body]
fn layer_of(v: &serde_json::Value) -> (r: Layer)
    ensures
        match r {
            Layer::Null => value_model(*v) == JsonView::Null,
            Layer::Bool(b) => value_model(*v) == JsonView::Bool(b),
            Layer::Number(n) => value_model(*v) == JsonView::Number(n),
            Layer::Str(s) => value_model(*v) == JsonView::Str(s@),
            Layer::Array(items) => value_model(*v) == JsonView::Array(
                Seq::new(items@.len(), |i: int| value_model(items@[i])),
            ),
            Layer::Object(ms) => value_model(*v) == JsonView::Object(
                Seq::new(ms@.len(), |i: int| (ms@[i].0@, value_model(ms@[i].1))),
            ),
        },
{
    match v {
        serde_json::Value::Null => Layer::Null,
        serde_json::Value::Bool(b) => Layer::Bool(*b),
        serde_json::Value::Number(n) => Layer::Number(JsonNumber {
            int: n.as_i64(),
            real: n.as_f64().map(|f| Real { bits: f.to_bits() }),
        }),
        serde_json::Value::String(s) => Layer::Str(s.clone()),
        serde_json::Value::Array(a) => Layer::Array(a.clone()),
        serde_json::Value::Object(m) => Layer::Object(m.clone().into_iter().collect()),
    }
}

/// Converts a parsed value into the model, level by level.
fn from_value(v: &serde_json::Value) -> (r: Json)
    ensures
        r@ == value_model(*v),
    decreases value_model(*v),
{
    match layer_of(v) {
        Layer::Null => Json::Null,
        Layer::Bool(b) => Json::Bool(b),
        Layer::Number(n) => Json::Number(n),
        Layer::Str(s) => Json::Str(s),
        Layer::Array(items) => {
            let ghost whole = value_model(*v);
            let mut out: Vec<Json> = Vec::new();
            let mut i: usize = 0;
            while i < items.len()
                invariant
                    whole == value_model(*v),
                    whole == JsonView::Array(Seq::new(items@.len(), |k: int| value_model(items@[k]))),
                    i <= items@.len(),
                    out@.len() == i,
                    forall|k: int| 0 <= k < i ==> #[trigger] out@[k]@ == value_model(items@[k]),
                decreases items@.len() - i,
            {
                proof {
                    assert(whole->Array_0[i as int] == value_model(items@[i as int]));
                }
                let j = from_value(&items[i]);
                out.push(j);
                i = i + 1;
            }
            proof {
                lemma_array_views(out);
                assert(views(out@) =~= whole->Array_0);
            }
            Json::Array(out)
        },
        Layer::Object(ms) => {
            let ghost whole = value_model(*v);
            let mut out: Vec<(String, Json)> = Vec::new();
            let mut i: usize = 0;
            while i < ms.len()
                invariant
                    whole == value_model(*v),
                    whole == JsonView::Object(Seq::new(ms@.len(), |k: int| (ms@[k].0@, value_model(ms@[k].1)))),
                    i <= ms@.len(),
                    out@.len() == i,
                    forall|k: int| 0 <= k < i ==> #[trigger] out@[k].0@ == ms@[k].0@ && out@[k].1@ == value_model(ms@[k].1),
                decreases ms@.len() - i,
            {
                proof {
                    let e = whole->Object_0[i as int];
                    assert(e == (ms@[i as int].0@, value_model(ms@[i as int].1)));
                    assert(decreases_to!(whole => whole->Object_0));
                    assert(decreases_to!(whole->Object_0 => e));
                    assert(decreases_to!(e => e.1));
                }
                let j = from_value(&ms[i].1);
                out.push((ms[i].0.clone(), j));
                i = i + 1;
            }
            let r = Json::Object(out);
            assert(r@->Object_0 =~= whole->Object_0);
            r
        },
    }
}

/// Parses JSON text into the model: the value serde_json parses, or `None`
/// where the text is not JSON.
pub fn parse_json(text: &str) -> (r: Option<Json>)
    ensures
        match r {
            Some(j) => is_json(text@) && j@ == parsed(text@),
            None => !is_json(text@),
        },
{
    match parse_value(text) {
        Some(v) => Some(from_value(&v)),
        None => None,
    }
}

} // verus!
