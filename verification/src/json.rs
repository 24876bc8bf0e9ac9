//! JSON values: what Blink sends and what is sent to Blink.

use vstd::prelude::*;

use crate::text::{decimal, decimal_text, same_text};

verus! {

/// A JSON number.
#[derive(Clone, Debug, PartialEq, Eq)]
pub struct JsonNumber {
    /// The number, if it is an integer in the range of `i64`.
    pub signed: Option<i64>,
    /// The number, if it is an integer in the range of `u64`.
    pub unsigned: Option<u64>,
    /// The number, written out.
    pub text: String,
}

/// What a JSON number holds.
pub struct JsonNumberView {
    pub signed: Option<i64>,
    pub unsigned: Option<u64>,
    pub text: Seq<char>,
}

impl View for JsonNumber {
    type V = JsonNumberView;

    open spec fn view(&self) -> JsonNumberView {
        JsonNumberView { signed: self.signed, unsigned: self.unsigned, text: self.text@ }
    }
}

/// A JSON value.
#[derive(Debug)]
pub enum Json {
    Null,
    Bool(bool),
    Number(JsonNumber),
    Str(String),
    Array(Vec<Json>),
    Object(Vec<(String, Json)>),
}

/// What a JSON value holds.
pub enum JsonView {
    Null,
    Bool(bool),
    Number(JsonNumberView),
    Str(Seq<char>),
    Array(Seq<JsonView>),
    Object(Seq<(Seq<char>, JsonView)>),
}

/// What `json` holds.
pub open spec fn json_view(json: Json) -> JsonView
    decreases json,
{
    match json {
        Json::Null => JsonView::Null,
        Json::Bool(b) => JsonView::Bool(b),
        Json::Number(n) => JsonView::Number(n@),
        Json::Str(s) => JsonView::Str(s@),
        Json::Array(items) => JsonView::Array(
            Seq::new(
                items@.len(),
                |i: int|
                    if 0 <= i < items@.len() {
                        json_view(items@[i])
                    } else {
                        JsonView::Null
                    },
            ),
        ),
        Json::Object(entries) => JsonView::Object(
            Seq::new(
                entries@.len(),
                |i: int|
                    if 0 <= i < entries@.len() {
                        (entries@[i].0@, json_view(entries@[i].1))
                    } else {
                        (Seq::empty(), JsonView::Null)
                    },
            ),
        ),
    }
}

impl View for Json {
    type V = JsonView;

    open spec fn view(&self) -> JsonView {
        json_view(*self)
    }
}

/// The JSON number of an unsigned integer.
pub open spec fn unsigned_number(n: u64) -> JsonNumberView {
    JsonNumberView {
        signed: if n <= i64::MAX {
            Some(n as i64)
        } else {
            None
        },
        unsigned: Some(n),
        text: decimal(n as nat),
    }
}

/// The value of the first entry with the given key.
pub open spec fn first_with_key(entries: Seq<(Seq<char>, JsonView)>, key: Seq<char>) -> Option<
    JsonView,
>
    decreases entries.len(),
{
    if entries.len() == 0 {
        None
    } else if entries[0].0 == key {
        Some(entries[0].1)
    } else {
        first_with_key(entries.skip(1), key)
    }
}

impl JsonView {
    /// The value under a key: none if this is no object, or has no such key.
    pub open spec fn field(self, key: Seq<char>) -> Option<JsonView> {
        match self {
            JsonView::Object(entries) => first_with_key(entries, key),
            _ => None,
        }
    }

    /// The text, if this is a string.
    pub open spec fn text(self) -> Option<Seq<char>> {
        match self {
            JsonView::Str(s) => Some(s),
            _ => None,
        }
    }

    /// The integer, if this is a number that is one in the range of `i64`.
    pub open spec fn integer(self) -> Option<i64> {
        match self {
            JsonView::Number(n) => n.signed,
            _ => None,
        }
    }
}

/// A JSON value as `serde_json` holds it.
#[verifier::external_type_specification]
#[verifier::external_body]
pub struct ExValue(serde_json::Value);

/// The reason why `serde_json` could not read a text.
#[verifier::external_type_specification]
#[verifier::external_body]
pub struct ExError(serde_json::Error);

/// What a `serde_json::Value` holds.
pub uninterp spec fn value_tree(value: serde_json::Value) -> JsonView;

/// What `serde_json::from_str` reads from a text, if the text is one JSON value.
pub uninterp spec fn parsed_json(text: Seq<char>) -> Option<JsonView>;

/// One level of a `serde_json::Value`, taken apart.
pub(crate) enum Level {
    Null,
    Bool(bool),
    Number(JsonNumber),
    Str(String),
    Array(Vec<serde_json::Value>),
    Object(Vec<(String, serde_json::Value)>),
}

impl Level {
    /// What the value holds that was taken apart into this level.
    pub(crate) closed spec fn tree(self) -> JsonView {
        match self {
            Level::Null => JsonView::Null,
            Level::Bool(b) => JsonView::Bool(b),
            Level::Number(n) => JsonView::Number(n@),
            Level::Str(s) => JsonView::Str(s@),
            Level::Array(items) => JsonView::Array(
                Seq::new(items@.len(), |i: int| value_tree(items@[i])),
            ),
            Level::Object(entries) => JsonView::Object(
                Seq::new(entries@.len(), |i: int| (entries@[i].0@, value_tree(entries@[i].1))),
            ),
        }
    }
}

/// `serde_json::from_str` into a `serde_json::Value`: whether it succeeds, and
/// what the value then holds, depends on the text alone.
#[verifier::external_body]
fn value_from_str(text: &str) -> (r: Result<serde_json::Value, serde_json::Error>)
    ensures
        match r {
            Ok(value) => parsed_json(text@) == Some(value_tree(value)),
            Err(_) => parsed_json(text@) is None,
        },
{
    serde_json::from_str::<serde_json::Value>(text)
}

/// The outermost variant of a `serde_json::Value` with its fields; a number by
/// what `Number::as_i64`, `Number::as_u64` and its `Display` tell of it, an object
/// by its entries in the order of the map.
#[verifier::external_body]
fn open_value(value: serde_json::Value) -> (level: Level)
    ensures
        level.tree() == value_tree(value),
{
    match value {
        serde_json::Value::Null => Level::Null,
        serde_json::Value::Bool(b) => Level::Bool(b),
        serde_json::Value::Number(n) => {
            Level::Number(
                JsonNumber { signed: n.as_i64(), unsigned: n.as_u64(), text: n.to_string() },
            )
        },
        serde_json::Value::String(s) => Level::Str(s),
        serde_json::Value::Array(items) => Level::Array(items),
        serde_json::Value::Object(map) => Level::Object(map.into_iter().collect()),
    }
}

/// The JSON value that a `serde_json::Value` holds.
fn from_value(value: serde_json::Value) -> (json: Json)
    ensures
        json@ == value_tree(value),
    decreases value_tree(value),
{
    match open_value(value) {
        Level::Null => Json::Null,
        Level::Bool(b) => Json::Bool(b),
        Level::Number(n) => Json::Number(n),
        Level::Str(s) => Json::Str(s),
        Level::Array(items) => {
            let mut converted: Vec<Json> = Vec::new();
            let ghost all = items@;
            for item in it: items
                invariant
                    it.seq() == all,
                    converted@.len() == it.index(),
                    value_tree(value) == JsonView::Array(
                        Seq::new(all.len(), |i: int| value_tree(all[i])),
                    ),
                    forall|i: int|
                        0 <= i < converted@.len() ==> json_view(#[trigger] converted@[i])
                            == value_tree(all[i]),
            {
                assert(value_tree(value)->Array_0[it.index() as int] == value_tree(item));
                converted.push(from_value(item));
            }
            let json = Json::Array(converted);
            assert(json@->Array_0 =~= value_tree(value)->Array_0);
            json
        },
        Level::Object(entries) => {
            let mut converted: Vec<(String, Json)> = Vec::new();
            let ghost all = entries@;
            for entry in it: entries
                invariant
                    it.seq() == all,
                    converted@.len() == it.index(),
                    value_tree(value) == JsonView::Object(
                        Seq::new(all.len(), |i: int| (all[i].0@, value_tree(all[i].1))),
                    ),
                    forall|i: int|
                        0 <= i < converted@.len() ==> (#[trigger] converted@[i]).0 == all[i].0
                            && json_view(converted@[i].1) == value_tree(all[i].1),
            {
                let ghost pairs = value_tree(value)->Object_0;
                let ghost pair = pairs[it.index() as int];
                assert(pair == (entry.0@, value_tree(entry.1)));
                assert(decreases_to!(value_tree(value) => pairs));
                assert(decreases_to!(pairs => pair));
                assert(decreases_to!(pair => pair.1));
                converted.push((entry.0, from_value(entry.1)));
            }
            let json = Json::Object(converted);
            assert(json@->Object_0 =~= value_tree(value)->Object_0);
            json
        },
    }
}

impl Json {
    /// Reads one JSON value from a text.
    pub fn parse(text: &str) -> (r: Result<Json, serde_json::Error>)
        ensures
            match r {
                Ok(json) => parsed_json(text@) == Some(json@),
                Err(_) => parsed_json(text@) is None,
            },
    {
        match value_from_str(text) {
            Ok(value) => Ok(from_value(value)),
            Err(e) => Err(e),
        }
    }

    /// A string.
    pub fn text(s: &str) -> (json: Json)
        ensures
            json@ == JsonView::Str(s@),
    {
        Json::Str(s.to_string())
    }

    /// A number.
    pub fn unsigned(n: u64) -> (json: Json)
        ensures
            json@ == JsonView::Number(unsigned_number(n)),
    {
        let signed: Option<i64> = if n <= 0x7fff_ffff_ffff_ffff {
            Some(n as i64)
        } else {
            None
        };
        Json::Number(JsonNumber { signed, unsigned: Some(n), text: decimal_text(n) })
    }

    /// An object of one entry.
    pub fn object_of(key: &str, value: Json) -> (json: Json)
        ensures
            json is Object,
            json@ == JsonView::Object(seq![(key@, value@)]),
    {
        let mut entries: Vec<(String, Json)> = Vec::new();
        entries.push((key.to_string(), value));
        let json = Json::Object(entries);
        assert(json@->Object_0 =~= seq![(key@, value@)]);
        json
    }

    /// The object with one more entry, behind those that it has.
    pub fn with(self, key: &str, value: Json) -> (json: Json)
        requires
            self is Object,
        ensures
            json is Object,
            json@ == JsonView::Object(self@->Object_0.push((key@, value@))),
    {
        match self {
            Json::Object(entries) => {
                let ghost before = self@->Object_0;
                let mut entries = entries;
                entries.push((key.to_string(), value));
                let json = Json::Object(entries);
                assert(json@->Object_0 =~= before.push((key@, value@)));
                json
            },
            other => other,
        }
    }

    /// The value under a key: none if this is no object, or has no such key.
    pub fn get(&self, key: &str) -> (r: Option<&Json>)
        ensures
            match r {
                Some(json) => self@.field(key@) == Some(json@),
                None => self@.field(key@) is None,
            },
    {
        match self {
            Json::Object(entries) => {
                let ghost views = self@->Object_0;
                assert(views.skip(0) == views);
                for i in 0..entries.len()
                    invariant
                        views == self@->Object_0,
                        *self == Json::Object(*entries),
                        self@.field(key@) == first_with_key(views.skip(i as int), key@),
                {
                    assert(views[i as int] == (entries@[i as int].0@, entries@[i as int].1@));
                    if same_text(entries[i].0.as_str(), key) {
                        return Some(&entries[i].1);
                    }
                    assert(views.skip(i as int).skip(1) == views.skip(i as int + 1));
                }
                None
            },
            _ => None,
        }
    }

    /// The text, if this is a string.
    pub fn as_str(&self) -> (r: Option<&str>)
        ensures
            match r {
                Some(s) => self@.text() == Some(s@),
                None => self@.text() is None,
            },
    {
        match self {
            Json::Str(s) => Some(s.as_str()),
            _ => None,
        }
    }

    /// The integer, if this is a number that is one in the range of `i64`.
    pub fn as_i64(&self) -> (r: Option<i64>)
        ensures
            r == self@.integer(),
    {
        match self {
            Json::Number(n) => n.signed,
            _ => None,
        }
    }
}

} // verus!
