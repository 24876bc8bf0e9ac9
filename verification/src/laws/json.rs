//! What holds of JSON values.

use vstd::prelude::*;

use crate::json::{first_with_key, parsed_json, unsigned_number, Json, JsonView};
use crate::laws::text::decimal_reads_back;
use crate::text::{all_digits, digits_value};

verus! {

/// The first entry with a key is the one that is found.
pub proof fn first_entry_is_found(
    entries: Seq<(Seq<char>, JsonView)>,
    i: int,
    key: Seq<char>,
)
    requires
        0 <= i < entries.len(),
        entries[i].0 == key,
        forall|j: int| 0 <= j < i ==> (#[trigger] entries[j]).0 != key,
    ensures
        first_with_key(entries, key) == Some(entries[i].1),
    decreases i,
{
    if i > 0 {
        let rest = entries.skip(1);
        assert(entries[0].0 != key);
        assert forall|j: int| 0 <= j < i - 1 implies (#[trigger] rest[j]).0 != key by {
            assert(rest[j] == entries[j + 1]);
        }
        assert(rest[i - 1] == entries[i]);
        first_entry_is_found(rest, i - 1, key);
    }
}

/// A key that no entry has is not found.
pub proof fn absent_key_is_not_found(entries: Seq<(Seq<char>, JsonView)>, key: Seq<char>)
    requires
        forall|j: int| 0 <= j < entries.len() ==> (#[trigger] entries[j]).0 != key,
    ensures
        first_with_key(entries, key) is None,
    decreases entries.len(),
{
    if entries.len() > 0 {
        let rest = entries.skip(1);
        assert(entries[0].0 != key);
        assert forall|j: int| 0 <= j < rest.len() implies (#[trigger] rest[j]).0 != key by {
            assert(rest[j] == entries[j + 1]);
        }
        absent_key_is_not_found(rest, key);
    }
}

/// What is found under a key is the value of an entry with that key, before which
/// no entry has it; nothing is found if none has it.
proof fn lookup_finds_an_entry(entries: Seq<(Seq<char>, JsonView)>, key: Seq<char>) -> (i: int)
    ensures
        match first_with_key(entries, key) {
            Some(v) => 0 <= i < entries.len() && entries[i] == (key, v) && forall|j: int|
                0 <= j < i ==> (#[trigger] entries[j]).0 != key,
            None => forall|j: int| 0 <= j < entries.len() ==> (#[trigger] entries[j]).0 != key,
        },
    decreases entries.len(),
{
    if entries.len() == 0 {
        0
    } else if entries[0].0 == key {
        0
    } else {
        let rest = entries.skip(1);
        let i = lookup_finds_an_entry(rest, key);
        assert forall|j: int| 1 <= j < entries.len() implies #[trigger] entries[j] == rest[
        j - 1] by {}
        i + 1
    }
}

/// A value is read from an object under its key; other values have no keys.
pub proof fn values_are_read_by_key(json: Json, key: &str, r: Option<&Json>)
    requires
        call_ensures(Json::get, (&json, key), r),
    ensures
        match json@ {
            JsonView::Object(entries) => match r {
                Some(v) => exists|i: int|
                    0 <= i < entries.len() && #[trigger] entries[i] == (key@, v@) && forall|j: int|
                        0 <= j < i ==> (#[trigger] entries[j]).0 != key@,
                None => forall|j: int| 0 <= j < entries.len() ==> (#[trigger] entries[j]).0 != key@,
            },
            _ => r is None,
        },
{
    if let JsonView::Object(entries) = json@ {
        let i = lookup_finds_an_entry(entries, key@);
    }
}

/// Only a string is read as text, and as its own.
pub proof fn strings_are_read_as_text(json: Json, r: Option<&str>)
    requires
        call_ensures(Json::as_str, (&json,), r),
    ensures
        match json@ {
            JsonView::Str(s) => r matches Some(t) && t@ == s,
            _ => r is None,
        },
{
}

/// Only a number is read as an integer, and as its own.
pub proof fn numbers_are_read_as_integers(json: Json, r: Option<i64>)
    requires
        call_ensures(Json::as_i64, (&json,), r),
    ensures
        match json@ {
            JsonView::Number(n) => r == n.signed,
            _ => r is None,
        },
{
}

/// A text that is read as JSON gives what `serde_json` reads from it, and a text
/// that is none fails.
pub proof fn json_is_what_was_parsed(text: &str, r: Result<Json, serde_json::Error>)
    requires
        call_ensures(Json::parse, (text,), r),
    ensures
        r matches Ok(json) ==> parsed_json(text@) == Some(json@),
        r is Err <==> parsed_json(text@) is None,
{
}

/// The number that is made from an integer is that integer, written in its decimal
/// digits.
pub proof fn integers_make_their_number(n: u64)
    ensures
        unsigned_number(n).unsigned == Some(n),
        n <= i64::MAX ==> (unsigned_number(n).signed matches Some(i) && i == n),
        n > i64::MAX ==> unsigned_number(n).signed is None,
        all_digits(unsigned_number(n).text),
        digits_value(unsigned_number(n).text) == n,
{
    decimal_reads_back(n as nat);
}

/// A JSON value holds what it is made of, in order.
pub proof fn json_holds_its_parts(s: String, items: Vec<Json>, entries: Vec<(String, Json)>)
    ensures
        Json::Str(s)@ == JsonView::Str(s@),
        Json::Array(items)@ matches JsonView::Array(views) && views.len() == items@.len()
            && forall|i: int| 0 <= i < items@.len() ==> #[trigger] views[i] == items@[i]@,
        Json::Object(entries)@ matches JsonView::Object(views) && views.len() == entries@.len()
            && forall|i: int|
            0 <= i < entries@.len() ==> #[trigger] views[i] == (
                entries@[i].0@,
                entries@[i].1@,
            ),
{
}

/// What is put into an object is found there.
pub proof fn entries_are_found(key: &str, value: Json, object: Json)
    requires
        call_ensures(Json::object_of, (key, value), object),
    ensures
        object@.field(key@) == Some(value@),
        object@ matches JsonView::Object(entries) && entries.len() == 1,
{
    let entries = object@->Object_0;
    assert(entries =~= seq![(key@, value@)]);
    first_entry_is_found(entries, 0, key@);
}

/// What is added to an object is found there, and what was there is still found.
pub proof fn added_entries_are_found(object: Json, key: &str, value: Json, r: Json)
    requires
        object is Object,
        call_ensures(Json::with, (object, key, value), r),
        object@.field(key@) is None,
    ensures
        r@.field(key@) == Some(value@),
        forall|other: Seq<char>| object@.field(other) is Some ==> #[trigger] r@.field(other)
            == object@.field(other),
{
    let before = object@->Object_0;
    let after = r@->Object_0;
    let none = lookup_finds_an_entry(before, key@);
    assert(after =~= before.push((key@, value@)));
    assert forall|j: int| 0 <= j < before.len() implies (#[trigger] after[j]).0 != key@ by {
        assert(after[j] == before[j]);
    }
    first_entry_is_found(after, before.len() as int, key@);
    assert forall|other: Seq<char>| object@.field(other) is Some implies #[trigger] r@.field(other)
        == object@.field(other) by {
        let i = lookup_finds_an_entry(before, other);
        assert forall|j: int| 0 <= j < i implies (#[trigger] after[j]).0 != other by {
            assert(after[j] == before[j]);
        }
        assert(after[i] == before[i]);
        first_entry_is_found(after, i, other);
    }
}

} // verus!
