//! TOML and JSON documents as trees of plain values: the strings, arrays
//! and tables that project manifests are read from, and their other
//! scalars.

use vstd::prelude::*;

verus! {

/// A TOML value.
pub enum TomlValue {
    String(String),
    Integer(i64),
    /// The bit pattern of an IEEE-754 double-precision number.
    Float(u64),
    Boolean(bool),
    /// A date-time, as written in TOML.
    Datetime(String),
    Array(Vec<TomlValue>),
    /// Entries in the order the parser yields them, keys distinct.
    Table(Vec<(String, TomlValue)>),
}

/// A JSON value.
#[derive(Debug)]
pub enum JsonValue {
    Null,
    Bool(bool),
    /// A number, as `serde_json` writes it.
    Number(String),
    String(String),
    Array(Vec<JsonValue>),
    /// Entries in the order the parser yields them, keys distinct.
    Object(Vec<(String, JsonValue)>),
}

/// A JSON value as a mathematical value.
pub enum JsonView {
    Null,
    Bool(bool),
    Number(Seq<char>),
    String(Seq<char>),
    Array(Seq<JsonView>),
    Object(Seq<(Seq<char>, JsonView)>),
}

/// The mathematical value of a JSON value.
pub open spec fn json_view(v: JsonValue) -> JsonView
    decreases v,
{
    match v {
        JsonValue::Null => JsonView::Null,
        JsonValue::Bool(b) => JsonView::Bool(b),
        JsonValue::Number(n) => JsonView::Number(n@),
        JsonValue::String(s) => JsonView::String(s@),
        JsonValue::Array(items) => JsonView::Array(
            Seq::new(
                items@.len(),
                |i: int|
                    if 0 <= i < items@.len() {
                        json_view(items@[i])
                    } else {
                        JsonView::Null
                    },
            ),
        ),
        JsonValue::Object(entries) => JsonView::Object(
            Seq::new(
                entries@.len(),
                |i: int|
                    if 0 <= i < entries@.len() {
                        (entries@[i].0@, json_view(entries@[i].1))
                    } else {
                        (seq![], JsonView::Null)
                    },
            ),
        ),
    }
}

/// The mathematical values of the items of an array.
pub open spec fn items_view(items: Seq<JsonValue>) -> Seq<JsonView> {
    Seq::new(items.len(), |i: int| json_view(items[i]))
}

/// The keys and mathematical values of the entries of an object.
pub open spec fn entries_view(entries: Seq<(String, JsonValue)>) -> Seq<(Seq<char>, JsonView)> {
    Seq::new(entries.len(), |i: int| (entries[i].0@, json_view(entries[i].1)))
}

/// A JSON string.
pub fn json_string(s: &str) -> (v: JsonValue)
    ensures
        json_view(v) == JsonView::String(s@),
{
    JsonValue::String(String::from_str(s))
}

/// A JSON number, written as given.
pub fn json_number(n: &str) -> (v: JsonValue)
    ensures
        json_view(v) == JsonView::Number(n@),
{
    JsonValue::Number(String::from_str(n))
}

/// A JSON array of the items given.
pub fn json_array(items: Vec<JsonValue>) -> (v: JsonValue)
    ensures
        json_view(v) == JsonView::Array(items_view(items@)),
{
    let v = JsonValue::Array(items);
    assert(json_view(v) == JsonView::Array(items_view(items@))) by {
        if let JsonView::Array(s) = json_view(v) {
            assert(s =~= items_view(items@));
        }
    }
    v
}

/// A JSON object of the entries given, in that order.
pub fn json_object(entries: Vec<(String, JsonValue)>) -> (v: JsonValue)
    ensures
        json_view(v) == JsonView::Object(entries_view(entries@)),
{
    let v = JsonValue::Object(entries);
    assert(json_view(v) == JsonView::Object(entries_view(entries@))) by {
        if let JsonView::Object(s) = json_view(v) {
            assert(s =~= entries_view(entries@));
        }
    }
    v
}

/// No items yet.
pub fn no_items() -> (items: Vec<JsonValue>)
    ensures
        items_view(items@) == Seq::<JsonView>::empty(),
{
    let items: Vec<JsonValue> = Vec::new();
    assert(items_view(items@) =~= Seq::<JsonView>::empty());
    items
}

/// No entries yet.
pub fn no_entries() -> (entries: Vec<(String, JsonValue)>)
    ensures
        entries_view(entries@) == Seq::<(Seq<char>, JsonView)>::empty(),
{
    let entries: Vec<(String, JsonValue)> = Vec::new();
    assert(entries_view(entries@) =~= Seq::<(Seq<char>, JsonView)>::empty());
    entries
}

/// Appends an item to an array being built.
pub fn push_item(items: &mut Vec<JsonValue>, item: JsonValue)
    ensures
        items_view(final(items)@) == items_view(old(items)@).push(json_view(item)),
{
    let ghost iv = json_view(item);
    items.push(item);
    assert(items_view(items@) =~= items_view(old(items)@).push(iv));
}

/// Appends an entry to an object being built.
pub fn push_entry(entries: &mut Vec<(String, JsonValue)>, key: &str, value: JsonValue)
    ensures
        entries_view(final(entries)@) == entries_view(old(entries)@).push((key@, json_view(value))),
{
    let ghost vv = json_view(value);
    entries.push((String::from_str(key), value));
    assert(entries_view(entries@) =~= entries_view(old(entries)@).push((key@, vv)));
}

#[verifier::external_type_specification]
#[verifier::external_body]
pub struct ExTomlValue(toml::Value);


/// The result of parsing a TOML document with `toml::from_str`: the root
/// table, or the parser's error message.
pub uninterp spec fn toml_document(text: Seq<char>) -> Result<TomlValue, String>;

/// The result of parsing a JSON document with `serde_json::from_str`: the
/// value, or the parser's error message.
pub uninterp spec fn json_document(text: Seq<char>) -> Result<JsonValue, String>;

/// Converts a `toml::Value` into a `TomlValue`, variant by variant.
#[verifier::external_body]
fn toml_tree(v: toml::Value) -> TomlValue {
    match v {
        toml::Value::String(s) => TomlValue::String(s),
        toml::Value::Integer(i) => TomlValue::Integer(i),
        toml::Value::Float(f) => TomlValue::Float(f.to_bits()),
        toml::Value::Boolean(b) => TomlValue::Boolean(b),
        toml::Value::Datetime(d) => TomlValue::Datetime(d.to_string()),
        toml::Value::Array(a) => TomlValue::Array(a.into_iter().map(toml_tree).collect()),
        toml::Value::Table(t) => TomlValue::Table(t.into_iter().map(|(k, v)| (k, toml_tree(v))).collect()),
    }
}

/// Parses a TOML document with `toml::from_str::<toml::Value>` and converts
/// the tree with `toml_tree`; an error becomes its `Display` text. The
/// result is named `toml_document`, a function of the text alone.
#[verifier::external_body]
pub(crate) fn parse_toml(text: &str) -> (r: Result<TomlValue, String>)
    ensures
        r == toml_document(text@),
{
    match toml::from_str::<toml::Value>(text) {
        Ok(v) => Ok(toml_tree(v)),
        Err(e) => Err(e.to_string()),
    }
}

/// Converts a `serde_json::Value` into a `JsonValue`, variant by variant.
#[verifier::external_body]
fn json_tree(v: serde_json::Value) -> JsonValue {
    match v {
        serde_json::Value::Null => JsonValue::Null,
        serde_json::Value::Bool(b) => JsonValue::Bool(b),
        serde_json::Value::Number(n) => JsonValue::Number(n.to_string()),
        serde_json::Value::String(s) => JsonValue::String(s),
        serde_json::Value::Array(a) => JsonValue::Array(a.into_iter().map(json_tree).collect()),
        serde_json::Value::Object(o) => JsonValue::Object(o.into_iter().map(|(k, v)| (k, json_tree(v))).collect()),
    }
}

/// Parses a JSON document with `serde_json::from_str::<serde_json::Value>`
/// and converts the tree with `json_tree`; an error becomes its `Display`
/// text. The result is named `json_document`, a function of the text alone.
/// A parsed object's map has each key once, so no object in the tree repeats
/// a key.
#[verifier::external_body]
pub(crate) fn parse_json(text: &str) -> (r: Result<JsonValue, String>)
    ensures
        r == json_document(text@),
        r matches Ok(v) ==> json_keys_distinct(v),
{
    match serde_json::from_str::<serde_json::Value>(text) {
        Ok(v) => Ok(json_tree(v)),
        Err(e) => Err(e.to_string()),
    }
}

/// The value of the first entry with the given key.
pub open spec fn toml_entry(entries: Seq<(String, TomlValue)>, key: Seq<char>) -> Option<TomlValue>
    decreases entries.len(),
{
    if entries.len() == 0 {
        None
    } else if entries[0].0@ == key {
        Some(entries[0].1)
    } else {
        toml_entry(entries.drop_first(), key)
    }
}

/// The value under `key` when `v` is a table (`toml::Value::get`).
pub open spec fn toml_get(v: TomlValue, key: Seq<char>) -> Option<TomlValue> {
    match v {
        TomlValue::Table(t) => toml_entry(t@, key),
        _ => None,
    }
}

/// The keys of table entries, in order.
pub open spec fn toml_keys(entries: Seq<(String, TomlValue)>) -> Seq<Seq<char>> {
    entries.map_values(|e: (String, TomlValue)| e.0@)
}

/// The string items of an array, in order.
pub open spec fn toml_strings(items: Seq<TomlValue>) -> Seq<Seq<char>>
    decreases items.len(),
{
    if items.len() == 0 {
        seq![]
    } else {
        let rest = toml_strings(items.drop_first());
        match items[0] {
            TomlValue::String(s) => seq![s@] + rest,
            _ => rest,
        }
    }
}

/// The value of the first entry with the given key.
pub open spec fn json_entry(entries: Seq<(String, JsonValue)>, key: Seq<char>) -> Option<JsonValue>
    decreases entries.len(),
{
    if entries.len() == 0 {
        None
    } else if entries[0].0@ == key {
        Some(entries[0].1)
    } else {
        json_entry(entries.drop_first(), key)
    }
}

/// No two entries of an object have the same key.
pub open spec fn entry_keys_distinct(entries: Seq<(String, JsonValue)>) -> bool {
    forall|i: int, j: int| 0 <= i < j < entries.len() ==> (#[trigger] entries[i]).0@ != (#[trigger] entries[j]).0@
}

/// No object within `v`, `v` included, has two entries with the same key.
pub open spec fn json_keys_distinct(v: JsonValue) -> bool
    decreases v,
{
    match v {
        JsonValue::Array(items) => forall|i: int| 0 <= i < items@.len() ==> json_keys_distinct(#[trigger] items@[i]),
        JsonValue::Object(entries) => {
            &&& entry_keys_distinct(entries@)
            &&& forall|i: int| 0 <= i < entries@.len() ==> json_keys_distinct(#[trigger] entries@[i].1)
        },
        _ => true,
    }
}

/// The value found under a key is the value of one of the entries.
pub proof fn lemma_json_entry_found(entries: Seq<(String, JsonValue)>, key: Seq<char>)
    ensures
        json_entry(entries, key) matches Some(v) ==> exists|i: int| 0 <= i < entries.len() && entries[i].1 == v,
    decreases entries.len(),
{
    if entries.len() > 0 && entries[0].0@ != key {
        lemma_json_entry_found(entries.drop_first(), key);
        if let Some(v) = json_entry(entries, key) {
            let i = choose|i: int| 0 <= i < entries.drop_first().len() && entries.drop_first()[i].1 == v;
            assert(entries[i + 1].1 == v);
        }
    }
}

/// The value under `key` when `v` is an object (`serde_json::Value::get`).
pub open spec fn json_get(v: JsonValue, key: Seq<char>) -> Option<JsonValue> {
    match v {
        JsonValue::Object(o) => json_entry(o@, key),
        _ => None,
    }
}

/// The keys of object entries, in order.
pub open spec fn json_keys(entries: Seq<(String, JsonValue)>) -> Seq<Seq<char>> {
    entries.map_values(|e: (String, JsonValue)| e.0@)
}

/// The string under `key` when `v` is an object holding one there.
pub open spec fn json_get_str(v: JsonValue, key: Seq<char>) -> Option<Seq<char>> {
    match json_get(v, key) {
        Some(JsonValue::String(s)) => Some(s@),
        _ => None,
    }
}

/// Looks up `key` in a TOML table.
pub fn toml_lookup<'a>(v: &'a TomlValue, key: &str) -> (r: Option<&'a TomlValue>)
    ensures
        r matches Some(x) ==> toml_get(*v, key@) == Some(*x),
        r is None ==> toml_get(*v, key@) is None,
{
    match v {
        TomlValue::Table(entries) => {
            let mut i: usize = 0;
            assert(entries@.skip(0) =~= entries@);
            while i < entries.len()
                invariant
                    i <= entries@.len(),
                    toml_entry(entries@, key@) == toml_entry(entries@.skip(i as int), key@),
                    toml_get(*v, key@) == toml_entry(entries@, key@),
                decreases entries@.len() - i,
            {
                assert(entries@.skip(i as int).drop_first() =~= entries@.skip(i + 1));
                assert(entries@.skip(i as int)[0] == entries@[i as int]);
                if crate::text::str_eq(entries[i].0.as_str(), key) {
                    assert(entries@.skip(i as int)[0].0@ == key@);
                    let found = &entries[i].1;
                    assert(*found == entries@[i as int].1);
                    assert(entries@.skip(i as int).len() > 0);
                    assert(toml_entry(entries@.skip(i as int), key@) == Some(entries@[i as int].1));
                    return Some(found);
                }
                i = i + 1;
            }
            assert(entries@.skip(i as int) =~= seq![]);
            None
        },
        _ => None,
    }
}

/// Looks up `key` in a JSON object.
pub fn json_lookup<'a>(v: &'a JsonValue, key: &str) -> (r: Option<&'a JsonValue>)
    ensures
        r matches Some(x) ==> json_get(*v, key@) == Some(*x),
        r is None ==> json_get(*v, key@) is None,
{
    match v {
        JsonValue::Object(entries) => {
            let mut i: usize = 0;
            assert(entries@.skip(0) =~= entries@);
            while i < entries.len()
                invariant
                    i <= entries@.len(),
                    json_entry(entries@, key@) == json_entry(entries@.skip(i as int), key@),
                    json_get(*v, key@) == json_entry(entries@, key@),
                decreases entries@.len() - i,
            {
                assert(entries@.skip(i as int).drop_first() =~= entries@.skip(i + 1));
                assert(entries@.skip(i as int)[0] == entries@[i as int]);
                if crate::text::str_eq(entries[i].0.as_str(), key) {
                    assert(entries@.skip(i as int)[0].0@ == key@);
                    return Some(&entries[i].1);
                }
                i = i + 1;
            }
            assert(entries@.skip(i as int) =~= seq![]);
            None
        },
        _ => None,
    }
}

/// A copy of a string.
pub fn copy_string(s: &String) -> (r: String)
    ensures
        r@ == s@,
{
    String::from_str(s.as_str())
}

/// The keys of TOML table entries, in order.
pub fn toml_table_keys(entries: &Vec<(String, TomlValue)>) -> (keys: Vec<String>)
    ensures
        keys@.map_values(|s: String| s@) == toml_keys(entries@),
{
    let mut keys: Vec<String> = Vec::new();
    let mut i: usize = 0;
    while i < entries.len()
        invariant
            i <= entries@.len(),
            keys@.len() == i,
            keys@.map_values(|s: String| s@) == toml_keys(entries@.take(i as int)),
        decreases entries@.len() - i,
    {
        let ghost old_keys = keys@;
        keys.push(copy_string(&entries[i].0));
        proof {
            assert forall|j: int| 0 <= j < i implies keys@[j]@ == entries@[j].0@ by {
                assert(keys@[j] == old_keys[j]);
                assert(old_keys.map_values(|s: String| s@)[j] == toml_keys(entries@.take(i as int))[j]);
            }
        }
        i = i + 1;
        assert(keys@.map_values(|s: String| s@) =~= toml_keys(entries@.take(i as int)));
    }
    assert(entries@.take(i as int) =~= entries@);
    keys
}

/// The keys of JSON object entries, in order.
pub fn json_object_keys(entries: &Vec<(String, JsonValue)>) -> (keys: Vec<String>)
    ensures
        keys@.map_values(|s: String| s@) == json_keys(entries@),
{
    let mut keys: Vec<String> = Vec::new();
    let mut i: usize = 0;
    while i < entries.len()
        invariant
            i <= entries@.len(),
            keys@.len() == i,
            keys@.map_values(|s: String| s@) == json_keys(entries@.take(i as int)),
        decreases entries@.len() - i,
    {
        let ghost old_keys = keys@;
        keys.push(copy_string(&entries[i].0));
        proof {
            assert forall|j: int| 0 <= j < i implies keys@[j]@ == entries@[j].0@ by {
                assert(keys@[j] == old_keys[j]);
                assert(old_keys.map_values(|s: String| s@)[j] == json_keys(entries@.take(i as int))[j]);
            }
        }
        i = i + 1;
        assert(keys@.map_values(|s: String| s@) =~= json_keys(entries@.take(i as int)));
    }
    assert(entries@.take(i as int) =~= entries@);
    keys
}

/// The string items of a TOML array, in order.
pub fn toml_string_items(items: &Vec<TomlValue>) -> (strs: Vec<String>)
    ensures
        strs@.map_values(|s: String| s@) == toml_strings(items@),
{
    let mut strs: Vec<String> = Vec::new();
    let mut i: usize = items.len();
    assert(items@.skip(i as int) =~= seq![]);
    while i > 0
        invariant
            i <= items@.len(),
            strs@.map_values(|s: String| s@) == toml_strings(items@.skip(i as int)),
        decreases i,
    {
        i = i - 1;
        assert(items@.skip(i as int).drop_first() =~= items@.skip(i + 1));
        match &items[i] {
            TomlValue::String(s) => {
                strs.insert(0, copy_string(s));
                assert(strs@.map_values(|s: String| s@) =~= toml_strings(items@.skip(i as int)));
            },
            _ => {},
        }
    }
    assert(items@.skip(0) =~= items@);
    strs
}

} // verus!
