//! A JSON tree as the extractors read it, and the parser that produces it.

use vstd::prelude::*;
use crate::text::same_text;

verus! {

/// A parsed JSON value. Numbers carry no payload: nothing here reads them.
/// A record keeps its entries in the order in which the parser hands them out.
#[derive(Debug)]
pub enum Json {
    Null,
    Bool(bool),
    Number,
    Text(String),
    List(Vec<Json>),
    Record(Vec<(String, Json)>),
}

/// The mathematical value that a [`Json`] stands for.
pub enum JsonModel {
    Null,
    Bool(bool),
    Number,
    Text(Seq<char>),
    List(Seq<JsonModel>),
    Record(Seq<(Seq<char>, JsonModel)>),
}

/// The model of a value: texts by their characters, lists and records item
/// by item.
pub open spec fn model_of(v: Json) -> JsonModel
    decreases v,
{
    match v {
        Json::Null => JsonModel::Null,
        Json::Bool(b) => JsonModel::Bool(b),
        Json::Number => JsonModel::Number,
        Json::Text(s) => JsonModel::Text(s@),
        Json::List(items) => JsonModel::List(
            Seq::new(
                items@.len(),
                |i: int|
                    if 0 <= i < items@.len() {
                        model_of(items@[i])
                    } else {
                        JsonModel::Null
                    },
            ),
        ),
        Json::Record(entries) => JsonModel::Record(
            Seq::new(
                entries@.len(),
                |i: int|
                    if 0 <= i < entries@.len() {
                        (entries@[i].0@, model_of(entries@[i].1))
                    } else {
                        (Seq::empty(), JsonModel::Null)
                    },
            ),
        ),
    }
}

impl View for Json {
    type V = JsonModel;

    open spec fn view(&self) -> JsonModel {
        model_of(*self)
    }
}

/// The value of the first entry at or after `from` whose key is `key`.
pub open spec fn lookup_from(
    entries: Seq<(Seq<char>, JsonModel)>,
    key: Seq<char>,
    from: int,
) -> Option<JsonModel>
    decreases entries.len() - from,
{
    if from < 0 || from >= entries.len() {
        None
    } else if entries[from].0 == key {
        Some(entries[from].1)
    } else {
        lookup_from(entries, key, from + 1)
    }
}

impl JsonModel {
    /// The member `key` of a record; nothing for any other kind of value.
    pub open spec fn field(self, key: Seq<char>) -> Option<JsonModel> {
        match self {
            JsonModel::Record(entries) => lookup_from(entries, key, 0),
            _ => None,
        }
    }

    /// The characters of a text value.
    pub open spec fn text(self) -> Option<Seq<char>> {
        match self {
            JsonModel::Text(s) => Some(s),
            _ => None,
        }
    }

    /// The items of a list value.
    pub open spec fn items(self) -> Option<Seq<JsonModel>> {
        match self {
            JsonModel::List(items) => Some(items),
            _ => None,
        }
    }

    /// The text held by the member `key`, if the member exists and is a text.
    pub open spec fn text_field(self, key: Seq<char>) -> Option<Seq<char>> {
        match self.field(key) {
            Some(v) => v.text(),
            None => None,
        }
    }

    /// The items held by the member `key`, if the member exists and is a list.
    pub open spec fn list_field(self, key: Seq<char>) -> Option<Seq<JsonModel>> {
        match self.field(key) {
            Some(v) => v.items(),
            None => None,
        }
    }
}

/// The view of an optional borrowed text.
pub open spec fn text_view(t: Option<&str>) -> Option<Seq<char>> {
    match t {
        Some(s) => Some(s@),
        None => None,
    }
}

/// The view of an optional owned text.
pub open spec fn string_view(t: Option<String>) -> Option<Seq<char>> {
    match t {
        Some(s) => Some(s@),
        None => None,
    }
}

/// The view of an optional owned value.
pub open spec fn owned_json_view(v: Option<Json>) -> Option<JsonModel> {
    match v {
        Some(j) => Some(j@),
        None => None,
    }
}

/// The view of an optional borrowed value.
pub open spec fn json_view(v: Option<&Json>) -> Option<JsonModel> {
    match v {
        Some(j) => Some(j@),
        None => None,
    }
}

/// What `serde_json::from_str` makes of a text: the value it parses to, or
/// nothing where the text is not one JSON value. A record's entries stand in
/// the order in which the parsed map hands them out.
pub uninterp spec fn json_of_text(text: Seq<char>) -> Option<JsonModel>;

/// A `serde_json::Value`, which Verus carries without looking inside.
#[verifier::external_type_specification]
#[verifier::external_body]
pub struct ExValue(serde_json::Value);

/// What a `serde_json::Value` holds: its variant, the characters of a
/// string, the items of an array in order, and the entries of an object in
/// the order of `Map::iter`. Of a number only that it is one.
pub uninterp spec fn value_model(value: serde_json::Value) -> JsonModel;

/// Copies a `serde_json::Value` into a [`Json`], variant by variant: a
/// string by its characters, an array item by item, an object entry by
/// entry as `Map::iter` yields them.
#[verifier::external_body]
fn json_from_value(value: &serde_json::Value) -> (r: Json)
    ensures
        r@ == value_model(*value),
{
    match value {
        serde_json::Value::Null => Json::Null,
        serde_json::Value::Bool(b) => Json::Bool(*b),
        serde_json::Value::Number(_) => Json::Number,
        serde_json::Value::String(s) => Json::Text(s.clone()),
        serde_json::Value::Array(a) => Json::List(a.iter().map(json_from_value).collect()),
        serde_json::Value::Object(m) => Json::Record(
            m.iter().map(|(k, x)| (k.clone(), json_from_value(x))).collect(),
        ),
    }
}

/// `serde_json::from_str` at type `serde_json::Value`: the parsed value, or
/// nothing where the parser reports an error.
#[verifier::external_body]
fn value_from_text(text: &str) -> (r: Option<serde_json::Value>)
    ensures
        match r {
            Some(value) => json_of_text(text@) == Some(value_model(value)),
            None => json_of_text(text@) is None,
        },
{
    serde_json::from_str::<serde_json::Value>(text).ok()
}

/// Parses a text as one JSON value.
pub fn parse_text(text: &str) -> (r: Option<Json>)
    ensures
        owned_json_view(r) == json_of_text(text@),
{
    match value_from_text(text) {
        Some(value) => Some(json_from_value(&value)),
        None => None,
    }
}

impl Json {
    /// The member `key` of a record.
    pub fn get(&self, key: &str) -> (r: Option<&Json>)
        ensures
            json_view(r) == self@.field(key@),
    {
        match self {
            Json::Record(entries) => {
                let ghost model = self@->Record_0;
                let mut i: usize = 0;
                while i < entries.len()
                    invariant
                        i <= entries.len(),
                        self@ == JsonModel::Record(model),
                        model.len() == entries@.len(),
                        forall|j: int|
                            0 <= j < entries@.len() ==> #[trigger] model[j] == (
                                entries@[j].0@,
                                entries@[j].1@,
                            ),
                        lookup_from(model, key@, 0) == lookup_from(model, key@, i as int),
                    decreases entries.len() - i,
                {
                    if same_text(entries[i].0.as_str(), key) {
                        return Some(&entries[i].1);
                    }
                    i += 1;
                }
                None
            },
            _ => None,
        }
    }

    /// The characters of a text value.
    pub fn as_str(&self) -> (r: Option<&str>)
        ensures
            text_view(r) == self@.text(),
    {
        match self {
            Json::Text(s) => Some(s.as_str()),
            _ => None,
        }
    }

    /// The items of a list value.
    pub fn as_array(&self) -> (r: Option<&Vec<Json>>)
        ensures
            match r {
                Some(items) => self@.items() == Some(items_view(items@)),
                None => self@.items() is None,
            },
    {
        match self {
            Json::List(items) => Some(items),
            _ => None,
        }
    }

    /// The text held by the member `key`.
    pub fn text_field(&self, key: &str) -> (r: Option<&str>)
        ensures
            text_view(r) == self@.text_field(key@),
    {
        match self.get(key) {
            Some(v) => v.as_str(),
            None => None,
        }
    }
}

/// The models of a run of values.
pub open spec fn items_view(items: Seq<Json>) -> Seq<JsonModel> {
    Seq::new(items.len(), |i: int| items[i]@)
}

/// The models of a run of record entries.
pub open spec fn entries_view(entries: Seq<(String, Json)>) -> Seq<(Seq<char>, JsonModel)> {
    Seq::new(entries.len(), |i: int| (entries[i].0@, entries[i].1@))
}

/// A list's model is the list of its items' models.
pub proof fn list_view(v: Json)
    requires
        v is List,
    ensures
        v@ == JsonModel::List(items_view(v->List_0@)),
{
    assert(v@->List_0 =~= items_view(v->List_0@));
}

/// A record's model is the list of its entries' models.
pub proof fn record_view(v: Json)
    requires
        v is Record,
    ensures
        v@ == JsonModel::Record(entries_view(v->Record_0@)),
{
    assert(v@->Record_0 =~= entries_view(v->Record_0@));
}

} // verus!
