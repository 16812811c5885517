//! Best-effort search of a provider response for image data. Providers
//! change the shape of their responses, so the search goes by field names
//! wherever in the tree they occur; the first match wins.

use vstd::prelude::*;
use crate::json::{Json, JsonModel, items_view, entries_view, list_view, record_view, string_view, text_view};
use crate::text::starts_with;

verus! {

/// `t` where it holds at least one character.
pub open spec fn non_empty(t: Option<Seq<char>>) -> Option<Seq<char>> {
    match t {
        Some(s) => if s.len() > 0 {
            Some(s)
        } else {
            None
        },
        None => None,
    }
}

/// `a` where it is something, otherwise `b`.
pub open spec fn first_of<T>(a: Option<T>, b: Option<T>) -> Option<T> {
    if a is Some {
        a
    } else {
        b
    }
}

/// The payload of an inline image object: its non-empty text member `data`.
pub open spec fn inline_data(inline: JsonModel) -> Option<Seq<char>> {
    non_empty(inline.text_field("data"@))
}

/// The payload of the inline image object that is member `key` of `v`.
pub open spec fn inline_payload(v: JsonModel, key: Seq<char>) -> Option<Seq<char>> {
    match v.field(key) {
        Some(inline) => inline_data(inline),
        None => None,
    }
}

/// The payload of one media item: that of its member `inlineData`, or of its
/// member `inline_data` where it has no `inlineData`.
pub open spec fn media_item_payload(m: JsonModel) -> Option<Seq<char>> {
    match first_of(m.field("inlineData"@), m.field("inline_data"@)) {
        Some(inline) => inline_data(inline),
        None => None,
    }
}

/// The payload of the first media item at or after `from` that has one.
pub open spec fn media_payload_from(media: Seq<JsonModel>, from: int) -> Option<Seq<char>>
    decreases media.len() - from,
{
    if from < 0 || from >= media.len() {
        None
    } else {
        first_of(media_item_payload(media[from]), media_payload_from(media, from + 1))
    }
}

/// The payload found in the list member `media` of `v`.
pub open spec fn media_payload(v: JsonModel) -> Option<Seq<char>> {
    match v.list_field("media"@) {
        Some(media) => media_payload_from(media, 0),
        None => None,
    }
}

/// The first item at or after `from` that is a non-empty text.
pub open spec fn first_text_from(items: Seq<JsonModel>, from: int) -> Option<Seq<char>>
    decreases items.len() - from,
{
    if from < 0 || from >= items.len() {
        None
    } else {
        first_of(non_empty(items[from].text()), first_text_from(items, from + 1))
    }
}

/// The first non-empty text in the list member `key` of `v`.
pub open spec fn listed_uri(v: JsonModel, key: Seq<char>) -> Option<Seq<char>> {
    match v.list_field(key) {
        Some(items) => first_text_from(items, 0),
        None => None,
    }
}

/// The URI of the file reference that is member `key` of `v`: the text of
/// its member `fileUri`, or of `file_uri` where it has no `fileUri`.
pub open spec fn file_uri(v: JsonModel, key: Seq<char>) -> Option<Seq<char>> {
    match v.field(key) {
        Some(reference) => match first_of(
            reference.field("fileUri"@),
            reference.field("file_uri"@),
        ) {
            Some(uri) => uri.text(),
            None => None,
        },
        None => None,
    }
}

/// Whether a text is a `data:` URI.
pub open spec fn is_data_uri(uri: Seq<char>) -> bool {
    "data:"@.is_prefix_of(uri)
}

/// Whether a text is a `data:` URI of an image.
pub open spec fn is_image_data_uri(uri: Seq<char>) -> bool {
    "data:image/"@.is_prefix_of(uri)
}

/// Whether a text is an HTTP or HTTPS URI.
pub open spec fn is_http_uri(uri: Seq<char>) -> bool {
    "http://"@.is_prefix_of(uri) || "https://"@.is_prefix_of(uri)
}

/// The URI of the file reference under `key` where it is a `data:` URI.
pub open spec fn file_data_uri(v: JsonModel, key: Seq<char>) -> Option<Seq<char>> {
    match file_uri(v, key) {
        Some(uri) => if is_data_uri(uri) {
            Some(uri)
        } else {
            None
        },
        None => None,
    }
}

/// The first text anywhere in `v`, walking lists and records in order and
/// depth first, that is a `data:image/` URI.
pub open spec fn any_data_uri(v: JsonModel) -> Option<Seq<char>>
    decreases v, 0int,
{
    match v {
        JsonModel::Text(s) => if is_image_data_uri(s) {
            Some(s)
        } else {
            None
        },
        JsonModel::List(items) => any_data_uri_in_items(items, 0),
        JsonModel::Record(entries) => any_data_uri_in_entries(entries, 0),
        _ => None,
    }
}

/// The first image `data:` URI in the items at or after `from`.
pub open spec fn any_data_uri_in_items(items: Seq<JsonModel>, from: int) -> Option<Seq<char>>
    decreases items, items.len() - from,
{
    if from < 0 || from >= items.len() {
        None
    } else {
        first_of(any_data_uri(items[from]), any_data_uri_in_items(items, from + 1))
    }
}

/// The first image `data:` URI in the values of the entries at or after
/// `from`.
pub open spec fn any_data_uri_in_entries(
    entries: Seq<(Seq<char>, JsonModel)>,
    from: int,
) -> Option<Seq<char>>
    decreases entries, entries.len() - from,
{
    if from < 0 || from >= entries.len() {
        None
    } else {
        first_of(any_data_uri(entries[from].1), any_data_uri_in_entries(entries, from + 1))
    }
}

/// What a record offers by itself under the known field names, in order
/// of preference: an inline payload under either spelling, a base64 member
/// under either provider name, a media list, a list of ready URIs, and a
/// file reference that is a `data:` URI.
pub open spec fn direct_image(v: JsonModel) -> Option<Seq<char>> {
    first_of(
        inline_payload(v, "inlineData"@),
        first_of(
            inline_payload(v, "inline_data"@),
            first_of(
                non_empty(v.text_field("bytesBase64Encoded"@)),
                first_of(
                    non_empty(v.text_field("b64_json"@)),
                    first_of(
                        media_payload(v),
                        first_of(
                            listed_uri(v, "dataUris"@),
                            first_of(
                                listed_uri(v, "data_uris"@),
                                first_of(
                                    file_data_uri(v, "fileData"@),
                                    file_data_uri(v, "file_data"@),
                                ),
                            ),
                        ),
                    ),
                ),
            ),
        ),
    )
}

/// The image data that a value holds under the known field names: what it
/// offers by itself if it is a record, else what the first of its children
/// holds, searched in the same way.
pub open spec fn structured_image(v: JsonModel) -> Option<Seq<char>>
    decreases v, 0int,
{
    match v {
        JsonModel::List(items) => structured_image_in_items(items, 0),
        JsonModel::Record(entries) => first_of(direct_image(v), structured_image_in_entries(entries, 0)),
        _ => None,
    }
}

/// The image data of the first item at or after `from` that holds any.
pub open spec fn structured_image_in_items(items: Seq<JsonModel>, from: int) -> Option<Seq<char>>
    decreases items, items.len() - from,
{
    if from < 0 || from >= items.len() {
        None
    } else {
        first_of(structured_image(items[from]), structured_image_in_items(items, from + 1))
    }
}

/// The image data of the first entry at or after `from` whose value holds
/// any.
pub open spec fn structured_image_in_entries(
    entries: Seq<(Seq<char>, JsonModel)>,
    from: int,
) -> Option<Seq<char>>
    decreases entries, entries.len() - from,
{
    if from < 0 || from >= entries.len() {
        None
    } else {
        first_of(structured_image(entries[from].1), structured_image_in_entries(entries, from + 1))
    }
}

/// The image data of a response fragment: what it holds under the known
/// field names, wherever in the fragment; and only where it holds none, the
/// first of its texts that is a `data:image/` URI.
pub open spec fn find_image(v: JsonModel) -> Option<Seq<char>> {
    first_of(structured_image(v), any_data_uri(v))
}

/// The URI of the file reference under `key` where it is an HTTP(S) URI.
pub open spec fn file_http_uri(v: JsonModel, key: Seq<char>) -> Option<Seq<char>> {
    match file_uri(v, key) {
        Some(uri) => if is_http_uri(uri) {
            Some(uri)
        } else {
            None
        },
        None => None,
    }
}

/// The first item at or after `from` that is a text and an HTTP(S) URI.
pub open spec fn first_http_text_from(items: Seq<JsonModel>, from: int) -> Option<Seq<char>>
    decreases items.len() - from,
{
    if from < 0 || from >= items.len() {
        None
    } else {
        match items[from].text() {
            Some(s) => if is_http_uri(s) {
                Some(s)
            } else {
                first_http_text_from(items, from + 1)
            },
            None => first_http_text_from(items, from + 1),
        }
    }
}

/// The first HTTP(S) URI in the list member `key` of `v`.
pub open spec fn listed_http_uri(v: JsonModel, key: Seq<char>) -> Option<Seq<char>> {
    match v.list_field(key) {
        Some(items) => first_http_text_from(items, 0),
        None => None,
    }
}

/// The fetchable URI that a record offers by itself: a file reference under
/// either spelling, then a URI list under either spelling.
pub open spec fn direct_http_uri(v: JsonModel) -> Option<Seq<char>> {
    first_of(
        file_http_uri(v, "fileData"@),
        first_of(
            file_http_uri(v, "file_data"@),
            first_of(listed_http_uri(v, "dataUris"@), listed_http_uri(v, "data_uris"@)),
        ),
    )
}

/// The fetchable URI of a response fragment, searched like [`find_image`].
pub open spec fn find_http(v: JsonModel) -> Option<Seq<char>>
    decreases v, 0int,
{
    match v {
        JsonModel::List(items) => find_http_in_items(items, 0),
        JsonModel::Record(entries) => first_of(
            direct_http_uri(v),
            find_http_in_entries(entries, 0),
        ),
        _ => None,
    }
}

/// The fetchable URI of the first item at or after `from` that holds one.
pub open spec fn find_http_in_items(items: Seq<JsonModel>, from: int) -> Option<Seq<char>>
    decreases items, items.len() - from,
{
    if from < 0 || from >= items.len() {
        None
    } else {
        first_of(find_http(items[from]), find_http_in_items(items, from + 1))
    }
}

/// The fetchable URI of the first entry at or after `from` whose value
/// holds one.
pub open spec fn find_http_in_entries(
    entries: Seq<(Seq<char>, JsonModel)>,
    from: int,
) -> Option<Seq<char>>
    decreases entries, entries.len() - from,
{
    if from < 0 || from >= entries.len() {
        None
    } else {
        first_of(find_http(entries[from].1), find_http_in_entries(entries, from + 1))
    }
}

fn non_empty_text<'a>(v: &'a Json, key: &str) -> (r: Option<&'a str>)
    ensures
        text_view(r) == non_empty(v@.text_field(key@)),
{
    match v.text_field(key) {
        Some(s) => if s.is_empty() {
            None
        } else {
            Some(s)
        },
        None => None,
    }
}

fn inline_payload_of<'a>(v: &'a Json, key: &str) -> (r: Option<&'a str>)
    ensures
        text_view(r) == inline_payload(v@, key@),
{
    match v.get(key) {
        Some(inline) => non_empty_text(inline, "data"),
        None => None,
    }
}

fn media_item_payload_of<'a>(m: &'a Json) -> (r: Option<&'a str>)
    ensures
        text_view(r) == media_item_payload(m@),
{
    let inline = match m.get("inlineData") {
        Some(x) => Some(x),
        None => m.get("inline_data"),
    };
    match inline {
        Some(x) => non_empty_text(x, "data"),
        None => None,
    }
}

fn media_payload_of<'a>(v: &'a Json) -> (r: Option<&'a str>)
    ensures
        text_view(r) == media_payload(v@),
{
    let media = match v.get("media") {
        Some(m) => match m.as_array() {
            Some(media) => media,
            None => { return None; },
        },
        None => { return None; },
    };
    let mut i: usize = 0;
    while i < media.len()
        invariant
            i <= media.len(),
            v@.list_field("media"@) == Some(items_view(media@)),
            media_payload_from(items_view(media@), 0) == media_payload_from(
                items_view(media@),
                i as int,
            ),
        decreases media.len() - i,
    {
        let found = media_item_payload_of(&media[i]);
        if found.is_some() {
            return found;
        }
        i += 1;
    }
    None
}

fn listed_uri_of<'a>(v: &'a Json, key: &str) -> (r: Option<&'a str>)
    ensures
        text_view(r) == listed_uri(v@, key@),
{
    let items = match v.get(key) {
        Some(m) => match m.as_array() {
            Some(items) => items,
            None => { return None; },
        },
        None => { return None; },
    };
    let mut i: usize = 0;
    while i < items.len()
        invariant
            i <= items.len(),
            v@.list_field(key@) == Some(items_view(items@)),
            first_text_from(items_view(items@), 0) == first_text_from(
                items_view(items@),
                i as int,
            ),
        decreases items.len() - i,
    {
        match items[i].as_str() {
            Some(s) => if !s.is_empty() {
                return Some(s);
            },
            None => {},
        }
        i += 1;
    }
    None
}

fn file_uri_of<'a>(v: &'a Json, key: &str) -> (r: Option<&'a str>)
    ensures
        text_view(r) == file_uri(v@, key@),
{
    match v.get(key) {
        Some(reference) => {
            let uri = match reference.get("fileUri") {
                Some(x) => Some(x),
                None => reference.get("file_uri"),
            };
            match uri {
                Some(x) => x.as_str(),
                None => None,
            }
        },
        None => None,
    }
}

fn file_data_uri_of<'a>(v: &'a Json, key: &str) -> (r: Option<&'a str>)
    ensures
        text_view(r) == file_data_uri(v@, key@),
{
    match file_uri_of(v, key) {
        Some(uri) => if starts_with(uri, "data:") {
            Some(uri)
        } else {
            None
        },
        None => None,
    }
}

/// The first text anywhere in `v` that is a `data:image/` URI.
pub fn find_data_uri_in_any_string(v: &Json) -> (r: Option<String>)
    ensures
        string_view(r) == any_data_uri(v@),
    decreases v,
{
    match v {
        Json::Text(s) => if starts_with(s.as_str(), "data:image/") {
            Some(s.clone())
        } else {
            None
        },
        Json::List(items) => {
            proof {
                list_view(*v);
            }
            data_uri_in_items(items)
        },
        Json::Record(entries) => {
            proof {
                record_view(*v);
            }
            data_uri_in_entries(entries)
        },
        _ => None,
    }
}

fn data_uri_in_items(items: &Vec<Json>) -> (r: Option<String>)
    ensures
        string_view(r) == any_data_uri_in_items(items_view(items@), 0),
    decreases items,
{
    let mut i: usize = 0;
    while i < items.len()
        invariant
            i <= items.len(),
            any_data_uri_in_items(items_view(items@), 0) == any_data_uri_in_items(
                items_view(items@),
                i as int,
            ),
        decreases items.len() - i,
    {
        let found = find_data_uri_in_any_string(&items[i]);
        if found.is_some() {
            return found;
        }
        i += 1;
    }
    None
}

fn data_uri_in_entries(entries: &Vec<(String, Json)>) -> (r: Option<String>)
    ensures
        string_view(r) == any_data_uri_in_entries(entries_view(entries@), 0),
    decreases entries,
{
    let mut i: usize = 0;
    while i < entries.len()
        invariant
            i <= entries.len(),
            any_data_uri_in_entries(entries_view(entries@), 0) == any_data_uri_in_entries(
                entries_view(entries@),
                i as int,
            ),
        decreases entries.len() - i,
    {
        let found = find_data_uri_in_any_string(&entries[i].1);
        if found.is_some() {
            return found;
        }
        i += 1;
    }
    None
}

fn owned(t: Option<&str>) -> (r: Option<String>)
    ensures
        string_view(r) == text_view(t),
{
    match t {
        Some(s) => Some(s.to_owned()),
        None => None,
    }
}

fn direct_image_of(v: &Json) -> (r: Option<String>)
    ensures
        string_view(r) == direct_image(v@),
{
    let a = inline_payload_of(v, "inlineData");
    if a.is_some() {
        return owned(a);
    }
    let b = inline_payload_of(v, "inline_data");
    if b.is_some() {
        return owned(b);
    }
    let c = non_empty_text(v, "bytesBase64Encoded");
    if c.is_some() {
        return owned(c);
    }
    let d = non_empty_text(v, "b64_json");
    if d.is_some() {
        return owned(d);
    }
    let e = media_payload_of(v);
    if e.is_some() {
        return owned(e);
    }
    let f = listed_uri_of(v, "dataUris");
    if f.is_some() {
        return owned(f);
    }
    let g = listed_uri_of(v, "data_uris");
    if g.is_some() {
        return owned(g);
    }
    let h = file_data_uri_of(v, "fileData");
    if h.is_some() {
        return owned(h);
    }
    owned(file_data_uri_of(v, "file_data"))
}

fn find_structured_image(v: &Json) -> (r: Option<String>)
    ensures
        string_view(r) == structured_image(v@),
    decreases v,
{
    match v {
        Json::List(items) => {
            proof {
                list_view(*v);
            }
            image_in_items(items)
        },
        Json::Record(entries) => {
            proof {
                record_view(*v);
            }
            let direct = direct_image_of(v);
            if direct.is_some() {
                return direct;
            }
            image_in_entries(entries)
        },
        _ => None,
    }
}

fn image_in_items(items: &Vec<Json>) -> (r: Option<String>)
    ensures
        string_view(r) == structured_image_in_items(items_view(items@), 0),
    decreases items,
{
    let mut i: usize = 0;
    while i < items.len()
        invariant
            i <= items.len(),
            structured_image_in_items(items_view(items@), 0) == structured_image_in_items(
                items_view(items@),
                i as int,
            ),
        decreases items.len() - i,
    {
        let found = find_structured_image(&items[i]);
        if found.is_some() {
            return found;
        }
        i += 1;
    }
    None
}

fn image_in_entries(entries: &Vec<(String, Json)>) -> (r: Option<String>)
    ensures
        string_view(r) == structured_image_in_entries(entries_view(entries@), 0),
    decreases entries,
{
    let mut i: usize = 0;
    while i < entries.len()
        invariant
            i <= entries.len(),
            structured_image_in_entries(entries_view(entries@), 0) == structured_image_in_entries(
                entries_view(entries@),
                i as int,
            ),
        decreases entries.len() - i,
    {
        let found = find_structured_image(&entries[i].1);
        if found.is_some() {
            return found;
        }
        i += 1;
    }
    None
}

/// Searches a response fragment for image data: an inline base64 payload or
/// a `data:` URI. Within a record the known field names are tried in a fixed
/// order before its members are searched in turn, and the first match wins.
/// Only a fragment that holds nothing under those names is scanned for a
/// text that is a `data:image/` URI.
pub fn find_image_data(v: &Json) -> (r: Option<String>)
    ensures
        string_view(r) == find_image(v@),
{
    let found = find_structured_image(v);
    if found.is_some() {
        return found;
    }
    find_data_uri_in_any_string(v)
}

fn is_http(uri: &str) -> (r: bool)
    ensures
        r == is_http_uri(uri@),
{
    starts_with(uri, "http://") || starts_with(uri, "https://")
}

fn file_http_uri_of<'a>(v: &'a Json, key: &str) -> (r: Option<&'a str>)
    ensures
        text_view(r) == file_http_uri(v@, key@),
{
    match file_uri_of(v, key) {
        Some(uri) => if is_http(uri) {
            Some(uri)
        } else {
            None
        },
        None => None,
    }
}

fn listed_http_uri_of<'a>(v: &'a Json, key: &str) -> (r: Option<&'a str>)
    ensures
        text_view(r) == listed_http_uri(v@, key@),
{
    let items = match v.get(key) {
        Some(m) => match m.as_array() {
            Some(items) => items,
            None => { return None; },
        },
        None => { return None; },
    };
    let mut i: usize = 0;
    while i < items.len()
        invariant
            i <= items.len(),
            v@.list_field(key@) == Some(items_view(items@)),
            first_http_text_from(items_view(items@), 0) == first_http_text_from(
                items_view(items@),
                i as int,
            ),
        decreases items.len() - i,
    {
        match items[i].as_str() {
            Some(s) => if is_http(s) {
                return Some(s);
            },
            None => {},
        }
        i += 1;
    }
    None
}

fn direct_http_uri_of(v: &Json) -> (r: Option<String>)
    ensures
        string_view(r) == direct_http_uri(v@),
{
    let a = file_http_uri_of(v, "fileData");
    if a.is_some() {
        return owned(a);
    }
    let b = file_http_uri_of(v, "file_data");
    if b.is_some() {
        return owned(b);
    }
    let c = listed_http_uri_of(v, "dataUris");
    if c.is_some() {
        return owned(c);
    }
    owned(listed_http_uri_of(v, "data_uris"))
}

/// Searches a response fragment for an HTTP(S) URI under which the image
/// can be fetched: a file reference or an entry of a URI list.
pub fn find_http_uri(v: &Json) -> (r: Option<String>)
    ensures
        string_view(r) == find_http(v@),
    decreases v,
{
    match v {
        Json::List(items) => {
            proof {
                list_view(*v);
            }
            http_in_items(items)
        },
        Json::Record(entries) => {
            proof {
                record_view(*v);
            }
            let direct = direct_http_uri_of(v);
            if direct.is_some() {
                return direct;
            }
            http_in_entries(entries)
        },
        _ => None,
    }
}

fn http_in_items(items: &Vec<Json>) -> (r: Option<String>)
    ensures
        string_view(r) == find_http_in_items(items_view(items@), 0),
    decreases items,
{
    let mut i: usize = 0;
    while i < items.len()
        invariant
            i <= items.len(),
            find_http_in_items(items_view(items@), 0) == find_http_in_items(
                items_view(items@),
                i as int,
            ),
        decreases items.len() - i,
    {
        let found = find_http_uri(&items[i]);
        if found.is_some() {
            return found;
        }
        i += 1;
    }
    None
}

fn http_in_entries(entries: &Vec<(String, Json)>) -> (r: Option<String>)
    ensures
        string_view(r) == find_http_in_entries(entries_view(entries@), 0),
    decreases entries,
{
    let mut i: usize = 0;
    while i < entries.len()
        invariant
            i <= entries.len(),
            find_http_in_entries(entries_view(entries@), 0) == find_http_in_entries(
                entries_view(entries@),
                i as int,
            ),
        decreases entries.len() - i,
    {
        let found = find_http_uri(&entries[i].1);
        if found.is_some() {
            return found;
        }
        i += 1;
    }
    None
}

} // verus!
