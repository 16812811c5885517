use toonana::extract::{find_data_uri_in_any_string, find_http_uri, find_image_data};
use toonana::json::Json;

fn text(s: &str) -> Json {
    Json::Text(s.to_string())
}

fn record(entries: Vec<(&str, Json)>) -> Json {
    Json::Record(entries.into_iter().map(|(k, v)| (k.to_string(), v)).collect())
}

fn list(items: Vec<Json>) -> Json {
    Json::List(items)
}

fn inline(data: &str) -> Json {
    record(vec![("data", text(data)), ("mimeType", text("image/png"))])
}

#[test]
fn inline_data_in_candidate_parts_is_found() {
    let reply = record(vec![(
        "candidates",
        list(vec![record(vec![(
            "content",
            record(vec![("parts", list(vec![record(vec![("inlineData", inline("QUJD"))])]))]),
        )])]),
    )]);
    assert_eq!(find_image_data(&reply), Some("QUJD".to_string()));
}

#[test]
fn snake_case_inline_data_is_found() {
    let part = record(vec![("inline_data", inline("eHl6"))]);
    assert_eq!(find_image_data(&part), Some("eHl6".to_string()));
}

#[test]
fn camel_case_spelling_is_preferred_over_snake_case() {
    let part = record(vec![("inline_data", inline("second")), ("inlineData", inline("first"))]);
    assert_eq!(find_image_data(&part), Some("first".to_string()));
}

#[test]
fn empty_inline_data_is_passed_over() {
    let part = record(vec![("inlineData", inline("")), ("inline_data", inline("kept"))]);
    assert_eq!(find_image_data(&part), Some("kept".to_string()));
}

#[test]
fn inline_data_that_is_not_text_is_passed_over() {
    let part = record(vec![("inlineData", record(vec![("data", Json::Number)]))]);
    assert_eq!(find_image_data(&part), None);
}

#[test]
fn provider_specific_base64_fields_are_found() {
    let a = record(vec![("bytesBase64Encoded", text("AAA"))]);
    let b = record(vec![("b64_json", text("BBB"))]);
    let both = record(vec![("b64_json", text("BBB")), ("bytesBase64Encoded", text("AAA"))]);
    assert_eq!(find_image_data(&a), Some("AAA".to_string()));
    assert_eq!(find_image_data(&b), Some("BBB".to_string()));
    assert_eq!(find_image_data(&both), Some("AAA".to_string()));
}

#[test]
fn inline_field_wins_over_base64_field() {
    let v = record(vec![("bytesBase64Encoded", text("AAA")), ("inlineData", inline("III"))]);
    assert_eq!(find_image_data(&v), Some("III".to_string()));
}

#[test]
fn media_list_is_searched_in_order() {
    let v = record(vec![(
        "media",
        list(vec![
            record(vec![("caption", text("none here"))]),
            record(vec![("inlineData", inline(""))]),
            record(vec![("inline_data", inline("M2"))]),
            record(vec![("inlineData", inline("M3"))]),
        ]),
    )]);
    assert_eq!(find_image_data(&v), Some("M2".to_string()));
}

#[test]
fn media_item_with_camel_case_member_ignores_snake_case_member() {
    let item = record(vec![("inlineData", inline("")), ("inline_data", inline("hidden"))]);
    let v = record(vec![("media", list(vec![item]))]);
    // Within the media list the item yields nothing; the search of the
    // members then finds the payload under the item's own field names.
    assert_eq!(find_image_data(&v), Some("hidden".to_string()));
    let only_media = record(vec![(
        "media",
        list(vec![record(vec![("inlineData", record(vec![("data", Json::Null)]))])]),
    )]);
    assert_eq!(find_image_data(&only_media), None);
}

#[test]
fn data_uri_lists_yield_their_first_text() {
    let v = record(vec![(
        "dataUris",
        list(vec![Json::Null, text(""), text("data:image/png;base64,QQ=="), text("other")]),
    )]);
    assert_eq!(find_image_data(&v), Some("data:image/png;base64,QQ==".to_string()));
    let w = record(vec![("data_uris", list(vec![text("https://example.com/a.png")]))]);
    assert_eq!(find_image_data(&w), Some("https://example.com/a.png".to_string()));
}

#[test]
fn file_reference_counts_only_as_data_uri() {
    let data = record(vec![("fileData", record(vec![("fileUri", text("data:image/png;base64,Zg=="))]))]);
    let http = record(vec![("fileData", record(vec![("fileUri", text("https://host/x.png"))]))]);
    let snake = record(vec![("file_data", record(vec![("file_uri", text("data:text/plain,hi"))]))]);
    assert_eq!(find_image_data(&data), Some("data:image/png;base64,Zg==".to_string()));
    assert_eq!(find_image_data(&http), None);
    assert_eq!(find_image_data(&snake), Some("data:text/plain,hi".to_string()));
}

#[test]
fn data_uri_nested_three_levels_deep_is_found() {
    let fragment = record(vec![(
        "result",
        record(vec![(
            "outputs",
            list(vec![record(vec![("url", text("data:image/png;base64,Zm9v"))])]),
        )]),
    )]);
    assert_eq!(find_image_data(&fragment), Some("data:image/png;base64,Zm9v".to_string()));
}

#[test]
fn first_match_wins_among_members() {
    let v = record(vec![
        ("a", record(vec![("inlineData", inline("from-a"))])),
        ("b", record(vec![("inlineData", inline("from-b"))])),
    ]);
    assert_eq!(find_image_data(&v), Some("from-a".to_string()));
    let l = list(vec![
        record(vec![("text", text("no image"))]),
        record(vec![("b64_json", text("from-list"))]),
        record(vec![("b64_json", text("later"))]),
    ]);
    assert_eq!(find_image_data(&l), Some("from-list".to_string()));
}

#[test]
fn own_fields_win_over_members() {
    let v = record(vec![
        ("a", record(vec![("inlineData", inline("inner"))])),
        ("z_b64", Json::Null),
        ("b64_json", text("outer")),
    ]);
    assert_eq!(find_image_data(&v), Some("outer".to_string()));
}

#[test]
fn values_that_are_no_record_offer_nothing_by_themselves() {
    assert_eq!(find_image_data(&text("QUJD")), None);
    assert_eq!(find_image_data(&list(vec![text("data:text/plain,hi")])), None);
    assert_eq!(find_image_data(&Json::Null), None);
    assert_eq!(find_image_data(&Json::Bool(true)), None);
    assert_eq!(find_image_data(&Json::Number), None);
    assert_eq!(find_image_data(&record(vec![])), None);
    assert_eq!(find_image_data(&list(vec![])), None);
}

#[test]
fn structured_image_anywhere_outranks_the_scan_of_texts() {
    let fragment = record(vec![
        ("x", text("data:image/png;base64,Zm9v")),
        ("y", record(vec![("inlineData", inline("QUJD"))])),
    ]);
    assert_eq!(find_image_data(&fragment), Some("QUJD".to_string()));
    let deep = record(vec![
        ("a", text("data:image/png;base64,Zm9v")),
        ("b", list(vec![list(vec![record(vec![("b64_json", text("REVFUA=="))])])])),
    ]);
    assert_eq!(find_image_data(&deep), Some("REVFUA==".to_string()));
}

#[test]
fn texts_are_scanned_where_nothing_else_is_found() {
    assert_eq!(
        find_image_data(&text("data:image/png;base64,Zm9v")),
        Some("data:image/png;base64,Zm9v".to_string())
    );
    assert_eq!(
        find_image_data(&list(vec![text("no"), text("data:image/png;base64,Zm9v")])),
        Some("data:image/png;base64,Zm9v".to_string())
    );
    let two = record(vec![
        ("first", text("data:image/png;base64,AAAA")),
        ("second", text("data:image/png;base64,BBBB")),
    ]);
    assert_eq!(find_image_data(&two), Some("data:image/png;base64,AAAA".to_string()));
}

#[test]
fn any_string_scan_wants_an_image_data_uri() {
    let plain = record(vec![("note", text("data:text/plain,hello"))]);
    assert_eq!(find_data_uri_in_any_string(&plain), None);
    let image = list(vec![text("x"), list(vec![text("data:image/webp;base64,AA")])]);
    assert_eq!(find_data_uri_in_any_string(&image), Some("data:image/webp;base64,AA".to_string()));
    assert_eq!(
        find_data_uri_in_any_string(&text("data:image/png;base64,Zm9v")),
        Some("data:image/png;base64,Zm9v".to_string())
    );
    assert_eq!(find_data_uri_in_any_string(&text(" data:image/png;base64,Zm9v")), None);
}

#[test]
fn http_uri_is_found_in_file_reference() {
    let v = record(vec![(
        "parts",
        list(vec![record(vec![(
            "fileData",
            record(vec![("fileUri", text("https://generativelanguage.googleapis.com/v1/files/1"))]),
        )])]),
    )]);
    assert_eq!(
        find_http_uri(&v),
        Some("https://generativelanguage.googleapis.com/v1/files/1".to_string())
    );
    assert_eq!(find_image_data(&v), None);
}

#[test]
fn http_uri_is_found_in_uri_list_after_other_entries() {
    let v = record(vec![(
        "data_uris",
        list(vec![text("data:image/png;base64,AA"), text("ftp://x"), text("http://plain/y.png")]),
    )]);
    assert_eq!(find_http_uri(&v), Some("http://plain/y.png".to_string()));
}

#[test]
fn http_uri_search_ignores_other_schemes_and_plain_strings() {
    let v = record(vec![
        ("fileData", record(vec![("fileUri", text("data:image/png;base64,AA"))])),
        ("link", text("https://not-a-known-field/z.png")),
    ]);
    assert_eq!(find_http_uri(&v), None);
}

#[test]
fn file_reference_with_camel_case_uri_ignores_snake_case_uri() {
    let v = record(vec![(
        "fileData",
        record(vec![("fileUri", Json::Number), ("file_uri", text("https://host/a.png"))]),
    )]);
    assert_eq!(find_http_uri(&v), None);
    let w = record(vec![("file_data", record(vec![("file_uri", text("https://host/a.png"))]))]);
    assert_eq!(find_http_uri(&w), Some("https://host/a.png".to_string()));
}

#[test]
fn record_lookup_takes_first_entry_of_a_key() {
    let v = Json::Record(vec![
        ("k".to_string(), text("one")),
        ("k".to_string(), text("two")),
        ("other".to_string(), Json::Bool(false)),
    ]);
    assert_eq!(v.text_field("k"), Some("one"));
    assert!(v.get("missing").is_none());
    assert!(v.get("other").is_some());
    assert_eq!(v.text_field("other"), None);
    assert!(text("x").get("k").is_none());
    assert_eq!(text("x").as_str(), Some("x"));
    assert!(list(vec![Json::Null]).as_array().map(|a| a.len()) == Some(1));
    assert!(v.as_array().is_none());
}
