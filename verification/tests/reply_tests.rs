use toonana::extract::find_image_data;
use toonana::json::{parse_text, Json};
use toonana::provider::generated_model_text;
use toonana::reply::{
    judge_model_text_reply, judge_once_reply, judge_once_value,
    judge_renderer_reply, judge_stream_end, judge_text_reply, report_fetch_failure,
    report_stream_failure, report_transport_failure, FetchSite, OnceCall, ReplyVerdict,
};
use toonana::stream::StreamEnd;

const WITH_IMAGE: &str =
    r#"{"candidates":[{"finishReason":"STOP","content":{"parts":[{"inlineData":{"mimeType":"image/png","data":"QUJD"}}]}}]}"#;
const WITHOUT_IMAGE: &str =
    r#"{"candidates":[{"finishReason":"STOP","content":{"parts":[{"text":"I cannot draw"}]}}]}"#;
const BLOCKED: &str =
    r#"{"candidates":[{"finishReason":"IMAGE_SAFETY","content":{"parts":[{"inlineData":{"data":"QUJD"}}]}}]}"#;
const WITH_OWN_URI: &str =
    r#"{"candidates":[{"content":{"parts":[{"fileData":{"fileUri":"https://generativelanguage.googleapis.com/v1beta/files/f1"}}]}}]}"#;
const WITH_DISGUISED_URI: &str =
    r#"{"candidates":[{"content":{"parts":[{"fileData":{"fileUri":"https://evil.example/i?x=generativelanguage.googleapis.com"}}]}}]}"#;
const WITH_FOREIGN_URI: &str =
    r#"{"candidates":[{"content":{"parts":[{"file_data":{"file_uri":"http://cdn.example.com/f1.png"}}]}}]}"#;

fn failed(v: ReplyVerdict) -> String {
    match v {
        ReplyVerdict::Failed { error } => error,
        other => panic!("unexpected verdict {:?}", other),
    }
}

#[test]
fn parser_gives_the_tree_of_a_text() {
    let v = parse_text(r#" {"a": {"k": "v"}, "b": [1, 2.5, "x", null, false]} "#).unwrap();
    match &v {
        Json::Record(entries) => {
            let keys: Vec<&str> = entries.iter().map(|(k, _)| k.as_str()).collect();
            assert_eq!(keys, vec!["a", "b"]);
        }
        other => panic!("unexpected value {:?}", other),
    }
    assert_eq!(v.get("a").and_then(|a| a.text_field("k")), Some("v"));
    let items = v.get("b").and_then(|b| b.as_array()).unwrap();
    assert_eq!(items.len(), 5);
    assert!(matches!(items[0], Json::Number));
    assert!(matches!(items[1], Json::Number));
    assert!(matches!(&items[2], Json::Text(s) if s == "x"));
    assert!(matches!(items[3], Json::Null));
    assert!(matches!(items[4], Json::Bool(false)));
    assert!(matches!(parse_text("\"just text\""), Some(Json::Text(s)) if s == "just text"));
    assert!(matches!(parse_text("[]"), Some(Json::List(items)) if items.is_empty()));
}

#[test]
fn parser_refuses_what_is_not_one_json_value() {
    assert!(parse_text("").is_none());
    assert!(parse_text("   ").is_none());
    assert!(parse_text("{").is_none());
    assert!(parse_text("{} {}").is_none());
    assert!(parse_text("{'a': 1}").is_none());
    assert!(parse_text("data: {}").is_none());
    assert!(parse_text("\u{a0}{}").is_none());
}

#[test]
fn parser_keeps_the_last_of_repeated_keys() {
    let v = parse_text(r#"{"inlineData":{"data":"one"},"inlineData":{"data":"two"}}"#).unwrap();
    assert_eq!(find_image_data(&v), Some("two".to_string()));
}

#[test]
fn first_reply_with_image_ends_the_request() {
    assert!(matches!(
        judge_once_reply(OnceCall::GenerateFirst, 200, "200 OK", WITH_IMAGE),
        ReplyVerdict::Image { data } if data == "QUJD"
    ));
}

#[test]
fn first_reply_without_image_calls_for_the_second_request() {
    assert!(matches!(
        judge_once_reply(OnceCall::GenerateFirst, 200, "200 OK", WITHOUT_IMAGE),
        ReplyVerdict::SendAgain
    ));
    assert_eq!(
        failed(judge_once_reply(OnceCall::GenerateRetry, 200, "200 OK", WITHOUT_IMAGE)),
        "gemini image: no inline image data in response (after retry)"
    );
    assert_eq!(
        failed(judge_once_reply(OnceCall::Cartoonify, 200, "200 OK", WITHOUT_IMAGE)),
        "gemini image: no inline image data in response"
    );
}

#[test]
fn safety_block_is_terminal_for_the_first_reply_only() {
    assert_eq!(
        failed(judge_once_reply(OnceCall::GenerateFirst, 200, "200 OK", BLOCKED)),
        "gemini image blocked by safety filters"
    );
    assert!(matches!(
        judge_once_reply(OnceCall::GenerateRetry, 200, "200 OK", BLOCKED),
        ReplyVerdict::Image { data } if data == "QUJD"
    ));
    assert!(matches!(
        judge_once_reply(OnceCall::Cartoonify, 200, "200 OK", BLOCKED),
        ReplyVerdict::Image { data } if data == "QUJD"
    ));
}

#[test]
fn unsuccessful_status_fails_the_attempt() {
    assert_eq!(
        failed(judge_once_reply(OnceCall::GenerateFirst, 403, "403 Forbidden", WITH_IMAGE)),
        format!("gemini image error: HTTP 403 Forbidden - {}", WITH_IMAGE)
    );
    assert_eq!(
        failed(judge_once_reply(OnceCall::GenerateRetry, 500, "500 Internal Server Error", "oops")),
        "gemini image failed (retry): HTTP 500 Internal Server Error - oops"
    );
    assert_eq!(
        failed(judge_once_reply(OnceCall::Cartoonify, 404, "404 Not Found", "<no body>")),
        "gemini image error: HTTP 404 Not Found - <no body>"
    );
}

#[test]
fn body_that_is_not_json_fails_the_attempt() {
    assert_eq!(
        failed(judge_once_reply(OnceCall::GenerateFirst, 200, "200 OK", "<html>")),
        "gemini image parse error"
    );
    assert_eq!(
        failed(judge_once_reply(OnceCall::GenerateRetry, 200, "200 OK", "")),
        "gemini image retry parse error"
    );
    assert_eq!(
        failed(judge_once_reply(OnceCall::Cartoonify, 200, "200 OK", "{")),
        "gemini cartoonify parse error"
    );
}

#[test]
fn uri_is_fetched_with_the_key_on_the_providers_host_only() {
    assert!(matches!(
        judge_once_reply(OnceCall::GenerateFirst, 200, "200 OK", WITH_OWN_URI),
        ReplyVerdict::Fetch { uri, with_key: true } if uri == "https://generativelanguage.googleapis.com/v1beta/files/f1"
    ));
    assert!(matches!(
        judge_once_reply(OnceCall::GenerateRetry, 200, "200 OK", WITH_FOREIGN_URI),
        ReplyVerdict::Fetch { uri, with_key: false } if uri == "http://cdn.example.com/f1.png"
    ));
    assert!(matches!(
        judge_once_reply(OnceCall::Cartoonify, 200, "200 OK", WITH_OWN_URI),
        ReplyVerdict::Fetch { with_key: false, .. }
    ));
    assert!(matches!(
        judge_once_reply(OnceCall::GenerateFirst, 200, "200 OK", WITH_DISGUISED_URI),
        ReplyVerdict::Fetch { with_key: false, .. }
    ));
    assert!(matches!(
        judge_stream_end(StreamEnd::Fetch {
            uri: "https://evil.example/i?x=generativelanguage.googleapis.com".to_string()
        }),
        ReplyVerdict::Fetch { with_key: false, .. }
    ));
    let value = parse_text(WITH_OWN_URI).unwrap();
    assert!(matches!(
        judge_once_value(OnceCall::GenerateFirst, &value),
        ReplyVerdict::Fetch { with_key: true, .. }
    ));
}

#[test]
fn stream_end_is_judged() {
    assert!(matches!(
        judge_stream_end(StreamEnd::Image { data: "SU1H".to_string() }),
        ReplyVerdict::Image { data } if data == "SU1H"
    ));
    assert!(matches!(
        judge_stream_end(StreamEnd::Fetch { uri: "https://generativelanguage.googleapis.com/x".to_string() }),
        ReplyVerdict::Fetch { with_key: true, .. }
    ));
    assert!(matches!(
        judge_stream_end(StreamEnd::Fetch { uri: "https://elsewhere/x".to_string() }),
        ReplyVerdict::Fetch { with_key: false, .. }
    ));
    assert_eq!(failed(judge_stream_end(StreamEnd::Missing)), "gemini stream: no image data received");
}

#[test]
fn failures_on_the_way_are_reported_by_their_place() {
    assert_eq!(report_transport_failure(OnceCall::GenerateFirst), "gemini image request failed");
    assert_eq!(report_transport_failure(OnceCall::GenerateRetry), "gemini image retry request failed");
    assert_eq!(report_transport_failure(OnceCall::Cartoonify), "gemini cartoonify image request failed");
    assert_eq!(
        report_fetch_failure(FetchSite::Stream, false, "timed out"),
        "gemini stream: fetch uri failed: timed out"
    );
    assert_eq!(
        report_fetch_failure(FetchSite::CartoonifyStream, true, "reset"),
        "gemini cartoonify stream: read uri bytes failed: reset"
    );
    assert_eq!(
        report_fetch_failure(FetchSite::Once { call: OnceCall::GenerateFirst }, false, "e"),
        "gemini once: fetch uri failed: e"
    );
    assert_eq!(
        report_fetch_failure(FetchSite::Once { call: OnceCall::GenerateRetry }, true, "e"),
        "gemini once retry: read uri bytes failed: e"
    );
    assert_eq!(
        report_fetch_failure(FetchSite::Once { call: OnceCall::Cartoonify }, false, "e"),
        "gemini once cartoonify: fetch uri failed: e"
    );
    assert_eq!(report_stream_failure("connection closed"), "gemini stream error: connection closed");
}

#[test]
fn renderer_reply_is_judged_whole() {
    assert_eq!(judge_renderer_reply(200, "200 OK", r#"{"image_base64":"QQ=="}"#), Ok("QQ==".to_string()));
    assert_eq!(
        judge_renderer_reply(500, "500 Internal Server Error", r#"{"image_base64":"QQ=="}"#),
        Err(r#"nano-banana error: HTTP 500 Internal Server Error - {"image_base64":"QQ=="}"#.to_string())
    );
    assert_eq!(
        judge_renderer_reply(200, "200 OK", "not json"),
        Err("nano-banana parse error: error decoding response body".to_string())
    );
    assert_eq!(
        judge_renderer_reply(200, "200 OK", "{}"),
        Err("nano-banana: no image in response".to_string())
    );
}

#[test]
fn text_reply_is_judged_whole() {
    assert_eq!(judge_text_reply(200, "200 OK", r#"{"response":"Once upon"}"#), Ok("Once upon".to_string()));
    assert_eq!(
        judge_text_reply(200, "200 OK", r#"[{"response":"a"},{"response":"b"}]"#),
        Ok("ab".to_string())
    );
    assert_eq!(
        judge_text_reply(404, "404 Not Found", r#"{"response":"x"}"#),
        Err("Ollama server not reachable. Is it running on port 11434?".to_string())
    );
    assert_eq!(judge_text_reply(503, "503 Service Unavailable", ""), Err("ollama error: HTTP 503 Service Unavailable".to_string()));
    assert_eq!(
        judge_text_reply(200, "200 OK", "<html>"),
        Err("response parse error: error decoding response body".to_string())
    );
    assert_eq!(judge_text_reply(200, "200 OK", "{}"), Err("Unexpected Ollama response format".to_string()));
}

#[test]
fn model_text_reply_yields_the_first_text() {
    let body = r#"{"candidates":[{"content":{"parts":[{"text":""},{"inlineData":{}}]}},{"content":{"parts":[{"text":"first"},{"text":"second"}]}}]}"#;
    assert_eq!(judge_model_text_reply(200, "200 OK", body), Ok("first".to_string()));
    assert_eq!(generated_model_text(&parse_text(body).unwrap()), Ok("first".to_string()));
    let none = Err("gemini: no text in response".to_string());
    assert_eq!(judge_model_text_reply(200, "200 OK", r#"{"candidates":[]}"#), none);
    assert_eq!(judge_model_text_reply(200, "200 OK", r#"{"candidates":[{"content":{"parts":"x"}}]}"#), none);
    assert_eq!(judge_model_text_reply(200, "200 OK", "{}"), none);
    assert_eq!(judge_model_text_reply(200, "200 OK", "nope"), Err("gemini parse error".to_string()));
    assert_eq!(
        judge_model_text_reply(429, "429 Too Many Requests", body),
        Err("gemini error: HTTP 429 Too Many Requests".to_string())
    );
}
