use toonana::json::Json;
use toonana::stream::{
    split_lines, ImageRun, ImageStream, StreamEnd, TextStream, CLOSING_TICK, FINAL_TICK,
    OPENING_TICK, PROGRESS_TOTAL,
};

fn image_of(end: StreamEnd) -> Option<String> {
    match end {
        StreamEnd::Image { data } => Some(data),
        _ => None,
    }
}

fn uri_of(end: StreamEnd) -> Option<String> {
    match end {
        StreamEnd::Fetch { uri } => Some(uri),
        _ => None,
    }
}

#[test]
fn split_lines_keeps_the_unfinished_tail() {
    let mut buffer = String::new();
    let lines = split_lines(&mut buffer, "one\ntwo\nthr");
    assert_eq!(lines, vec!["one".to_string(), "two".to_string()]);
    assert_eq!(buffer, "thr");
    let lines = split_lines(&mut buffer, "ee\n");
    assert_eq!(lines, vec!["three".to_string()]);
    assert_eq!(buffer, "");
    let lines = split_lines(&mut buffer, "no line feed");
    assert!(lines.is_empty());
    assert_eq!(buffer, "no line feed");
}

#[test]
fn split_lines_yields_empty_lines() {
    let mut buffer = String::from("a");
    let lines = split_lines(&mut buffer, "\n\n\nb");
    assert_eq!(lines, vec!["a".to_string(), String::new(), String::new()]);
    assert_eq!(buffer, "b");
    let mut empty = String::new();
    assert!(split_lines(&mut empty, "").is_empty());
    assert_eq!(empty, "");
}

#[test]
fn most_recent_inline_image_wins() {
    let body = concat_lines(&[
        r#"{"candidates":[{"content":{"parts":[{"text":"thinking"}]}}]}"#,
        r#"{"candidates":[{"content":{"parts":[{"inlineData":{"mimeType":"image/png","data":"AAA"}}]}}]}"#,
        r#"{"candidates":[{"content":{"parts":[{"inlineData":{"mimeType":"image/png","data":"BBB"}}]}}]}"#,
    ]);
    let mut stream = ImageStream::new();
    let ticks = stream.feed(&body);
    assert_eq!(ticks, vec![3, 5, 7]);
    assert_eq!(image_of(stream.finish()), Some("BBB".to_string()));
}

fn concat_lines(lines: &[&str]) -> String {
    let mut out = String::new();
    for l in lines {
        out.push_str(l);
        out.push('\n');
    }
    out
}

#[test]
fn later_fragment_without_image_keeps_the_earlier_one() {
    let mut stream = ImageStream::new();
    stream.feed("{\"inlineData\":{\"data\":\"AAA\"}}\n{\"text\":\"done\"}\n");
    assert_eq!(image_of(stream.finish()), Some("AAA".to_string()));
}

#[test]
fn lines_may_arrive_in_pieces() {
    let mut stream = ImageStream::new();
    assert!(stream.feed("{\"inlineData\":{\"da").is_empty());
    assert!(matches!(stream.finish(), StreamEnd::Missing));
    assert!(stream.feed("ta\":\"QUJD\"}}").is_empty());
    assert!(matches!(stream.finish(), StreamEnd::Missing));
    assert_eq!(stream.feed("\n"), vec![3]);
    assert_eq!(image_of(stream.finish()), Some("QUJD".to_string()));
}

#[test]
fn unfinished_last_line_is_not_read() {
    let mut stream = ImageStream::new();
    stream.feed("{\"inlineData\":{\"data\":\"QUJD\"}}");
    assert!(matches!(stream.finish(), StreamEnd::Missing));
}

#[test]
fn event_stream_marker_is_stripped() {
    let mut stream = ImageStream::new();
    stream.feed("data: {\"b64_json\":\"from-sse\"}\n");
    assert_eq!(image_of(stream.finish()), Some("from-sse".to_string()));
    let mut other = ImageStream::new();
    other.feed("data:{\"b64_json\":\"no space\"}\n");
    assert!(matches!(other.finish(), StreamEnd::Missing));
}

#[test]
fn malformed_lines_are_skipped_but_counted() {
    let mut stream = ImageStream::new();
    let ticks = stream.feed("not json\n\n   \n{\"b64_json\":\"ok\"}\n{broken\n");
    assert_eq!(ticks, vec![3, 5, 7, 9, 11]);
    assert_eq!(stream.progress(), 11);
    assert_eq!(image_of(stream.finish()), Some("ok".to_string()));
}

#[test]
fn latest_http_uri_is_kept_and_inline_data_is_preferred() {
    let first = r#"{"fileData":{"fileUri":"https://host/first.png"}}"#;
    let second = r#"{"fileData":{"fileUri":"https://host/second.png"}}"#;
    let third = r#"{"text":"no candidate here"}"#;
    let mut stream = ImageStream::new();
    stream.feed(&concat_lines(&[first, second, third]));
    assert_eq!(uri_of(stream.finish()), Some("https://host/second.png".to_string()));
    stream.feed("{\"inlineData\":{\"data\":\"SU5M\"}}\n");
    assert_eq!(image_of(stream.finish()), Some("SU5M".to_string()));
}

#[test]
fn observe_takes_a_parsed_fragment() {
    let mut stream = ImageStream::new();
    let fragment = Json::Record(vec![(
        "inlineData".to_string(),
        Json::Record(vec![("data".to_string(), Json::Text("T0JT".to_string()))]),
    )]);
    stream.observe(&fragment);
    assert_eq!(stream.progress(), OPENING_TICK);
    assert_eq!(image_of(stream.finish()), Some("T0JT".to_string()));
    stream.observe(&Json::Null);
    assert_eq!(image_of(stream.finish()), Some("T0JT".to_string()));
}

#[test]
fn progress_is_capped_below_the_total() {
    let mut stream = ImageStream::new();
    assert_eq!(stream.progress(), 1);
    let mut seen: Vec<u32> = Vec::new();
    for _ in 0..60 {
        seen.extend(stream.feed("{}\n"));
    }
    let expected: Vec<u32> = (1..=49).map(|k| 1 + 2 * k).collect();
    assert_eq!(seen, expected);
    assert_eq!(*seen.last().unwrap(), 99);
    assert_eq!(stream.progress(), 99);
    assert!(stream.feed("{}\n{}\n").is_empty());
    assert!(seen.iter().all(|t| *t < PROGRESS_TOTAL));
    assert!(seen.windows(2).all(|w| w[0] < w[1]));
    assert_eq!((OPENING_TICK, CLOSING_TICK, FINAL_TICK, PROGRESS_TOTAL), (1, 99, 100, 100));
}

#[test]
fn on_line_reports_the_tick_it_moved_to() {
    let mut stream = ImageStream::new();
    assert_eq!(stream.on_line("{\"b64_json\":\"x\"}"), Some(3));
    assert_eq!(stream.on_line("garbage"), Some(5));
    assert_eq!(image_of(stream.finish()), Some("x".to_string()));
}

#[test]
fn parser_reads_nested_lists_and_records() {
    let line = r#"{"a":[1,true,null,{"inlineData":{"data":"from-a"}}],"b":{"inlineData":{"data":"from-b"}}}"#;
    let mut stream = ImageStream::new();
    stream.feed(&format!("{}\n", line));
    assert_eq!(image_of(stream.finish()), Some("from-a".to_string()));
}

#[test]
fn parser_decodes_string_escapes() {
    let mut stream = ImageStream::new();
    stream.feed("{\"note\":\"data:image\\/png;base64,Zm9v\\u0041\"}\n");
    assert_eq!(image_of(stream.finish()), Some("data:image/png;base64,Zm9vA".to_string()));
}

#[test]
fn text_stream_yields_response_fragments_in_order() {
    let mut stream = TextStream::new();
    let first = stream.feed("{\"response\":\"Panel 1\"}\n{\"response\":\"\"}\n{\"done\":false}\n{\"resp");
    assert_eq!(first, vec!["Panel 1".to_string()]);
    let second = stream.feed("onse\":\" continues\"}\nnot json\n{\"response\":7}\n");
    assert_eq!(second, vec![" continues".to_string()]);
    assert_eq!(stream.finish(), None);
}

#[test]
fn text_stream_reads_the_unfinished_last_line_at_the_end() {
    let mut stream = TextStream::new();
    assert!(stream.feed("  {\"response\":\"tail\"} \t").is_empty());
    assert_eq!(stream.finish(), Some("tail".to_string()));
    let mut blank = TextStream::new();
    blank.feed("{\"response\":\"x\"}\n   ");
    assert_eq!(blank.finish(), None);
    let mut broken = TextStream::new();
    broken.feed("{\"response\":");
    assert_eq!(broken.finish(), None);
    let mut padded = TextStream::new();
    padded.feed("\u{a0}{\"response\":\"nbsp\"}\u{2003}");
    assert_eq!(padded.finish(), Some("nbsp".to_string()));
}

#[test]
fn chunk_boundaries_do_not_matter() {
    let body = "data: {\"text\":\"one\"}\n{\"inlineData\":{\"data\":\"QUFB\"}}\n\nnoise\n{\"fileData\":{\"fileUri\":\"https://h/x\"}}\n{\"inlineData\":{\"data\":\"QkJC\"}}\ntail";
    assert_eq!(body.lines().count(), 7);
    let mut whole = ImageStream::new();
    let whole_ticks = whole.feed(body);
    let mut pieces = ImageStream::new();
    let mut piece_ticks: Vec<u32> = Vec::new();
    for c in body.chars() {
        piece_ticks.extend(pieces.feed(&c.to_string()));
    }
    assert_eq!(whole_ticks, piece_ticks);
    assert_eq!(whole_ticks, vec![3, 5, 7, 9, 11, 13]);
    assert_eq!(whole.progress(), pieces.progress());
    assert_eq!(image_of(whole.finish()), Some("QkJC".to_string()));
    assert_eq!(image_of(pieces.finish()), Some("QkJC".to_string()));

    let text_body = "{\"response\":\"a\"}\n{\"response\":\"b\"}\n{\"response\":\"c\"}";
    let mut whole = TextStream::new();
    let mut all = whole.feed(text_body);
    all.extend(whole.finish());
    let mut pieces = TextStream::new();
    let mut got: Vec<String> = Vec::new();
    for part in ["{\"respo", "nse\":\"a\"}\n{\"resp", "onse\":\"b\"}", "\n", "{\"response\":\"c\"}"] {
        got.extend(pieces.feed(part));
    }
    got.extend(pieces.finish());
    assert_eq!(all, got);
    assert_eq!(got, vec!["a".to_string(), "b".to_string(), "c".to_string()]);
}

#[test]
fn run_reports_every_tick_and_the_final_one_on_success_only() {
    let (mut run, first) = ImageRun::open();
    assert_eq!(first, 1);
    let mut seen = vec![first];
    seen.extend(run.feed("{\"text\":\"a\"}\n{\"inlineData\":{\"data\":\"QUJD\"}}\n"));
    seen.extend(run.feed("partial"));
    let (tick, end) = run.close();
    seen.extend(tick);
    assert_eq!(image_of(end), Some("QUJD".to_string()));
    assert_eq!(seen, vec![1, 3, 5, 99]);
    assert_eq!(run.reported(), &seen);
    // A closed run takes in nothing more and closes once.
    assert!(run.feed("{}\n").is_empty());
    assert_eq!(run.close().0, None);
    seen.extend(run.conclude(&Ok("QUJD".to_string())));
    assert_eq!(seen, vec![1, 3, 5, 99, 100]);
    assert_eq!(run.conclude(&Ok("QUJD".to_string())), None);
    assert!(run.feed("{}\n").is_empty());
    assert_eq!(run.reported(), &vec![1, 3, 5, 99, 100]);
    assert!(seen.windows(2).all(|w| w[0] <= w[1]));
    assert!(seen.iter().all(|t| 1 <= *t && *t <= PROGRESS_TOTAL));
}

#[test]
fn run_without_image_never_reports_the_total() {
    let (mut run, _) = ImageRun::open();
    assert_eq!(run.conclude(&Ok("too early".to_string())), None);
    for _ in 0..70 {
        run.feed("{}\n");
    }
    let (tick, end) = run.close();
    assert_eq!(tick, Some(99));
    assert!(matches!(end, StreamEnd::Missing));
    assert_eq!(run.conclude(&Err("gemini stream: no image data received".to_string())), None);
    let sent = run.reported().clone();
    assert_eq!(sent.len(), 51);
    assert_eq!(sent[0], 1);
    assert_eq!(&sent[49..], &[99, 99]);
    assert!(sent.iter().all(|t| *t < 100));
    assert!(sent.windows(2).all(|w| w[0] <= w[1]));
}
