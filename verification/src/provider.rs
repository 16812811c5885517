//! The image providers and the order in which they are tried: what a reply
//! of each means, when the next provider takes over, and what is reported
//! when the last one has failed.

use vstd::prelude::*;
use crate::extract::{find_http, find_http_uri, find_image, find_image_data};
use crate::json::{items_view, Json, JsonModel};
use crate::text::{
    after_last,
    after_last_of,
    ascii_uppercase,
    before_first,
    contains,
    first_index_of,
    join2,
    occurs_in,
    same_text,
    split_once,
    strip_prefix,
    to_ascii_uppercase,
    up_to,
};

verus! {

/// The view of a text result.
pub open spec fn outcome_view(r: Result<String, String>) -> Result<Seq<char>, Seq<char>> {
    match r {
        Ok(text) => Ok(text@),
        Err(error) => Err(error@),
    }
}

/// The view of a check that yields nothing but a possible error.
pub open spec fn check_view(r: Result<(), String>) -> Result<(), Seq<char>> {
    match r {
        Ok(_) => Ok(()),
        Err(error) => Err(error@),
    }
}

/// Whether an HTTP status code reports success.
pub open spec fn is_success(code: u16) -> bool {
    200 <= code < 300
}

/// Host of the model provider; a URI on it is fetched with the API key.
pub const PROVIDER_HOST: &'static str = "generativelanguage.googleapis.com";

/// The authority of a URI: what stands between the `//` that follows the
/// scheme's colon and the next `/`, `?` or `#`. A text whose first colon is
/// not followed by `//` has none.
pub open spec fn uri_authority(uri: Seq<char>) -> Option<Seq<char>> {
    match first_index_of(uri, ':') {
        Some(i) => {
            let rest = uri.skip(i + 1);
            if "//"@.is_prefix_of(rest) {
                Some(up_to(up_to(up_to(rest.skip("//"@.len() as int), '/'), '?'), '#'))
            } else {
                None
            }
        },
        None => None,
    }
}

/// The host of a URI: its authority without user information, which ends
/// at the last `@`, and without the port, which begins at the colon.
pub open spec fn uri_host(uri: Seq<char>) -> Option<Seq<char>> {
    match uri_authority(uri) {
        Some(authority) => Some(up_to(after_last(authority, '@'), ':')),
        None => None,
    }
}

/// Whether a URI lies on the provider's own host. Host names are compared
/// without regard to the case of ASCII letters.
pub open spec fn on_provider_host(uri: Seq<char>) -> bool {
    match uri_host(uri) {
        Some(host) => ascii_uppercase(host) == ascii_uppercase(PROVIDER_HOST@),
        None => false,
    }
}

/// Whether fetching `uri` takes the API key: whether the URI's host is the
/// provider's own. That the host's name occurs elsewhere in the URI, in its
/// path or its query, does not count.
pub fn needs_api_key(uri: &str) -> (r: bool)
    ensures
        r == on_provider_host(uri@),
{
    let rest = match split_once(uri, ':') {
        Some((_, tail)) => match strip_prefix(tail, "//") {
            Some(rest) => rest,
            None => { return false; },
        },
        None => { return false; },
    };
    let authority = before_first(before_first(before_first(rest, '/'), '?'), '#');
    let host = before_first(after_last_of(authority, '@'), ':');
    let found = to_ascii_uppercase(host);
    let own = to_ascii_uppercase(PROVIDER_HOST);
    same_text(found.as_str(), own.as_str())
}

/// The report of an unsuccessful HTTP reply.
pub open spec fn http_failure(
    prefix: Seq<char>,
    status_text: Seq<char>,
    body: Seq<char>,
) -> Seq<char> {
    prefix + status_text + " - "@ + body
}

fn report_http_failure(prefix: &str, status_text: &str, body: &str) -> (r: String)
    ensures
        r@ == http_failure(prefix@, status_text@, body@),
{
    let mut out = join2(prefix, status_text);
    out.append(" - ");
    out.append(body);
    out
}

/// What the status of an image model's reply means.
pub open spec fn image_reply_check(
    code: u16,
    status_text: Seq<char>,
    body: Seq<char>,
    second_request: bool,
) -> Result<(), Seq<char>> {
    if is_success(code) {
        Ok(())
    } else if second_request {
        Err(http_failure("gemini image failed (retry): HTTP "@, status_text, body))
    } else {
        Err(http_failure("gemini image error: HTTP "@, status_text, body))
    }
}

/// Checks the status of an image model's reply. An unsuccessful status is
/// reported with its text and the reply's body.
pub fn check_image_reply(code: u16, status_text: &str, body: &str, second_request: bool) -> (r:
    Result<(), String>)
    ensures
        check_view(r) == image_reply_check(code, status_text@, body@, second_request),
{
    if 200 <= code && code < 300 {
        Ok(())
    } else if second_request {
        Err(report_http_failure("gemini image failed (retry): HTTP ", status_text, body))
    } else {
        Err(report_http_failure("gemini image error: HTTP ", status_text, body))
    }
}

/// What the status of the remote renderer's reply means.
pub open spec fn renderer_reply_check(
    code: u16,
    status_text: Seq<char>,
    body: Seq<char>,
) -> Result<(), Seq<char>> {
    if is_success(code) {
        Ok(())
    } else {
        Err(http_failure("nano-banana error: HTTP "@, status_text, body))
    }
}

/// Checks the status of the remote renderer's reply.
pub fn check_renderer_reply(code: u16, status_text: &str, body: &str) -> (r: Result<(), String>)
    ensures
        check_view(r) == renderer_reply_check(code, status_text@, body@),
{
    if 200 <= code && code < 300 {
        Ok(())
    } else {
        Err(report_http_failure("nano-banana error: HTTP ", status_text, body))
    }
}

/// What is said when the text model's server does not answer as one.
pub const TEXT_SERVER_UNREACHABLE: &'static str =
    "Ollama server not reachable. Is it running on port 11434?";

/// What the status of the text model's reply means: 404 and 502 are what a
/// machine answers on which the server is not running.
pub open spec fn text_reply_check(code: u16, status_text: Seq<char>) -> Result<(), Seq<char>> {
    if code == 404 || code == 502 {
        Err(TEXT_SERVER_UNREACHABLE@)
    } else if is_success(code) {
        Ok(())
    } else {
        Err("ollama error: HTTP "@ + status_text)
    }
}

/// Checks the status of the text model's reply.
pub fn check_text_reply(code: u16, status_text: &str) -> (r: Result<(), String>)
    ensures
        check_view(r) == text_reply_check(code, status_text@),
{
    if code == 404 || code == 502 {
        Err(TEXT_SERVER_UNREACHABLE.to_owned())
    } else if 200 <= code && code < 300 {
        Ok(())
    } else {
        Err(join2("ollama error: HTTP ", status_text))
    }
}

/// The reason the model gives for ending its first candidate.
pub open spec fn finish_reason(value: JsonModel) -> Option<Seq<char>> {
    match value.list_field("candidates"@) {
        Some(candidates) => if candidates.len() > 0 {
            candidates[0].text_field("finishReason"@)
        } else {
            None
        },
        None => None,
    }
}

/// Whether the provider flags the reply as blocked by its safety filters:
/// whether the finish reason of the first candidate mentions `SAFETY`, in
/// any case of the letters.
pub open spec fn safety_blocked(value: JsonModel) -> bool {
    match finish_reason(value) {
        Some(reason) => occurs_in("SAFETY"@, ascii_uppercase(reason)),
        None => false,
    }
}

/// Tells whether the provider flags the reply as blocked by its safety
/// filters.
pub fn is_safety_blocked(value: &Json) -> (r: bool)
    ensures
        r == safety_blocked(value@),
{
    let candidates = match value.get("candidates") {
        Some(c) => match c.as_array() {
            Some(items) => items,
            None => { return false; },
        },
        None => { return false; },
    };
    if candidates.len() == 0 {
        return false;
    }
    assert(items_view(candidates@)[0] == candidates@[0]@);
    match candidates[0].text_field("finishReason") {
        Some(reason) => {
            let upper = to_ascii_uppercase(reason);
            contains(upper.as_str(), "SAFETY")
        },
        None => false,
    }
}

/// What a provider hands over in place of the image: the base64 text of its
/// bytes, or a URI to fetch them from.
#[derive(Debug)]
pub enum ProviderResult {
    Inline { data: String },
    Uri { uri: String },
}

/// A [`ProviderResult`] as plain values.
pub enum ProviderResultModel {
    Inline { data: Seq<char> },
    Uri { uri: Seq<char> },
}

impl View for ProviderResult {
    type V = ProviderResultModel;

    open spec fn view(&self) -> ProviderResultModel {
        match self {
            ProviderResult::Inline { data } => ProviderResultModel::Inline { data: data@ },
            ProviderResult::Uri { uri } => ProviderResultModel::Uri { uri: uri@ },
        }
    }
}

/// The view of an optional provider result.
pub open spec fn found_view(r: Option<ProviderResult>) -> Option<ProviderResultModel> {
    match r {
        Some(found) => Some(found@),
        None => None,
    }
}

/// What a reply holds of the image: inline data where there is any, else a
/// fetchable URI.
pub open spec fn reply_image(value: JsonModel) -> Option<ProviderResultModel> {
    match find_image(value) {
        Some(data) => Some(ProviderResultModel::Inline { data }),
        None => match find_http(value) {
            Some(uri) => Some(ProviderResultModel::Uri { uri }),
            None => None,
        },
    }
}

/// Looks in a reply for the image: inline data first, then a fetchable URI.
pub fn provider_result(value: &Json) -> (r: Option<ProviderResult>)
    ensures
        found_view(r) == reply_image(value@),
{
    match find_image_data(value) {
        Some(data) => Some(ProviderResult::Inline { data }),
        None => match find_http_uri(value) {
            Some(uri) => Some(ProviderResult::Uri { uri }),
            None => None,
        },
    }
}

/// What the first reply to a one-shot image request calls for.
#[derive(Debug)]
pub enum FirstVerdict {
    /// The provider refused on safety grounds: the request has failed for
    /// good.
    Blocked,
    /// The reply holds the image.
    Found { image: ProviderResult },
    /// The reply holds no image: the request is sent once more, with the
    /// stricter instruction.
    Retry,
}

/// A [`FirstVerdict`] as plain values.
pub enum FirstVerdictModel {
    Blocked,
    Found { image: ProviderResultModel },
    Retry,
}

impl View for FirstVerdict {
    type V = FirstVerdictModel;

    open spec fn view(&self) -> FirstVerdictModel {
        match self {
            FirstVerdict::Blocked => FirstVerdictModel::Blocked,
            FirstVerdict::Found { image } => FirstVerdictModel::Found { image: image@ },
            FirstVerdict::Retry => FirstVerdictModel::Retry,
        }
    }
}

/// The verdict on a first reply: a safety block ends the request whatever
/// else the reply holds; otherwise an image is taken, and its absence calls
/// for the second request.
pub open spec fn first_verdict(value: JsonModel) -> FirstVerdictModel {
    if safety_blocked(value) {
        FirstVerdictModel::Blocked
    } else {
        match reply_image(value) {
            Some(image) => FirstVerdictModel::Found { image },
            None => FirstVerdictModel::Retry,
        }
    }
}

/// Judges the first reply to a one-shot image request.
pub fn judge_first_reply(value: &Json) -> (verdict: FirstVerdict)
    ensures
        verdict@ == first_verdict(value@),
{
    if is_safety_blocked(value) {
        FirstVerdict::Blocked
    } else {
        match provider_result(value) {
            Some(image) => FirstVerdict::Found { image },
            None => FirstVerdict::Retry,
        }
    }
}

/// Report of a request that the provider's safety filters blocked.
pub const SAFETY_BLOCK_REPORT: &'static str = "gemini image blocked by safety filters";

/// Report of a second request whose reply holds no image either.
pub const NO_IMAGE_AFTER_RETRY_REPORT: &'static str =
    "gemini image: no inline image data in response (after retry)";

/// Report of a one-shot request without a second try whose reply holds no
/// image.
pub const NO_IMAGE_REPORT: &'static str = "gemini image: no inline image data in response";

/// Report of a stream that closed without an image.
pub const EMPTY_STREAM_REPORT: &'static str = "gemini stream: no image data received";

/// The view of a judged reply.
pub open spec fn judged_view(r: Result<ProviderResult, String>) -> Result<
    ProviderResultModel,
    Seq<char>,
> {
    match r {
        Ok(image) => Ok(image@),
        Err(error) => Err(error@),
    }
}

/// The verdict on a reply after which nothing more is tried: its image, or
/// the report that it holds none.
pub open spec fn last_verdict(value: JsonModel, report: Seq<char>) -> Result<
    ProviderResultModel,
    Seq<char>,
> {
    match reply_image(value) {
        Some(image) => Ok(image),
        None => Err(report),
    }
}

fn judge_last_reply(value: &Json, report: &str) -> (r: Result<ProviderResult, String>)
    ensures
        judged_view(r) == last_verdict(value@, report@),
{
    match provider_result(value) {
        Some(image) => Ok(image),
        None => Err(report.to_owned()),
    }
}

/// Judges the reply to the second, stricter request. It is not examined for
/// a safety block.
pub fn judge_retry_reply(value: &Json) -> (r: Result<ProviderResult, String>)
    ensures
        judged_view(r) == last_verdict(value@, NO_IMAGE_AFTER_RETRY_REPORT@),
{
    judge_last_reply(value, NO_IMAGE_AFTER_RETRY_REPORT)
}

/// Judges the reply to a one-shot request to redraw a photo, which is not
/// sent a second time.
pub fn judge_cartoonify_reply(value: &Json) -> (r: Result<ProviderResult, String>)
    ensures
        judged_view(r) == last_verdict(value@, NO_IMAGE_REPORT@),
{
    judge_last_reply(value, NO_IMAGE_REPORT)
}

/// Report of a renderer reply that holds no image.
pub const RENDERER_NO_IMAGE_REPORT: &'static str = "nano-banana: no image in response";

/// What the remote renderer's reply holds: the text member `image_base64`,
/// or `image` where there is no such text.
pub open spec fn renderer_reply_image(value: JsonModel) -> Result<Seq<char>, Seq<char>> {
    match value.text_field("image_base64"@) {
        Some(image) => Ok(image),
        None => match value.text_field("image"@) {
            Some(image) => Ok(image),
            None => Err(RENDERER_NO_IMAGE_REPORT@),
        },
    }
}

/// Reads the image out of the remote renderer's reply.
pub fn renderer_image(value: &Json) -> (r: Result<String, String>)
    ensures
        outcome_view(r) == renderer_reply_image(value@),
{
    match value.text_field("image_base64") {
        Some(image) => Ok(image.to_owned()),
        None => match value.text_field("image") {
            Some(image) => Ok(image.to_owned()),
            None => Err(RENDERER_NO_IMAGE_REPORT.to_owned()),
        },
    }
}

/// Report of a text reply that holds no text.
pub const NO_TEXT_REPORT: &'static str = "gemini: no text in response";

/// The first non-empty text among the parts at or after `from`.
pub open spec fn part_text_from(parts: Seq<JsonModel>, from: int) -> Option<Seq<char>>
    decreases parts.len() - from,
{
    if from < 0 || from >= parts.len() {
        None
    } else {
        match parts[from].text_field("text"@) {
            Some(text) => if text.len() > 0 {
                Some(text)
            } else {
                part_text_from(parts, from + 1)
            },
            None => part_text_from(parts, from + 1),
        }
    }
}

/// The first non-empty text among the parts of a candidate's content.
pub open spec fn candidate_text(candidate: JsonModel) -> Option<Seq<char>> {
    match candidate.field("content"@) {
        Some(content) => match content.list_field("parts"@) {
            Some(parts) => part_text_from(parts, 0),
            None => None,
        },
        None => None,
    }
}

/// The text of the first candidate at or after `from` that has any.
pub open spec fn candidates_text_from(candidates: Seq<JsonModel>, from: int) -> Option<Seq<char>>
    decreases candidates.len() - from,
{
    if from < 0 || from >= candidates.len() {
        None
    } else {
        match candidate_text(candidates[from]) {
            Some(text) => Some(text),
            None => candidates_text_from(candidates, from + 1),
        }
    }
}

/// The text that the model's reply to a text request holds: the first
/// non-empty text part of the first candidate that has one.
pub open spec fn reply_generated_text(value: JsonModel) -> Result<Seq<char>, Seq<char>> {
    match value.list_field("candidates"@) {
        Some(candidates) => match candidates_text_from(candidates, 0) {
            Some(text) => Ok(text),
            None => Err(NO_TEXT_REPORT@),
        },
        None => Err(NO_TEXT_REPORT@),
    }
}

fn text_of_candidate(candidate: &Json) -> (r: Option<String>)
    ensures
        crate::json::string_view(r) == candidate_text(candidate@),
{
    let parts = match candidate.get("content") {
        Some(content) => match content.get("parts") {
            Some(p) => match p.as_array() {
                Some(parts) => parts,
                None => { return None; },
            },
            None => { return None; },
        },
        None => { return None; },
    };
    let mut i: usize = 0;
    while i < parts.len()
        invariant
            i <= parts.len(),
            candidate_text(candidate@) == part_text_from(items_view(parts@), 0),
            part_text_from(items_view(parts@), 0) == part_text_from(items_view(parts@), i as int),
        decreases parts.len() - i,
    {
        match parts[i].text_field("text") {
            Some(text) => if !text.is_empty() {
                return Some(text.to_owned());
            },
            None => {},
        }
        i += 1;
    }
    None
}

/// Reads the generated text out of the model's reply to a text request.
pub fn generated_model_text(value: &Json) -> (r: Result<String, String>)
    ensures
        outcome_view(r) == reply_generated_text(value@),
{
    let candidates = match value.get("candidates") {
        Some(c) => match c.as_array() {
            Some(items) => items,
            None => { return Err(NO_TEXT_REPORT.to_owned()); },
        },
        None => { return Err(NO_TEXT_REPORT.to_owned()); },
    };
    let mut i: usize = 0;
    while i < candidates.len()
        invariant
            i <= candidates.len(),
            value@.list_field("candidates"@) == Some(items_view(candidates@)),
            candidates_text_from(items_view(candidates@), 0) == candidates_text_from(
                items_view(candidates@),
                i as int,
            ),
        decreases candidates.len() - i,
    {
        match text_of_candidate(&candidates[i]) {
            Some(text) => { return Ok(text); },
            None => {},
        }
        i += 1;
    }
    Err(NO_TEXT_REPORT.to_owned())
}

} // verus!
