//! Whole replies, from status line to body: what each calls for next.

use vstd::prelude::*;
use crate::json::{json_of_text, parse_text, Json, JsonModel};
use crate::ollama::{generated_text, reply_text};
use crate::provider::{
    check_image_reply,
    check_renderer_reply,
    check_text_reply,
    first_verdict,
    generated_model_text,
    image_reply_check,
    is_success,
    judge_cartoonify_reply,
    judge_first_reply,
    judge_retry_reply,
    last_verdict,
    needs_api_key,
    on_provider_host,
    outcome_view,
    renderer_image,
    renderer_reply_check,
    renderer_reply_image,
    reply_generated_text,
    text_reply_check,
    FirstVerdict,
    FirstVerdictModel,
    ProviderResult,
    ProviderResultModel,
    EMPTY_STREAM_REPORT,
    NO_IMAGE_AFTER_RETRY_REPORT,
    NO_IMAGE_REPORT,
    SAFETY_BLOCK_REPORT,
};
use crate::stream::{StreamEnd, StreamEndModel};
use crate::text::join2;

verus! {

/// A one-shot request to the image model.
#[derive(Debug, Clone, Copy, PartialEq, Eq)]
pub enum OnceCall {
    /// The first request for an image from an instruction.
    GenerateFirst,
    /// The second, stricter request for an image from an instruction.
    GenerateRetry,
    /// The request to redraw a photo.
    Cartoonify,
}

/// What a reply calls for.
#[derive(Debug)]
pub enum ReplyVerdict {
    /// The image is in hand, as base64 text.
    Image { data: String },
    /// The image has to be fetched, with or without the API key.
    Fetch { uri: String, with_key: bool },
    /// The request has to be sent again, with the stricter instruction.
    SendAgain,
    /// The attempt has failed.
    Failed { error: String },
}

/// A [`ReplyVerdict`] as plain values.
pub enum ReplyVerdictModel {
    Image { data: Seq<char> },
    Fetch { uri: Seq<char>, with_key: bool },
    SendAgain,
    Failed { error: Seq<char> },
}

impl View for ReplyVerdict {
    type V = ReplyVerdictModel;

    open spec fn view(&self) -> ReplyVerdictModel {
        match self {
            ReplyVerdict::Image { data } => ReplyVerdictModel::Image { data: data@ },
            ReplyVerdict::Fetch { uri, with_key } => ReplyVerdictModel::Fetch {
                uri: uri@,
                with_key: *with_key,
            },
            ReplyVerdict::SendAgain => ReplyVerdictModel::SendAgain,
            ReplyVerdict::Failed { error } => ReplyVerdictModel::Failed { error: error@ },
        }
    }
}

/// What is said of a body that is not JSON.
pub const DECODE_FAILURE: &'static str = "error decoding response body";

/// What a found image calls for: inline data is the image; a URI is
/// fetched, with the API key if `keyed` and the URI lies on the provider's
/// own host.
pub open spec fn found_verdict(image: ProviderResultModel, keyed: bool) -> ReplyVerdictModel {
    match image {
        ProviderResultModel::Inline { data } => ReplyVerdictModel::Image { data },
        ProviderResultModel::Uri { uri } => ReplyVerdictModel::Fetch {
            uri,
            with_key: keyed && on_provider_host(uri),
        },
    }
}

fn verdict_of_found(image: ProviderResult, keyed: bool) -> (verdict: ReplyVerdict)
    ensures
        verdict@ == found_verdict(image@, keyed),
{
    match image {
        ProviderResult::Inline { data } => ReplyVerdict::Image { data },
        ProviderResult::Uri { uri } => {
            let with_key = keyed && needs_api_key(uri.as_str());
            ReplyVerdict::Fetch { uri, with_key }
        },
    }
}

/// What a judged last reply calls for.
pub open spec fn judged_verdict(
    judged: Result<ProviderResultModel, Seq<char>>,
    keyed: bool,
) -> ReplyVerdictModel {
    match judged {
        Ok(image) => found_verdict(image, keyed),
        Err(error) => ReplyVerdictModel::Failed { error },
    }
}

/// What the parsed body of a one-shot reply calls for. The first reply to
/// an instruction is examined for a safety block, and without an image it
/// calls for the second request; the second reply, and the reply to a
/// photo, fail without an image. A URI found in the reply to a photo is
/// fetched without the API key.
pub open spec fn once_value_verdict(call: OnceCall, value: JsonModel) -> ReplyVerdictModel {
    match call {
        OnceCall::GenerateFirst => match first_verdict(value) {
            FirstVerdictModel::Blocked => ReplyVerdictModel::Failed {
                error: SAFETY_BLOCK_REPORT@,
            },
            FirstVerdictModel::Found { image } => found_verdict(image, true),
            FirstVerdictModel::Retry => ReplyVerdictModel::SendAgain,
        },
        OnceCall::GenerateRetry => judged_verdict(
            last_verdict(value, NO_IMAGE_AFTER_RETRY_REPORT@),
            true,
        ),
        OnceCall::Cartoonify => judged_verdict(last_verdict(value, NO_IMAGE_REPORT@), false),
    }
}

/// Judges the parsed body of a one-shot reply.
pub fn judge_once_value(call: OnceCall, value: &Json) -> (verdict: ReplyVerdict)
    ensures
        verdict@ == once_value_verdict(call, value@),
{
    match call {
        OnceCall::GenerateFirst => match judge_first_reply(value) {
            FirstVerdict::Blocked => ReplyVerdict::Failed { error: SAFETY_BLOCK_REPORT.to_owned() },
            FirstVerdict::Found { image } => verdict_of_found(image, true),
            FirstVerdict::Retry => ReplyVerdict::SendAgain,
        },
        OnceCall::GenerateRetry => match judge_retry_reply(value) {
            Ok(image) => verdict_of_found(image, true),
            Err(error) => ReplyVerdict::Failed { error },
        },
        OnceCall::Cartoonify => match judge_cartoonify_reply(value) {
            Ok(image) => verdict_of_found(image, false),
            Err(error) => ReplyVerdict::Failed { error },
        },
    }
}

/// The report of a one-shot reply whose body is not JSON.
pub open spec fn parse_report(call: OnceCall) -> Seq<char> {
    match call {
        OnceCall::GenerateFirst => "gemini image parse error"@,
        OnceCall::GenerateRetry => "gemini image retry parse error"@,
        OnceCall::Cartoonify => "gemini cartoonify parse error"@,
    }
}

/// The report of a one-shot request that got no reply.
pub open spec fn transport_report(call: OnceCall) -> Seq<char> {
    match call {
        OnceCall::GenerateFirst => "gemini image request failed"@,
        OnceCall::GenerateRetry => "gemini image retry request failed"@,
        OnceCall::Cartoonify => "gemini cartoonify image request failed"@,
    }
}

/// Names the failure of a one-shot request that got no reply.
pub fn report_transport_failure(call: OnceCall) -> (report: &'static str)
    ensures
        report@ == transport_report(call),
{
    match call {
        OnceCall::GenerateFirst => "gemini image request failed",
        OnceCall::GenerateRetry => "gemini image retry request failed",
        OnceCall::Cartoonify => "gemini cartoonify image request failed",
    }
}

/// What a one-shot reply calls for: an unsuccessful status fails the
/// attempt with the status and the body, a body that is not JSON fails it
/// with the parse report, and any other body is judged by what it holds.
pub open spec fn once_reply_verdict(
    call: OnceCall,
    code: u16,
    status_text: Seq<char>,
    body: Seq<char>,
) -> ReplyVerdictModel {
    match image_reply_check(code, status_text, body, call == OnceCall::GenerateRetry) {
        Err(error) => ReplyVerdictModel::Failed { error },
        Ok(_) => match json_of_text(body) {
            Some(value) => once_value_verdict(call, value),
            None => ReplyVerdictModel::Failed { error: parse_report(call) },
        },
    }
}

/// Judges a one-shot reply by its status and its body.
pub fn judge_once_reply(call: OnceCall, code: u16, status_text: &str, body: &str) -> (verdict:
    ReplyVerdict)
    ensures
        verdict@ == once_reply_verdict(call, code, status_text@, body@),
{
    let second = match call {
        OnceCall::GenerateRetry => true,
        _ => false,
    };
    match check_image_reply(code, status_text, body, second) {
        Err(error) => { return ReplyVerdict::Failed { error }; },
        Ok(_) => {},
    }
    match parse_text(body) {
        Some(value) => judge_once_value(call, &value),
        None => {
            let report = match call {
                OnceCall::GenerateFirst => "gemini image parse error",
                OnceCall::GenerateRetry => "gemini image retry parse error",
                OnceCall::Cartoonify => "gemini cartoonify parse error",
            };
            ReplyVerdict::Failed { error: report.to_owned() }
        },
    }
}

/// What the end of an image stream calls for: the captured image, the
/// fetch of the captured URI, or the failure of a stream without either.
pub open spec fn stream_end_verdict(end: StreamEndModel) -> ReplyVerdictModel {
    match end {
        StreamEndModel::Image { data } => ReplyVerdictModel::Image { data },
        StreamEndModel::Fetch { uri } => ReplyVerdictModel::Fetch {
            uri,
            with_key: on_provider_host(uri),
        },
        StreamEndModel::Missing => ReplyVerdictModel::Failed { error: EMPTY_STREAM_REPORT@ },
    }
}

/// Judges the end of an image stream.
pub fn judge_stream_end(end: StreamEnd) -> (verdict: ReplyVerdict)
    ensures
        verdict@ == stream_end_verdict(end@),
{
    match end {
        StreamEnd::Image { data } => ReplyVerdict::Image { data },
        StreamEnd::Fetch { uri } => {
            let with_key = needs_api_key(uri.as_str());
            ReplyVerdict::Fetch { uri, with_key }
        },
        StreamEnd::Missing => ReplyVerdict::Failed { error: EMPTY_STREAM_REPORT.to_owned() },
    }
}

/// Where an attempt was when the fetch of the image failed.
#[derive(Debug, Clone, Copy, PartialEq, Eq)]
pub enum FetchSite {
    /// At the end of a stream that draws from an instruction.
    Stream,
    /// At the end of a stream that redraws a photo.
    CartoonifyStream,
    /// After a one-shot reply.
    Once { call: OnceCall },
}

/// How the report of a failed fetch begins.
pub open spec fn fetch_site_text(site: FetchSite) -> Seq<char> {
    match site {
        FetchSite::Stream => "gemini stream"@,
        FetchSite::CartoonifyStream => "gemini cartoonify stream"@,
        FetchSite::Once { call } => match call {
            OnceCall::GenerateFirst => "gemini once"@,
            OnceCall::GenerateRetry => "gemini once retry"@,
            OnceCall::Cartoonify => "gemini once cartoonify"@,
        },
    }
}

/// The report of a fetch that failed, either before an answer came or
/// while its body was read.
pub open spec fn fetch_report(site: FetchSite, reading: bool, error: Seq<char>) -> Seq<char> {
    fetch_site_text(site) + (if reading {
        ": read uri bytes failed: "@
    } else {
        ": fetch uri failed: "@
    }) + error
}

/// Reports a fetch that failed.
pub fn report_fetch_failure(site: FetchSite, reading: bool, error: &str) -> (report: String)
    ensures
        report@ == fetch_report(site, reading, error@),
{
    let head = match site {
        FetchSite::Stream => "gemini stream",
        FetchSite::CartoonifyStream => "gemini cartoonify stream",
        FetchSite::Once { call } => match call {
            OnceCall::GenerateFirst => "gemini once",
            OnceCall::GenerateRetry => "gemini once retry",
            OnceCall::Cartoonify => "gemini once cartoonify",
        },
    };
    let mut report = join2(
        head,
        if reading {
            ": read uri bytes failed: "
        } else {
            ": fetch uri failed: "
        },
    );
    report.append(error);
    report
}

/// Reports a stream that broke off.
pub fn report_stream_failure(error: &str) -> (report: String)
    ensures
        report@ == "gemini stream error: "@ + error@,
{
    join2("gemini stream error: ", error)
}

/// What the remote renderer's reply yields: its image, or the report of an
/// unsuccessful status, of a body that is not JSON, or of a body without an
/// image.
pub open spec fn renderer_verdict(code: u16, status_text: Seq<char>, body: Seq<char>) -> Result<
    Seq<char>,
    Seq<char>,
> {
    match renderer_reply_check(code, status_text, body) {
        Err(error) => Err(error),
        Ok(_) => match json_of_text(body) {
            Some(value) => renderer_reply_image(value),
            None => Err("nano-banana parse error: "@ + DECODE_FAILURE@),
        },
    }
}

/// Judges the remote renderer's reply by its status and its body.
pub fn judge_renderer_reply(code: u16, status_text: &str, body: &str) -> (r: Result<
    String,
    String,
>)
    ensures
        outcome_view(r) == renderer_verdict(code, status_text@, body@),
{
    match check_renderer_reply(code, status_text, body) {
        Err(error) => { return Err(error); },
        Ok(_) => {},
    }
    match parse_text(body) {
        Some(value) => renderer_image(&value),
        None => Err(join2("nano-banana parse error: ", DECODE_FAILURE)),
    }
}

/// What the text model's reply to a request that does not stream yields:
/// the generated text, or the report of a server that is not there, of an
/// unsuccessful status, of a body that is not JSON, or of a body without
/// text.
pub open spec fn text_verdict(code: u16, status_text: Seq<char>, body: Seq<char>) -> Result<
    Seq<char>,
    Seq<char>,
> {
    match text_reply_check(code, status_text) {
        Err(error) => Err(error),
        Ok(_) => match json_of_text(body) {
            Some(value) => reply_text(value),
            None => Err("response parse error: "@ + DECODE_FAILURE@),
        },
    }
}

/// Judges the text model's reply to a request that does not stream.
pub fn judge_text_reply(code: u16, status_text: &str, body: &str) -> (r: Result<String, String>)
    ensures
        outcome_view(r) == text_verdict(code, status_text@, body@),
{
    match check_text_reply(code, status_text) {
        Err(error) => { return Err(error); },
        Ok(_) => {},
    }
    match parse_text(body) {
        Some(value) => generated_text(&value),
        None => Err(join2("response parse error: ", DECODE_FAILURE)),
    }
}

/// What the model's reply to a text request yields: the generated text, or
/// the report of an unsuccessful status, of a body that is not JSON, or of
/// a body without text.
pub open spec fn model_text_verdict(code: u16, status_text: Seq<char>, body: Seq<char>) -> Result<
    Seq<char>,
    Seq<char>,
> {
    if !is_success(code) {
        Err("gemini error: HTTP "@ + status_text)
    } else {
        match json_of_text(body) {
            Some(value) => reply_generated_text(value),
            None => Err("gemini parse error"@),
        }
    }
}

/// Judges the model's reply to a text request by its status and its body.
pub fn judge_model_text_reply(code: u16, status_text: &str, body: &str) -> (r: Result<
    String,
    String,
>)
    ensures
        outcome_view(r) == model_text_verdict(code, status_text@, body@),
{
    if !(200 <= code && code < 300) {
        return Err(join2("gemini error: HTTP ", status_text));
    }
    match parse_text(body) {
        Some(value) => generated_model_text(&value),
        None => Err("gemini parse error".to_owned()),
    }
}

} // verus!
