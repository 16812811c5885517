//! What is sent to each provider: the address, the parts of the body, and
//! the time allowed.

use vstd::prelude::*;
use crate::json::{string_view, text_view};
use crate::ollama::OllamaGenerateRequest;
use crate::prompt::{
    build_cartoonify_prompt,
    build_prompt_with_avatar_text,
    build_storyboard_with_avatar_text,
    with_description,
    CARTOONIFY_PROMPT,
    IMAGE_CONSISTENCY_HEADING,
    IMAGE_ONLY_INSTRUCTION,
    PANEL_CONSISTENCY_HEADING,
};
use crate::settings::{
    or_text,
    text_or,
    Settings,
    API_KEY_MISSING,
    DEFAULT_TEXT_MODEL,
    DEFAULT_TEXT_SERVER,
    IMAGE_ONCE_URL,
    IMAGE_STREAM_URL,
    RENDERER_NOT_SET,
};
use crate::status::duplicate_text;
use crate::text::without_trailing;

verus! {

/// Seconds allowed for a streamed image reply.
pub const STREAM_TIMEOUT_SECS: u64 = 90;

/// Seconds allowed for any other reply.
pub const REPLY_TIMEOUT_SECS: u64 = 60;

/// Seconds allowed for reaching a provider.
pub const CONNECT_TIMEOUT_SECS: u64 = 10;

/// How the image model is asked.
#[derive(Debug, Clone, Copy, PartialEq, Eq)]
pub enum ImageCall {
    /// Over the streaming endpoint.
    Stream,
    /// Over the one-shot endpoint, for the first time.
    Once,
    /// Over the one-shot endpoint again, with the stricter instruction.
    Retry,
}

/// An image that goes into a request, as base64 text with its media type.
#[derive(Debug)]
pub struct InlineImage {
    pub mime_type: String,
    pub data: String,
}

/// A request to the image model. The body asks for image output only.
#[derive(Debug)]
pub struct ImageRequest {
    pub url: String,
    pub api_key: String,
    /// The text part of the body.
    pub text: String,
    /// The image part of the body, if it has one.
    pub image: Option<InlineImage>,
    /// The system instruction, which only the second request carries.
    pub system_instruction: Option<String>,
    /// Whether the body asks for a temperature of 0.1, as the second
    /// request does.
    pub low_temperature: bool,
    pub timeout_secs: u64,
}

/// An [`ImageRequest`] as plain values.
pub struct ImageRequestModel {
    pub url: Seq<char>,
    pub api_key: Seq<char>,
    pub text: Seq<char>,
    pub image: Option<(Seq<char>, Seq<char>)>,
    pub system_instruction: Option<Seq<char>>,
    pub low_temperature: bool,
    pub timeout_secs: u64,
}

/// The view of an optional image part: its media type and its data.
pub open spec fn image_view(image: Option<InlineImage>) -> Option<(Seq<char>, Seq<char>)> {
    match image {
        Some(i) => Some((i.mime_type@, i.data@)),
        None => None,
    }
}

impl View for ImageRequest {
    type V = ImageRequestModel;

    open spec fn view(&self) -> ImageRequestModel {
        ImageRequestModel {
            url: self.url@,
            api_key: self.api_key@,
            text: self.text@,
            image: image_view(self.image),
            system_instruction: string_view(self.system_instruction),
            low_temperature: self.low_temperature,
            timeout_secs: self.timeout_secs,
        }
    }
}

/// The view of a planned request.
pub open spec fn planned_view(r: Result<ImageRequest, String>) -> Result<
    ImageRequestModel,
    Seq<char>,
> {
    match r {
        Ok(request) => Ok(request@),
        Err(error) => Err(error@),
    }
}

/// The address that a call goes to.
pub open spec fn call_url(call: ImageCall) -> Seq<char> {
    match call {
        ImageCall::Stream => IMAGE_STREAM_URL@,
        _ => IMAGE_ONCE_URL@,
    }
}

/// The time allowed for a call's reply.
pub open spec fn call_timeout(call: ImageCall) -> u64 {
    match call {
        ImageCall::Stream => STREAM_TIMEOUT_SECS,
        _ => REPLY_TIMEOUT_SECS,
    }
}

/// The system instruction of a call.
pub open spec fn call_instruction(call: ImageCall) -> Option<Seq<char>> {
    match call {
        ImageCall::Retry => Some(IMAGE_ONLY_INSTRUCTION@),
        _ => None,
    }
}

/// The request that draws from an instruction. Its text is the instruction
/// with the protagonist's description, if the settings hold one. The stored
/// avatar image goes along on the one-shot endpoint only: the streaming
/// endpoint is left free to draw afresh. Without an API key there is no
/// request.
pub open spec fn generate_request(
    call: ImageCall,
    prompt: Seq<char>,
    settings: Settings,
    key_from_environment: Option<Seq<char>>,
    avatar_image: Option<(Seq<char>, Seq<char>)>,
) -> Result<ImageRequestModel, Seq<char>> {
    match or_text(string_view(settings.gemini_api_key), key_from_environment) {
        Some(api_key) => Ok(
            ImageRequestModel {
                url: call_url(call),
                api_key,
                text: with_description(
                    prompt,
                    IMAGE_CONSISTENCY_HEADING@,
                    string_view(settings.avatar_description),
                ),
                image: if call == ImageCall::Stream {
                    None
                } else {
                    avatar_image
                },
                system_instruction: call_instruction(call),
                low_temperature: call == ImageCall::Retry,
                timeout_secs: call_timeout(call),
            },
        ),
        None => Err(API_KEY_MISSING@),
    }
}

/// The request that redraws a photo as a cartoon portrait. It is not sent a
/// second time, so `call` is the streaming or the first one-shot call.
pub open spec fn cartoonify_request(
    call: ImageCall,
    photo: (Seq<char>, Seq<char>),
    settings: Settings,
    key_from_environment: Option<Seq<char>>,
) -> Result<ImageRequestModel, Seq<char>> {
    match or_text(string_view(settings.gemini_api_key), key_from_environment) {
        Some(api_key) => Ok(
            ImageRequestModel {
                url: call_url(call),
                api_key,
                text: CARTOONIFY_PROMPT@,
                image: Some(photo),
                system_instruction: None,
                low_temperature: false,
                timeout_secs: call_timeout(call),
            },
        ),
        None => Err(API_KEY_MISSING@),
    }
}

fn url_of(call: ImageCall) -> (url: String)
    ensures
        url@ == call_url(call),
{
    match call {
        ImageCall::Stream => IMAGE_STREAM_URL.to_owned(),
        _ => IMAGE_ONCE_URL.to_owned(),
    }
}

fn timeout_of(call: ImageCall) -> (secs: u64)
    ensures
        secs == call_timeout(call),
{
    match call {
        ImageCall::Stream => STREAM_TIMEOUT_SECS,
        _ => REPLY_TIMEOUT_SECS,
    }
}

fn description_of(settings: &Settings) -> (d: Option<&str>)
    ensures
        text_view(d) == string_view(settings.avatar_description),
{
    match &settings.avatar_description {
        Some(d) => Some(d.as_str()),
        None => None,
    }
}

/// Plans the request that draws from an instruction.
pub fn plan_generate_request(
    call: ImageCall,
    prompt: &str,
    settings: &Settings,
    key_from_environment: Option<String>,
    avatar_image: Option<InlineImage>,
) -> (r: Result<ImageRequest, String>)
    ensures
        planned_view(r) == generate_request(
            call,
            prompt@,
            *settings,
            string_view(key_from_environment),
            image_view(avatar_image),
        ),
{
    let api_key = match settings.resolve_api_key(key_from_environment) {
        Ok(key) => key,
        Err(error) => { return Err(error); },
    };
    let (image, system_instruction, low_temperature) = match call {
        ImageCall::Stream => (None, None, false),
        ImageCall::Once => (avatar_image, None, false),
        ImageCall::Retry => (avatar_image, Some(IMAGE_ONLY_INSTRUCTION.to_owned()), true),
    };
    Ok(
        ImageRequest {
            url: url_of(call),
            api_key,
            text: build_prompt_with_avatar_text(prompt, description_of(settings)),
            image,
            system_instruction,
            low_temperature,
            timeout_secs: timeout_of(call),
        },
    )
}

/// Plans the request that redraws a photo as a cartoon portrait.
pub fn plan_cartoonify_request(
    call: ImageCall,
    photo: InlineImage,
    settings: &Settings,
    key_from_environment: Option<String>,
) -> (r: Result<ImageRequest, String>)
    ensures
        planned_view(r) == cartoonify_request(
            call,
            (photo.mime_type@, photo.data@),
            *settings,
            string_view(key_from_environment),
        ),
{
    let api_key = match settings.resolve_api_key(key_from_environment) {
        Ok(key) => key,
        Err(error) => { return Err(error); },
    };
    Ok(
        ImageRequest {
            url: url_of(call),
            api_key,
            text: build_cartoonify_prompt(),
            image: Some(photo),
            system_instruction: None,
            low_temperature: false,
            timeout_secs: timeout_of(call),
        },
    )
}

/// A request to the remote renderer.
#[derive(Debug)]
pub struct RendererRequest {
    pub url: String,
    /// The key sent along, if the settings hold one.
    pub api_key: Option<String>,
    /// The storyboard that the body carries.
    pub storyboard: String,
    pub timeout_secs: u64,
}

/// A [`RendererRequest`] as plain values.
pub struct RendererRequestModel {
    pub url: Seq<char>,
    pub api_key: Option<Seq<char>>,
    pub storyboard: Seq<char>,
    pub timeout_secs: u64,
}

impl View for RendererRequest {
    type V = RendererRequestModel;

    open spec fn view(&self) -> RendererRequestModel {
        RendererRequestModel {
            url: self.url@,
            api_key: string_view(self.api_key),
            storyboard: self.storyboard@,
            timeout_secs: self.timeout_secs,
        }
    }
}

/// The view of a planned renderer request.
pub open spec fn renderer_planned_view(r: Result<RendererRequest, String>) -> Result<
    RendererRequestModel,
    Seq<char>,
> {
    match r {
        Ok(request) => Ok(request@),
        Err(error) => Err(error@),
    }
}

/// The request that hands a storyboard to the remote renderer: to its base
/// address without slashes at the end and `/generate`, with the storyboard
/// followed by the protagonist's description, if the settings hold one.
/// Without a base address there is no request.
pub open spec fn renderer_request(storyboard: Seq<char>, settings: Settings) -> Result<
    RendererRequestModel,
    Seq<char>,
> {
    match string_view(settings.nano_banana_base_url) {
        Some(base) => Ok(
            RendererRequestModel {
                url: without_trailing(base, '/') + "/generate"@,
                api_key: string_view(settings.nano_banana_api_key),
                storyboard: with_description(
                    storyboard,
                    PANEL_CONSISTENCY_HEADING@,
                    string_view(settings.avatar_description),
                ),
                timeout_secs: REPLY_TIMEOUT_SECS,
            },
        ),
        None => Err(RENDERER_NOT_SET@),
    }
}

/// Plans the request that hands a storyboard to the remote renderer.
pub fn plan_renderer_request(storyboard: &str, settings: &Settings) -> (r: Result<
    RendererRequest,
    String,
>)
    ensures
        renderer_planned_view(r) == renderer_request(storyboard@, *settings),
{
    let url = match settings.renderer_url() {
        Ok(url) => url,
        Err(error) => { return Err(error); },
    };
    Ok(
        RendererRequest {
            url,
            api_key: duplicate_text(&settings.nano_banana_api_key),
            storyboard: build_storyboard_with_avatar_text(storyboard, description_of(settings)),
            timeout_secs: REPLY_TIMEOUT_SECS,
        },
    )
}

/// Plans a request to the text model: where it goes and what it carries.
/// The model is the requested one, else the one in the settings, else the
/// default.
pub fn plan_text_request(
    model: Option<String>,
    prompt: String,
    stream: bool,
    settings: &Settings,
) -> (r: (String, OllamaGenerateRequest))
    ensures
        r.0@ == text_or(string_view(settings.ollama_base_url), DEFAULT_TEXT_SERVER@)
            + "/api/generate"@,
        r.1.model@ == text_or(
            or_text(string_view(model), string_view(settings.default_ollama_model)),
            DEFAULT_TEXT_MODEL@,
        ),
        r.1.prompt == prompt,
        r.1.stream == stream,
{
    let url = settings.text_generate_url();
    let model = settings.text_model(model);
    (url, OllamaGenerateRequest { model, prompt, stream })
}

} // verus!
