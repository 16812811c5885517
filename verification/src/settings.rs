//! What the user has set up: the providers' addresses and keys, and how the
//! protagonist looks.

use vstd::prelude::*;
use crate::json::{string_view, text_view};
use crate::text::{ascii_uppercase, join2, to_ascii_uppercase, trim_end_matches, without_trailing, same_text};

verus! {

/// The provider settings that the pipeline reads.
#[derive(Debug, Clone, Default)]
pub struct Settings {
    pub gemini_api_key: Option<String>,
    pub ollama_base_url: Option<String>,
    pub default_ollama_model: Option<String>,
    pub nano_banana_base_url: Option<String>,
    pub nano_banana_api_key: Option<String>,
    pub avatar_description: Option<String>,
    pub avatar_image_path: Option<String>,
}

/// Where the text model's server listens unless the settings say otherwise.
pub const DEFAULT_TEXT_SERVER: &'static str = "http://127.0.0.1:11434";

/// The text model used unless the request or the settings name one.
pub const DEFAULT_TEXT_MODEL: &'static str = "gemma3:1b";

/// Report of a request to the image model without an API key.
pub const API_KEY_MISSING: &'static str = "Gemini API key not set";

/// Report of a request to the remote renderer without its address.
pub const RENDERER_NOT_SET: &'static str = "nano-banana base URL not set in settings";

/// The image model that draws.
pub const IMAGE_MODEL: &'static str = "gemini-2.5-flash-image-preview";

/// Address of the model's endpoint for text.
pub const TEXT_ONCE_URL: &'static str =
    "https://generativelanguage.googleapis.com/v1beta/models/gemini-2.0-flash:generateContent";

/// Address of the image model's streaming endpoint.
pub const IMAGE_STREAM_URL: &'static str =
    "https://generativelanguage.googleapis.com/v1beta/models/gemini-2.5-flash-image-preview:streamGenerateContent";

/// Address of the image model's one-shot endpoint.
pub const IMAGE_ONCE_URL: &'static str =
    "https://generativelanguage.googleapis.com/v1beta/models/gemini-2.5-flash-image-preview:generateContent";

/// `a` where it is something, otherwise `b`.
pub open spec fn or_text(a: Option<Seq<char>>, b: Option<Seq<char>>) -> Option<Seq<char>> {
    if a is Some {
        a
    } else {
        b
    }
}

/// `a` where it is something, otherwise `fallback`.
pub open spec fn text_or(a: Option<Seq<char>>, fallback: Seq<char>) -> Seq<char> {
    match a {
        Some(text) => text,
        None => fallback,
    }
}

/// The view of a key lookup.
pub open spec fn key_view(r: Result<String, String>) -> Result<Seq<char>, Seq<char>> {
    match r {
        Ok(key) => Ok(key@),
        Err(error) => Err(error@),
    }
}

/// The media type of an avatar image file by its extension, compared
/// without regard to the case of ASCII letters; a file without an
/// extension, or with any other, is taken for a PNG.
pub open spec fn avatar_mime(extension: Option<Seq<char>>) -> Seq<char> {
    match extension {
        Some(e) => if ascii_uppercase(e) == "JPG"@ || ascii_uppercase(e) == "JPEG"@ {
            "image/jpeg"@
        } else if ascii_uppercase(e) == "WEBP"@ {
            "image/webp"@
        } else {
            "image/png"@
        },
        None => "image/png"@,
    }
}

/// Names the media type of an avatar image file by its extension.
pub fn avatar_mime_type(extension: Option<&str>) -> (mime: &'static str)
    ensures
        mime@ == avatar_mime(text_view(extension)),
{
    match extension {
        Some(e) => {
            let upper = to_ascii_uppercase(e);
            if same_text(upper.as_str(), "JPG") || same_text(upper.as_str(), "JPEG") {
                "image/jpeg"
            } else if same_text(upper.as_str(), "WEBP") {
                "image/webp"
            } else {
                "image/png"
            }
        },
        None => "image/png",
    }
}

impl Settings {
    /// The API key for the image model: the one in the settings, else the
    /// one from the environment, else a failure.
    pub fn resolve_api_key(&self, from_environment: Option<String>) -> (r: Result<
        String,
        String,
    >)
        ensures
            key_view(r) == match or_text(
                string_view(self.gemini_api_key),
                string_view(from_environment),
            ) {
                Some(key) => Ok::<Seq<char>, Seq<char>>(key),
                None => Err(API_KEY_MISSING@),
            },
    {
        match &self.gemini_api_key {
            Some(key) => Ok(key.clone()),
            None => match from_environment {
                Some(key) => Ok(key),
                None => Err(API_KEY_MISSING.to_owned()),
            },
        }
    }

    /// The address of the text model's server.
    pub fn text_server(&self) -> (base: String)
        ensures
            base@ == text_or(string_view(self.ollama_base_url), DEFAULT_TEXT_SERVER@),
    {
        match &self.ollama_base_url {
            Some(base) => base.clone(),
            None => DEFAULT_TEXT_SERVER.to_owned(),
        }
    }

    /// The address under which the text model's server lists its models.
    pub fn text_models_url(&self) -> (url: String)
        ensures
            url@ == text_or(string_view(self.ollama_base_url), DEFAULT_TEXT_SERVER@)
                + "/api/tags"@,
    {
        let mut url = self.text_server();
        url.append("/api/tags");
        url
    }

    /// The address under which the text model generates.
    pub fn text_generate_url(&self) -> (url: String)
        ensures
            url@ == text_or(string_view(self.ollama_base_url), DEFAULT_TEXT_SERVER@)
                + "/api/generate"@,
    {
        let mut url = self.text_server();
        url.append("/api/generate");
        url
    }

    /// The text model to use: the requested one, else the one in the
    /// settings, else the default.
    pub fn text_model(&self, requested: Option<String>) -> (model: String)
        ensures
            model@ == text_or(
                or_text(string_view(requested), string_view(self.default_ollama_model)),
                DEFAULT_TEXT_MODEL@,
            ),
    {
        match requested {
            Some(model) => model,
            None => match &self.default_ollama_model {
                Some(model) => model.clone(),
                None => DEFAULT_TEXT_MODEL.to_owned(),
            },
        }
    }

    /// Whether a remote renderer is set up.
    pub fn remote_configured(&self) -> (r: bool)
        ensures
            r == self.nano_banana_base_url is Some,
    {
        self.nano_banana_base_url.is_some()
    }

    /// The address under which the remote renderer draws: its base address
    /// without slashes at the end, and `/generate`.
    pub fn renderer_url(&self) -> (r: Result<String, String>)
        ensures
            key_view(r) == match string_view(self.nano_banana_base_url) {
                Some(base) => Ok::<Seq<char>, Seq<char>>(
                    without_trailing(base, '/') + "/generate"@,
                ),
                None => Err(RENDERER_NOT_SET@),
            },
    {
        match &self.nano_banana_base_url {
            Some(base) => Ok(join2(trim_end_matches(base.as_str(), '/'), "/generate")),
            None => Err(RENDERER_NOT_SET.to_owned()),
        }
    }
}

} // verus!
