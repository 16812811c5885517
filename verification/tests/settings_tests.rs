use toonana::request::{
    plan_cartoonify_request, plan_generate_request, plan_renderer_request, plan_text_request,
    ImageCall, InlineImage,
};
use toonana::settings::{avatar_mime_type, Settings};

fn settings() -> Settings {
    Settings {
        gemini_api_key: Some("k-settings".to_string()),
        ollama_base_url: None,
        default_ollama_model: None,
        nano_banana_base_url: Some("http://renderer.local:9000///".to_string()),
        nano_banana_api_key: Some("nb-key".to_string()),
        avatar_description: Some("short hair, glasses".to_string()),
        avatar_image_path: None,
    }
}

fn avatar() -> Option<InlineImage> {
    Some(InlineImage { mime_type: "image/png".to_string(), data: "QVZBVEFS".to_string() })
}

#[test]
fn api_key_comes_from_settings_then_environment() {
    let s = settings();
    assert_eq!(s.resolve_api_key(Some("k-env".to_string())), Ok("k-settings".to_string()));
    assert_eq!(s.resolve_api_key(None), Ok("k-settings".to_string()));
    let none = Settings::default();
    assert_eq!(none.resolve_api_key(Some("k-env".to_string())), Ok("k-env".to_string()));
    assert_eq!(none.resolve_api_key(None), Err("Gemini API key not set".to_string()));
}

#[test]
fn text_server_defaults_to_localhost() {
    let none = Settings::default();
    assert_eq!(none.text_server(), "http://127.0.0.1:11434");
    assert_eq!(none.text_models_url(), "http://127.0.0.1:11434/api/tags");
    assert_eq!(none.text_generate_url(), "http://127.0.0.1:11434/api/generate");
    let mut s = settings();
    s.ollama_base_url = Some("http://gpu-box:11434".to_string());
    assert_eq!(s.text_models_url(), "http://gpu-box:11434/api/tags");
    assert_eq!(s.text_generate_url(), "http://gpu-box:11434/api/generate");
}

#[test]
fn text_model_is_requested_then_configured_then_default() {
    let mut s = Settings::default();
    assert_eq!(s.text_model(None), "gemma3:1b");
    s.default_ollama_model = Some("llama3".to_string());
    assert_eq!(s.text_model(None), "llama3");
    assert_eq!(s.text_model(Some("mistral".to_string())), "mistral");
}

#[test]
fn renderer_url_drops_trailing_slashes() {
    assert!(settings().remote_configured());
    assert_eq!(settings().renderer_url(), Ok("http://renderer.local:9000/generate".to_string()));
    let mut s = settings();
    s.nano_banana_base_url = Some("http://r".to_string());
    assert_eq!(s.renderer_url(), Ok("http://r/generate".to_string()));
    s.nano_banana_base_url = Some("/".to_string());
    assert_eq!(s.renderer_url(), Ok("/generate".to_string()));
    s.nano_banana_base_url = None;
    assert!(!s.remote_configured());
    assert_eq!(s.renderer_url(), Err("nano-banana base URL not set in settings".to_string()));
}

#[test]
fn avatar_media_type_follows_the_extension() {
    assert_eq!(avatar_mime_type(Some("jpg")), "image/jpeg");
    assert_eq!(avatar_mime_type(Some("JPEG")), "image/jpeg");
    assert_eq!(avatar_mime_type(Some("JpG")), "image/jpeg");
    assert_eq!(avatar_mime_type(Some("webp")), "image/webp");
    assert_eq!(avatar_mime_type(Some("WebP")), "image/webp");
    assert_eq!(avatar_mime_type(Some("png")), "image/png");
    assert_eq!(avatar_mime_type(Some("gif")), "image/png");
    assert_eq!(avatar_mime_type(Some("")), "image/png");
    assert_eq!(avatar_mime_type(None), "image/png");
}

#[test]
fn streaming_request_carries_text_only() {
    let r = plan_generate_request(ImageCall::Stream, "Draw.", &settings(), None, avatar()).unwrap();
    assert_eq!(
        r.url,
        "https://generativelanguage.googleapis.com/v1beta/models/gemini-2.5-flash-image-preview:streamGenerateContent"
    );
    assert_eq!(r.api_key, "k-settings");
    assert_eq!(
        r.text,
        "Draw.\n\nCharacter consistency: The protagonist must match this description consistently across images.\nshort hair, glasses"
    );
    assert!(r.image.is_none());
    assert_eq!(r.system_instruction, None);
    assert!(!r.low_temperature);
    assert_eq!(r.timeout_secs, 90);
}

#[test]
fn one_shot_request_carries_the_avatar_image() {
    let r = plan_generate_request(ImageCall::Once, "Draw.", &settings(), None, avatar()).unwrap();
    assert_eq!(
        r.url,
        "https://generativelanguage.googleapis.com/v1beta/models/gemini-2.5-flash-image-preview:generateContent"
    );
    let image = r.image.unwrap();
    assert_eq!((image.mime_type.as_str(), image.data.as_str()), ("image/png", "QVZBVEFS"));
    assert_eq!(r.system_instruction, None);
    assert!(!r.low_temperature);
    assert_eq!(r.timeout_secs, 60);
    let bare = plan_generate_request(ImageCall::Once, "Draw.", &settings(), None, None).unwrap();
    assert!(bare.image.is_none());
}

#[test]
fn second_request_is_stricter() {
    let r = plan_generate_request(ImageCall::Retry, "Draw.", &settings(), None, avatar()).unwrap();
    assert!(r.url.ends_with(":generateContent"));
    assert!(r.image.is_some());
    assert_eq!(
        r.system_instruction.as_deref(),
        Some("Return exactly one IMAGE. Do not include any text parts. If unsafe, return an IMAGE-only safe illustration.")
    );
    assert!(r.low_temperature);
    assert_eq!(r.timeout_secs, 60);
}

#[test]
fn request_without_api_key_is_refused() {
    let none = Settings::default();
    assert_eq!(
        plan_generate_request(ImageCall::Stream, "Draw.", &none, None, None).unwrap_err(),
        "Gemini API key not set"
    );
    let r = plan_generate_request(ImageCall::Stream, "Draw.", &none, Some("env".to_string()), None).unwrap();
    assert_eq!(r.api_key, "env");
    assert_eq!(r.text, "Draw.");
    let photo = InlineImage { mime_type: "image/jpeg".to_string(), data: "UEhPVE8=".to_string() };
    assert_eq!(
        plan_cartoonify_request(ImageCall::Once, photo, &none, None).unwrap_err(),
        "Gemini API key not set"
    );
}

#[test]
fn cartoonify_request_carries_the_photo() {
    let photo = InlineImage { mime_type: "image/jpeg".to_string(), data: "UEhPVE8=".to_string() };
    let r = plan_cartoonify_request(ImageCall::Stream, photo, &settings(), None).unwrap();
    assert!(r.url.ends_with(":streamGenerateContent"));
    assert!(r.text.starts_with("Task: Transform the provided person photo"));
    assert!(!r.text.contains("Character consistency"));
    let image = r.image.unwrap();
    assert_eq!((image.mime_type.as_str(), image.data.as_str()), ("image/jpeg", "UEhPVE8="));
    assert_eq!(r.timeout_secs, 90);
    assert_eq!(r.system_instruction, None);
    assert!(!r.low_temperature);
}

#[test]
fn renderer_request_carries_storyboard_and_key() {
    let r = plan_renderer_request("Panel 1", &settings()).unwrap();
    assert_eq!(r.url, "http://renderer.local:9000/generate");
    assert_eq!(r.api_key.as_deref(), Some("nb-key"));
    assert_eq!(
        r.storyboard,
        "Panel 1\n\nCharacter consistency: The protagonist must match this description consistently across panels.\nshort hair, glasses"
    );
    assert_eq!(r.timeout_secs, 60);
    assert_eq!(
        plan_renderer_request("Panel 1", &Settings::default()).unwrap_err(),
        "nano-banana base URL not set in settings"
    );
}

#[test]
fn text_request_names_the_model_and_the_address() {
    let (url, body) = plan_text_request(None, "Write.".to_string(), true, &Settings::default());
    assert_eq!(url, "http://127.0.0.1:11434/api/generate");
    assert_eq!(body.model, "gemma3:1b");
    assert_eq!(body.prompt, "Write.");
    assert!(body.stream);
    let (_, body) = plan_text_request(Some("phi".to_string()), "W".to_string(), false, &settings());
    assert_eq!(body.model, "phi");
    assert!(!body.stream);
}
