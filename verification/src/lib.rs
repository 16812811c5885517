//! Staged illustration jobs: the status model and its state machine, the
//! parsers for streamed provider responses, and the provider fallback policy.

pub mod avatar;
pub mod chain;
pub mod clock;
pub mod entries;
pub mod extract;
pub mod image;
pub mod job;
pub mod json;
pub mod ollama;
pub mod paths;
pub mod prompt;
pub mod provider;
pub mod registry;
pub mod reply;
pub mod request;
pub mod settings;
pub mod status;
pub mod stream;
pub mod text;
