//! The text model's server: its requests, and what its replies mean.

use vstd::prelude::*;
use crate::json::{items_view, string_view, Json, JsonModel};
use crate::provider::outcome_view;
use crate::text::join2;

verus! {

/// A request to generate text.
#[derive(Debug)]
pub struct OllamaGenerateRequest {
    pub model: String,
    pub prompt: String,
    pub stream: bool,
}

/// The reply to a request that does not stream.
#[derive(Debug)]
pub struct OllamaGenerateResponse {
    pub response: String,
}

/// One model in the server's list.
#[derive(Debug)]
pub struct OllamaTagsModel {
    pub name: Option<String>,
}

/// The server's list of models.
#[derive(Debug)]
pub struct OllamaTagsResponse {
    pub models: Option<Vec<OllamaTagsModel>>,
}

/// Whether the server answers, and with which models.
#[derive(Debug)]
pub struct OllamaHealth {
    pub ok: bool,
    pub message: Option<String>,
    pub models: Option<Vec<String>>,
}

/// An [`OllamaHealth`] as plain values.
pub struct HealthModel {
    pub ok: bool,
    pub message: Option<Seq<char>>,
    pub models: Option<Seq<Seq<char>>>,
}

/// The views of a run of texts.
pub open spec fn names_view(names: Seq<String>) -> Seq<Seq<char>> {
    Seq::new(names.len(), |i: int| names[i]@)
}

impl View for OllamaHealth {
    type V = HealthModel;

    open spec fn view(&self) -> HealthModel {
        HealthModel {
            ok: self.ok,
            message: string_view(self.message),
            models: match self.models {
                Some(names) => Some(names_view(names@)),
                None => None,
            },
        }
    }
}

/// The names of the first `upto` models of a list, in order; a model
/// without a name is left out.
pub open spec fn named_models(models: Seq<OllamaTagsModel>, upto: int) -> Seq<Seq<char>>
    decreases upto,
{
    if upto <= 0 || upto > models.len() {
        seq![]
    } else {
        match models[upto - 1].name {
            Some(name) => named_models(models, upto - 1).push(name@),
            None => named_models(models, upto - 1),
        }
    }
}

/// The names in the server's list of models.
pub open spec fn listed_models(tags: OllamaTagsResponse) -> Seq<Seq<char>> {
    match tags.models {
        Some(models) => named_models(models@, models@.len() as int),
        None => seq![],
    }
}

/// The names of the models that the server lists.
pub fn model_names(tags: &OllamaTagsResponse) -> (names: Vec<String>)
    ensures
        names_view(names@) == listed_models(*tags),
{
    let mut names: Vec<String> = Vec::new();
    match &tags.models {
        Some(models) => {
            let mut i: usize = 0;
            while i < models.len()
                invariant
                    i <= models.len(),
                    names_view(names@) == named_models(models@, i as int),
                decreases models.len() - i,
            {
                let ghost before = names_view(names@);
                match &models[i].name {
                    Some(name) => {
                        names.push(name.clone());
                        assert(names_view(names@) =~= before.push(name@));
                    },
                    None => {},
                }
                i += 1;
            }
        },
        None => {},
    }
    names
}

/// The health of a server that has sent its list of models.
pub fn health_from_tags(tags: &OllamaTagsResponse) -> (health: OllamaHealth)
    ensures
        health@ == (HealthModel { ok: true, message: None, models: Some(listed_models(*tags)) }),
{
    OllamaHealth { ok: true, message: None, models: Some(model_names(tags)) }
}

/// The health of a server that has answered with an unsuccessful status.
pub fn health_from_status(status_text: &str) -> (health: OllamaHealth)
    ensures
        health@ == (HealthModel {
            ok: false,
            message: Some("HTTP "@ + status_text@),
            models: None,
        }),
{
    OllamaHealth { ok: false, message: Some(join2("HTTP ", status_text)), models: None }
}

/// The health of a server that could not be reached.
pub fn health_from_error(error: &str) -> (health: OllamaHealth)
    ensures
        health@ == (HealthModel { ok: false, message: Some(error@), models: None }),
{
    OllamaHealth { ok: false, message: Some(error.to_owned()), models: None }
}

/// The models to offer for a health report: those it lists, or none.
pub fn models_of(health: OllamaHealth) -> (names: Vec<String>)
    ensures
        names_view(names@) == match health@.models {
            Some(names) => names,
            None => Seq::<Seq<char>>::empty(),
        },
{
    match health.models {
        Some(names) => names,
        None => {
            let names: Vec<String> = Vec::new();
            assert(names_view(names@) =~= Seq::<Seq<char>>::empty());
            names
        },
    }
}

/// Report of a reply in which no text is found.
pub const UNEXPECTED_REPLY: &'static str = "Unexpected Ollama response format";

/// The texts of the members `response` of the first `upto` items, put
/// together in order.
pub open spec fn joined_responses(items: Seq<JsonModel>, upto: int) -> Seq<char>
    decreases upto,
{
    if upto <= 0 || upto > items.len() {
        Seq::empty()
    } else {
        match items[upto - 1].text_field("response"@) {
            Some(text) => joined_responses(items, upto - 1) + text,
            None => joined_responses(items, upto - 1),
        }
    }
}

/// The text of a reply that was not streamed: its text member `response`,
/// or, where the reply is a list of fragments, their responses put together
/// if that gives any text.
pub open spec fn reply_text(value: JsonModel) -> Result<Seq<char>, Seq<char>> {
    match value.text_field("response"@) {
        Some(text) => Ok(text),
        None => match value.items() {
            Some(items) => if joined_responses(items, items.len() as int).len() > 0 {
                Ok(joined_responses(items, items.len() as int))
            } else {
                Err(UNEXPECTED_REPLY@)
            },
            None => Err(UNEXPECTED_REPLY@),
        },
    }
}

/// Reads the generated text out of a reply that was not streamed.
pub fn generated_text(value: &Json) -> (r: Result<String, String>)
    ensures
        outcome_view(r) == reply_text(value@),
{
    match value.text_field("response") {
        Some(text) => { return Ok(text.to_owned()); },
        None => {},
    }
    match value.as_array() {
        Some(items) => {
            let mut out = String::new();
            let mut i: usize = 0;
            while i < items.len()
                invariant
                    i <= items.len(),
                    out@ == joined_responses(items_view(items@), i as int),
                decreases items.len() - i,
            {
                match items[i].text_field("response") {
                    Some(text) => {
                        out.append(text);
                    },
                    None => {},
                }
                i += 1;
            }
            if !out.as_str().is_empty() {
                Ok(out)
            } else {
                Err(UNEXPECTED_REPLY.to_owned())
            }
        },
        None => Err(UNEXPECTED_REPLY.to_owned()),
    }
}

} // verus!
