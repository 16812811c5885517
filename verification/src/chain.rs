//! The provider fallback chain: the remote renderer where one is set up,
//! then the model's streaming endpoint, then its one-shot endpoint. The
//! first provider that yields an image ends the chain.

use vstd::prelude::*;
use crate::json::string_view;
use crate::provider::outcome_view;
use crate::text::{occurs_at, occurs_in};

verus! {

/// One of the image providers.
#[derive(Debug, Clone, Copy, PartialEq, Eq)]
pub enum Provider {
    /// The remote renderer.
    Remote,
    /// The model's streaming endpoint.
    Streaming,
    /// The model's one-shot endpoint.
    Single,
}

/// What the model is asked for; the report of a failure names it.
#[derive(Debug, Clone, Copy, PartialEq, Eq)]
pub enum ImageTask {
    /// An image from an instruction.
    Generate,
    /// A cartoon portrait from a photo.
    Cartoonify,
}

/// What the chain asks for next.
#[derive(Debug)]
pub enum ChainStep {
    /// Try this provider and hand its result back.
    Call { provider: Provider },
    /// The chain has ended with this image.
    Image { data: String },
    /// The chain has ended without an image; the report names the causes.
    Failure { error: String },
    /// The chain had ended before; the result was ignored.
    Closed,
}

/// A [`ChainStep`] as plain values.
pub enum ChainStepModel {
    Call { provider: Provider },
    Image { data: Seq<char> },
    Failure { error: Seq<char> },
    Closed,
}

impl View for ChainStep {
    type V = ChainStepModel;

    open spec fn view(&self) -> ChainStepModel {
        match self {
            ChainStep::Call { provider } => ChainStepModel::Call { provider: *provider },
            ChainStep::Image { data } => ChainStepModel::Image { data: data@ },
            ChainStep::Failure { error } => ChainStepModel::Failure { error: error@ },
            ChainStep::Closed => ChainStepModel::Closed,
        }
    }
}

/// The chain between two attempts: the provider whose result is awaited,
/// and what the providers that have failed reported.
pub struct ProviderChain {
    task: ImageTask,
    waiting: Option<Provider>,
    remote_error: Option<String>,
    stream_error: Option<String>,
}

/// A [`ProviderChain`] as plain values.
pub struct ChainModel {
    pub task: ImageTask,
    pub waiting: Option<Provider>,
    /// What the remote renderer reported, if it has failed.
    pub remote_error: Option<Seq<char>>,
    /// What the streaming endpoint reported, if it has failed.
    pub stream_error: Option<Seq<char>>,
}

impl View for ProviderChain {
    type V = ChainModel;

    closed spec fn view(&self) -> ChainModel {
        ChainModel {
            task: self.task,
            waiting: self.waiting,
            remote_error: string_view(self.remote_error),
            stream_error: string_view(self.stream_error),
        }
    }
}

/// The provider that a chain starts with.
pub open spec fn first_provider(remote_configured: bool) -> Provider {
    if remote_configured {
        Provider::Remote
    } else {
        Provider::Streaming
    }
}

/// A chain that waits for its first provider.
pub open spec fn chain_opened(task: ImageTask, remote_configured: bool) -> ChainModel {
    ChainModel {
        task,
        waiting: Some(first_provider(remote_configured)),
        remote_error: None,
        stream_error: None,
    }
}

/// How the report of a model failure begins.
pub open spec fn task_prefix(task: ImageTask) -> Seq<char> {
    match task {
        ImageTask::Generate => "gemini image failed: "@,
        ImageTask::Cartoonify => "gemini cartoonify failed: "@,
    }
}

/// The report of the model's endpoints when the last of them failed with
/// `error`: the failure of the streaming endpoint, then that of the
/// one-shot endpoint.
pub open spec fn model_report(chain: ChainModel, error: Seq<char>) -> Seq<char> {
    match chain.stream_error {
        Some(stream) => "gemini stream failed: "@ + stream + "; "@ + task_prefix(chain.task)
            + error,
        None => task_prefix(chain.task) + error,
    }
}

/// The report of a chain whose last provider failed with `error`: the
/// causes of all attempts that failed, in the order of the attempts.
pub open spec fn failure_report(chain: ChainModel, error: Seq<char>) -> Seq<char> {
    match chain.remote_error {
        Some(remote) => "nano-banana failed: "@ + remote + "; gemini fallback failed: "@
            + model_report(chain, error),
        None => model_report(chain, error),
    }
}

/// The chain after the awaited provider has answered, and what it asks for
/// next. An image ends the chain. A failure of the remote renderer is kept
/// for the report and the streaming endpoint is tried; a failure of the
/// streaming endpoint, whatever it was, is kept too and hands over to the
/// one-shot endpoint; a failure of the one-shot endpoint ends the chain.
pub open spec fn chain_next(chain: ChainModel, result: Result<Seq<char>, Seq<char>>) -> (
    ChainModel,
    ChainStepModel,
) {
    match chain.waiting {
        None => (chain, ChainStepModel::Closed),
        Some(provider) => match result {
            Ok(data) => (ChainModel { waiting: None, ..chain }, ChainStepModel::Image { data }),
            Err(error) => match provider {
                Provider::Remote => (
                    ChainModel {
                        waiting: Some(Provider::Streaming),
                        remote_error: Some(error),
                        ..chain
                    },
                    ChainStepModel::Call { provider: Provider::Streaming },
                ),
                Provider::Streaming => (
                    ChainModel {
                        waiting: Some(Provider::Single),
                        stream_error: Some(error),
                        ..chain
                    },
                    ChainStepModel::Call { provider: Provider::Single },
                ),
                Provider::Single => (
                    ChainModel { waiting: None, ..chain },
                    ChainStepModel::Failure { error: failure_report(chain, error) },
                ),
            },
        },
    }
}

impl ProviderChain {
    /// Opens a chain. The caller tries the provider that [`Self::waiting`]
    /// names.
    pub fn new(task: ImageTask, remote_configured: bool) -> (chain: Self)
        ensures
            chain@ == chain_opened(task, remote_configured),
    {
        let first = if remote_configured {
            Provider::Remote
        } else {
            Provider::Streaming
        };
        ProviderChain { task, waiting: Some(first), remote_error: None, stream_error: None }
    }

    /// The provider whose result the chain awaits; none once it has ended.
    pub fn waiting(&self) -> (p: Option<Provider>)
        ensures
            p == self@.waiting,
    {
        self.waiting
    }

    fn report(&self, error: &str) -> (r: String)
        ensures
            r@ == failure_report(self@, error@),
    {
        let prefix = match self.task {
            ImageTask::Generate => "gemini image failed: ",
            ImageTask::Cartoonify => "gemini cartoonify failed: ",
        };
        let mut out = String::new();
        match &self.remote_error {
            Some(remote) => {
                out.append("nano-banana failed: ");
                out.append(remote.as_str());
                out.append("; gemini fallback failed: ");
            },
            None => {},
        }
        match &self.stream_error {
            Some(stream) => {
                out.append("gemini stream failed: ");
                out.append(stream.as_str());
                out.append("; ");
            },
            None => {},
        }
        out.append(prefix);
        out.append(error);
        assert(out@ =~= failure_report(self@, error@));
        out
    }

    /// Takes the result of the awaited provider and says what comes next.
    pub fn step(&mut self, result: Result<String, String>) -> (next: ChainStep)
        ensures
            (final(self)@, next@) == chain_next(old(self)@, outcome_view(result)),
    {
        let provider = match self.waiting {
            Some(p) => p,
            None => { return ChainStep::Closed; },
        };
        match result {
            Ok(data) => {
                self.waiting = None;
                ChainStep::Image { data }
            },
            Err(error) => match provider {
                Provider::Remote => {
                    self.waiting = Some(Provider::Streaming);
                    self.remote_error = Some(error);
                    ChainStep::Call { provider: Provider::Streaming }
                },
                Provider::Streaming => {
                    self.waiting = Some(Provider::Single);
                    self.stream_error = Some(error);
                    ChainStep::Call { provider: Provider::Single }
                },
                Provider::Single => {
                    let report = self.report(error.as_str());
                    self.waiting = None;
                    ChainStep::Failure { error: report }
                },
            },
        }
    }
}

/// An image ends the chain at once, whichever provider it comes from.
pub proof fn first_image_ends_chain(chain: ChainModel, data: Seq<char>)
    requires
        chain.waiting is Some,
    ensures
        chain_next(chain, Ok(data)).1 == (ChainStepModel::Image { data }),
        chain_next(chain, Ok(data)).0.waiting is None,
{
}

/// Without a remote renderer, a streaming endpoint that fails hands over to
/// the one-shot endpoint, and the image of the one-shot endpoint is the
/// chain's result: the chain does not fail.
pub proof fn last_provider_image_is_returned(
    task: ImageTask,
    stream_error: Seq<char>,
    data: Seq<char>,
)
    ensures
        ({
            let opened = chain_opened(task, false);
            let after_stream = chain_next(opened, Err(stream_error));
            let after_single = chain_next(after_stream.0, Ok(data));
            &&& opened.waiting == Some(Provider::Streaming)
            &&& after_stream.1 == (ChainStepModel::Call { provider: Provider::Single })
            &&& after_single.1 == (ChainStepModel::Image { data })
        }),
{
}

/// A chain makes at most three attempts: after three results, whatever
/// they are, it has ended.
pub proof fn chain_ends_within_three(
    chain: ChainModel,
    a: Result<Seq<char>, Seq<char>>,
    b: Result<Seq<char>, Seq<char>>,
    c: Result<Seq<char>, Seq<char>>,
)
    ensures
        chain_next(chain_next(chain_next(chain, a).0, b).0, c).0.waiting is None,
{
}

/// The report of a chain that has failed names every cause: what the
/// one-shot endpoint reported, what the streaming endpoint reported, and
/// what the remote renderer reported where it was tried, each occurs in it.
pub proof fn report_names_every_cause(
    task: ImageTask,
    remote: Option<Seq<char>>,
    stream: Seq<char>,
    single: Seq<char>,
)
    ensures
        ({
            let opened = chain_opened(task, remote is Some);
            let at_stream = if remote is Some {
                chain_next(opened, Err(remote->0)).0
            } else {
                opened
            };
            let at_single = chain_next(at_stream, Err(stream)).0;
            let ended = chain_next(at_single, Err(single));
            &&& ended.1 is Failure
            &&& occurs_in(single, ended.1->Failure_error)
            &&& occurs_in(stream, ended.1->Failure_error)
            &&& remote is Some ==> occurs_in(remote->0, ended.1->Failure_error)
        }),
{
    let opened = chain_opened(task, remote is Some);
    let at_stream = if remote is Some {
        chain_next(opened, Err(remote->0)).0
    } else {
        opened
    };
    let at_single = chain_next(at_stream, Err(stream)).0;
    let report = failure_report(at_single, single);
    let head = if remote is Some {
        "nano-banana failed: "@ + remote->0 + "; gemini fallback failed: "@
    } else {
        Seq::<char>::empty()
    };
    let mid = head + "gemini stream failed: "@;
    let tail = mid + stream + "; "@ + task_prefix(task);
    assert(report =~= tail + single);
    assert(report.subrange(tail.len() as int, (tail.len() + single.len()) as int) =~= single);
    assert(occurs_at(single, report, tail.len() as int));
    assert(report.subrange(mid.len() as int, (mid.len() + stream.len()) as int) =~= stream);
    assert(occurs_at(stream, report, mid.len() as int));
    if remote is Some {
        let before = "nano-banana failed: "@;
        assert(report.subrange(
            before.len() as int,
            (before.len() + remote->0.len()) as int,
        )
            =~= remote->0);
        assert(occurs_at(remote->0, report, before.len() as int));
    }
}

} // verus!
