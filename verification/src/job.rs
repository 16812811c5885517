//! The comic job: one pass from the journal entry over the storyboard to the
//! stored image. The job decides; its caller waits, loads, calls the
//! providers and writes the file, and reports each outcome back as an event.

use vstd::prelude::*;
use crate::chain::{
    chain_next,
    chain_opened,
    first_provider,
    ChainModel,
    ChainStep,
    ChainStepModel,
    ImageTask,
    Provider,
    ProviderChain,
};
use crate::image::{
    base64_decoded,
    decode_base64_png,
    decode_report,
    guess_image_extension,
    image_extension,
    image_payload,
};
use crate::json::string_view;
use crate::paths::{display_text, image_file, images_dir, images_dir_of, joined, shown};
use std::path::PathBuf;
use crate::prompt::{
    build_gemini_image_prompt,
    build_storyboard_prompt,
    comic_image_prompt,
    storyboard_prompt,
};
use crate::provider::outcome_view;
use crate::status::{duplicate_text, ComicJobStatus, ComicStage, StageModel, StatusModel};
use crate::text::join2;

verus! {

/// Milliseconds the job rests after it has taken up an entry.
pub const PARSE_DELAY_MS: u64 = 150;

/// Milliseconds the job rests after the image has been stored.
pub const SETTLE_DELAY_MS: u64 = 100;

/// Milliseconds between two heartbeats while the remote renderer works.
pub const HEARTBEAT_INTERVAL_MS: u64 = 800;

/// Highest progress that heartbeats reach while the remote renderer works;
/// the rest is left for storing the image.
pub const HEARTBEAT_CEILING: u32 = 98;

/// What a heartbeat adds to the progress.
pub const HEARTBEAT_STEP: u32 = 2;

/// The total that heartbeats report progress against.
pub const HEARTBEAT_TOTAL: u32 = 100;

/// Where a job stands between two events.
#[derive(Debug, Clone, Copy, PartialEq, Eq)]
pub enum JobPhase {
    /// Submitted; the task has not begun.
    Submitted,
    /// Resting before the entry is loaded.
    Parsing,
    /// Waiting for the entry's text.
    LoadingEntry,
    /// Receiving the storyboard from the text model.
    Prompting,
    /// Waiting for a provider's image.
    Rendering,
    /// Waiting for the image file to be written.
    Storing,
    /// Resting before the job is reported done.
    Settling,
    Done,
    Failed,
}

/// What has happened outside the job since its last step.
#[derive(Debug)]
pub enum JobEvent {
    /// The job's task has begun.
    Started,
    /// The rest that the job asked for is over.
    DelayElapsed,
    /// The entry store has handed over the entry's text.
    EntryLoaded { text: String },
    /// The entry store has no such entry, or its text cannot be read.
    EntryFailed { error: String },
    /// The text model has sent more of the storyboard.
    TextChunk { chunk: String },
    /// The text model has finished.
    TextFinished,
    /// The text stream has failed.
    TextFailed { error: String },
    /// The remote renderer is still at work.
    Heartbeat,
    /// The image stream reports progress.
    Progress { completed: u32, total: u32 },
    /// The provider asked for has answered.
    AttemptFinished { result: Result<String, String> },
    /// The image file has been written.
    ImageStored,
    /// The image file could not be written.
    StoreFailed { error: String },
}

/// A [`JobEvent`] as plain values.
pub enum EventModel {
    Started,
    DelayElapsed,
    EntryLoaded { text: Seq<char> },
    EntryFailed { error: Seq<char> },
    TextChunk { chunk: Seq<char> },
    TextFinished,
    TextFailed { error: Seq<char> },
    Heartbeat,
    Progress { completed: u32, total: u32 },
    AttemptFinished { result: Result<Seq<char>, Seq<char>> },
    ImageStored,
    StoreFailed { error: Seq<char> },
}

impl View for JobEvent {
    type V = EventModel;

    open spec fn view(&self) -> EventModel {
        match self {
            JobEvent::Started => EventModel::Started,
            JobEvent::DelayElapsed => EventModel::DelayElapsed,
            JobEvent::EntryLoaded { text } => EventModel::EntryLoaded { text: text@ },
            JobEvent::EntryFailed { error } => EventModel::EntryFailed { error: error@ },
            JobEvent::TextChunk { chunk } => EventModel::TextChunk { chunk: chunk@ },
            JobEvent::TextFinished => EventModel::TextFinished,
            JobEvent::TextFailed { error } => EventModel::TextFailed { error: error@ },
            JobEvent::Heartbeat => EventModel::Heartbeat,
            JobEvent::Progress { completed, total } => EventModel::Progress {
                completed: *completed,
                total: *total,
            },
            JobEvent::AttemptFinished { result } => EventModel::AttemptFinished {
                result: outcome_view(*result),
            },
            JobEvent::ImageStored => EventModel::ImageStored,
            JobEvent::StoreFailed { error } => EventModel::StoreFailed { error: error@ },
        }
    }
}

/// What the job asks its caller to do before the next event.
#[derive(Debug)]
pub enum JobAction {
    /// Nothing: wait for what is under way, or stop if the job has ended.
    Wait,
    /// Rest, then report `DelayElapsed`.
    Sleep { millis: u64 },
    /// Load the entry's text, then report `EntryLoaded` or `EntryFailed`.
    LoadEntry { entry_id: String },
    /// Send the instruction to the text model and report its stream.
    StreamText { prompt: String },
    /// Ask the provider for the image and report `AttemptFinished`. The
    /// remote renderer takes the storyboard as input, the model the image
    /// instruction. Where `prepare_dir` names a directory, it is created
    /// first.
    Render { provider: Provider, input: String, prepare_dir: Option<PathBuf> },
    /// Write the bytes to this file, then report `ImageStored` or
    /// `StoreFailed`.
    StoreImage { path: PathBuf, bytes: Vec<u8> },
}

/// A [`JobAction`] as plain values.
pub enum ActionModel {
    Wait,
    Sleep { millis: u64 },
    LoadEntry { entry_id: Seq<char> },
    StreamText { prompt: Seq<char> },
    Render { provider: Provider, input: Seq<char>, prepare_dir: Option<PathBuf> },
    StoreImage { path: PathBuf, bytes: Seq<u8> },
}

impl View for JobAction {
    type V = ActionModel;

    open spec fn view(&self) -> ActionModel {
        match self {
            JobAction::Wait => ActionModel::Wait,
            JobAction::Sleep { millis } => ActionModel::Sleep { millis: *millis },
            JobAction::LoadEntry { entry_id } => ActionModel::LoadEntry { entry_id: entry_id@ },
            JobAction::StreamText { prompt } => ActionModel::StreamText { prompt: prompt@ },
            JobAction::Render { provider, input, prepare_dir } => ActionModel::Render {
                provider: *provider,
                input: input@,
                prepare_dir: *prepare_dir,
            },
            JobAction::StoreImage { path, bytes } => ActionModel::StoreImage {
                path: *path,
                bytes: bytes@,
            },
        }
    }
}

/// What a step yields: the status to record, if the step changed what
/// pollers see, and what to do next.
#[derive(Debug)]
pub struct JobOutput {
    pub status: Option<ComicJobStatus>,
    pub action: JobAction,
}

/// A [`JobOutput`] as plain values.
pub struct OutputModel {
    pub status: Option<StatusModel>,
    pub action: ActionModel,
}

impl View for JobOutput {
    type V = OutputModel;

    open spec fn view(&self) -> OutputModel {
        OutputModel {
            status: match self.status {
                Some(s) => Some(s@),
                None => None,
            },
            action: self.action@,
        }
    }
}

/// A comic job between two events.
pub struct ComicJob {
    job_id: String,
    entry_id: String,
    style: String,
    remote_configured: bool,
    data_root: PathBuf,
    phase: JobPhase,
    stage: ComicStage,
    storyboard: String,
    last_tick: u32,
    chain: ProviderChain,
    file_name: Option<String>,
    image_path: Option<String>,
}

/// A [`ComicJob`] as plain values.
pub struct JobModel {
    pub job_id: Seq<char>,
    pub entry_id: Seq<char>,
    pub style: Seq<char>,
    /// Whether a remote renderer is set up and is tried first.
    pub remote_configured: bool,
    /// The data directory, below which the image is stored.
    pub data_root: PathBuf,
    pub phase: JobPhase,
    /// The stage recorded last.
    pub stage: StageModel,
    /// The storyboard received so far.
    pub storyboard: Seq<char>,
    /// The progress recorded last while rendering.
    pub last_tick: u32,
    pub chain: ChainModel,
    /// The name of the image file, once the image is in hand.
    pub file_name: Option<Seq<char>>,
    /// Where the image was stored, as the status shows it.
    pub image_path: Option<Seq<char>>,
}

impl View for ComicJob {
    type V = JobModel;

    closed spec fn view(&self) -> JobModel {
        JobModel {
            job_id: self.job_id@,
            entry_id: self.entry_id@,
            style: self.style@,
            remote_configured: self.remote_configured,
            data_root: self.data_root,
            phase: self.phase,
            stage: self.stage@,
            storyboard: self.storyboard@,
            last_tick: self.last_tick,
            chain: self.chain@,
            file_name: string_view(self.file_name),
            image_path: string_view(self.image_path),
        }
    }
}

/// A job as it is submitted.
pub open spec fn submitted(
    job_id: Seq<char>,
    entry_id: Seq<char>,
    style: Seq<char>,
    remote_configured: bool,
    data_root: PathBuf,
) -> JobModel {
    JobModel {
        job_id,
        entry_id,
        style,
        remote_configured,
        data_root,
        phase: JobPhase::Submitted,
        stage: StageModel::Queued,
        storyboard: Seq::empty(),
        last_tick: 0,
        chain: chain_opened(ImageTask::Generate, remote_configured),
        file_name: None,
        image_path: None,
    }
}

/// The status that records the job's present stage at time `now`, with the
/// storyboard if `with_storyboard`.
pub open spec fn status_of(job: JobModel, now: Seq<char>, with_storyboard: bool) -> StatusModel {
    StatusModel {
        job_id: job.job_id,
        entry_id: job.entry_id,
        style: job.style,
        stage: job.stage,
        updated_at: now,
        result_image_path: job.image_path,
        storyboard_text: if with_storyboard {
            Some(job.storyboard)
        } else {
            None
        },
    }
}

/// A step that changes nothing.
pub open spec fn ignored(job: JobModel) -> (JobModel, OutputModel) {
    (job, OutputModel { status: None, action: ActionModel::Wait })
}

/// A step that records the job's new stage and asks for `action`.
pub open spec fn recorded(
    job: JobModel,
    now: Seq<char>,
    with_storyboard: bool,
    action: ActionModel,
) -> (JobModel, OutputModel) {
    (job, OutputModel { status: Some(status_of(job, now, with_storyboard)), action })
}

/// A step that ends the job with a failure.
pub open spec fn failed(
    job: JobModel,
    now: Seq<char>,
    with_storyboard: bool,
    error: Seq<char>,
) -> (JobModel, OutputModel) {
    recorded(
        JobModel { phase: JobPhase::Failed, stage: StageModel::Failed { error }, ..job },
        now,
        with_storyboard,
        ActionModel::Wait,
    )
}

/// What a provider takes as input: the remote renderer the storyboard, the
/// model the image instruction made of storyboard and style.
pub open spec fn render_input(job: JobModel, provider: Provider) -> Seq<char> {
    match provider {
        Provider::Remote => job.storyboard,
        _ => comic_image_prompt(job.storyboard, job.style),
    }
}

/// The name of the job's image file for the given bytes.
pub open spec fn image_file_name(job_id: Seq<char>, bytes: Seq<u8>) -> Seq<char> {
    job_id + "-result."@ + image_extension(bytes)
}

/// The progress after one more heartbeat.
pub open spec fn heartbeat_tick(last_tick: u32) -> u32 {
    if last_tick + HEARTBEAT_STEP > HEARTBEAT_CEILING {
        HEARTBEAT_CEILING
    } else {
        (last_tick + HEARTBEAT_STEP) as u32
    }
}

/// Whether a progress report is recorded: it is above the progress recorded
/// last, a multiple of five, and within its own total.
pub open spec fn qualifies(last_tick: u32, completed: u32, total: u32) -> bool {
    completed > last_tick && completed % 5 == 0 && completed <= total
}

/// The directory in which the job's image is stored.
pub open spec fn job_images_dir(job: JobModel) -> PathBuf {
    images_dir_of(job.data_root, job.entry_id)
}

/// The file in which the job's image is stored under a file name.
pub open spec fn job_image_file(job: JobModel, file_name: Seq<char>) -> PathBuf {
    joined(job_images_dir(job), file_name)
}

/// The step taken when the image text is in hand: the image is decoded and
/// handed over for storing in the entry's directory of images, or the job
/// fails on a text that does not decode.
pub open spec fn image_received(job: JobModel, data: Seq<char>, now: Seq<char>) -> (
    JobModel,
    OutputModel,
) {
    match decode_report(base64_decoded(image_payload(data))) {
        Ok(bytes) => (
            JobModel {
                phase: JobPhase::Storing,
                file_name: Some(image_file_name(job.job_id, bytes)),
                ..job
            },
            OutputModel {
                status: None,
                action: ActionModel::StoreImage {
                    path: job_image_file(job, image_file_name(job.job_id, bytes)),
                    bytes,
                },
            },
        ),
        Err(error) => failed(job, now, true, "image decode failed: "@ + error),
    }
}

/// The step taken when the awaited provider has answered.
pub open spec fn attempt_finished(
    job: JobModel,
    result: Result<Seq<char>, Seq<char>>,
    now: Seq<char>,
) -> (JobModel, OutputModel) {
    let (chain, step) = chain_next(job.chain, result);
    let job = JobModel { chain, ..job };
    match step {
        ChainStepModel::Call { provider } => (
            job,
            OutputModel {
                status: None,
                action: ActionModel::Render {
                    provider,
                    input: render_input(job, provider),
                    prepare_dir: None,
                },
            },
        ),
        ChainStepModel::Image { data } => image_received(job, data, now),
        ChainStepModel::Failure { error } => failed(
            job,
            now,
            true,
            "image generation failed: "@ + error,
        ),
        ChainStepModel::Closed => ignored(job),
    }
}

/// The job after an event at time `now`, and what the step yields. An event
/// that the job's phase does not await changes nothing.
pub open spec fn next(job: JobModel, event: EventModel, now: Seq<char>) -> (
    JobModel,
    OutputModel,
) {
    match (job.phase, event) {
        (JobPhase::Submitted, EventModel::Started) => recorded(
            JobModel { phase: JobPhase::Parsing, stage: StageModel::Parsing, ..job },
            now,
            false,
            ActionModel::Sleep { millis: PARSE_DELAY_MS },
        ),
        (JobPhase::Parsing, EventModel::DelayElapsed) => recorded(
            JobModel { phase: JobPhase::LoadingEntry, stage: StageModel::Storyboarding, ..job },
            now,
            false,
            ActionModel::LoadEntry { entry_id: job.entry_id },
        ),
        (JobPhase::LoadingEntry, EventModel::EntryLoaded { text }) => recorded(
            JobModel { phase: JobPhase::Prompting, stage: StageModel::Prompting, ..job },
            now,
            false,
            ActionModel::StreamText { prompt: storyboard_prompt(text) },
        ),
        (JobPhase::LoadingEntry, EventModel::EntryFailed { error }) => failed(
            job,
            now,
            false,
            "load entry failed: "@ + error,
        ),
        (JobPhase::Prompting, EventModel::TextChunk { chunk }) => recorded(
            JobModel { storyboard: job.storyboard + chunk, ..job },
            now,
            true,
            ActionModel::Wait,
        ),
        (JobPhase::Prompting, EventModel::TextFinished) => {
            let provider = first_provider(job.remote_configured);
            let job = JobModel {
                phase: JobPhase::Rendering,
                stage: StageModel::Rendering { completed: 1, total: 1 },
                last_tick: 0,
                chain: chain_opened(ImageTask::Generate, job.remote_configured),
                ..job
            };
            recorded(
                job,
                now,
                true,
                ActionModel::Render {
                    provider,
                    input: render_input(job, provider),
                    prepare_dir: Some(job_images_dir(job)),
                },
            )
        },
        (JobPhase::Prompting, EventModel::TextFailed { error }) => failed(
            job,
            now,
            false,
            "ollama prompting failed: "@ + error,
        ),
        (JobPhase::Rendering, EventModel::Heartbeat) => {
            if job.chain.waiting == Some(Provider::Remote) && job.last_tick < HEARTBEAT_CEILING {
                let tick = heartbeat_tick(job.last_tick);
                recorded(
                    JobModel {
                        stage: StageModel::Rendering { completed: tick, total: HEARTBEAT_TOTAL },
                        last_tick: tick,
                        ..job
                    },
                    now,
                    true,
                    ActionModel::Wait,
                )
            } else {
                ignored(job)
            }
        },
        (JobPhase::Rendering, EventModel::Progress { completed, total }) => {
            if job.chain.waiting == Some(Provider::Streaming) && qualifies(
                job.last_tick,
                completed,
                total,
            ) {
                recorded(
                    JobModel {
                        stage: StageModel::Rendering { completed, total },
                        last_tick: completed,
                        ..job
                    },
                    now,
                    true,
                    ActionModel::Wait,
                )
            } else {
                ignored(job)
            }
        },
        (JobPhase::Rendering, EventModel::AttemptFinished { result }) => attempt_finished(
            job,
            result,
            now,
        ),
        (JobPhase::Storing, EventModel::ImageStored) => match job.file_name {
            Some(file_name) => recorded(
                JobModel {
                    phase: JobPhase::Settling,
                    stage: StageModel::Saving,
                    image_path: Some(shown(job_image_file(job, file_name))),
                    ..job
                },
                now,
                true,
                ActionModel::Sleep { millis: SETTLE_DELAY_MS },
            ),
            None => ignored(job),
        },
        (JobPhase::Storing, EventModel::StoreFailed { error }) => failed(
            job,
            now,
            true,
            "image save failed: "@ + error,
        ),
        (JobPhase::Settling, EventModel::DelayElapsed) => recorded(
            JobModel { phase: JobPhase::Done, stage: StageModel::Done, ..job },
            now,
            true,
            ActionModel::Wait,
        ),
        _ => ignored(job),
    }
}

fn idle() -> (out: JobOutput)
    ensures
        out@ == (OutputModel { status: None, action: ActionModel::Wait }),
{
    JobOutput { status: None, action: JobAction::Wait }
}

impl ComicJob {
    /// A job as it is submitted: queued, with nothing received yet.
    pub fn new(
        job_id: String,
        entry_id: String,
        style: String,
        remote_configured: bool,
        data_root: PathBuf,
    ) -> (job: Self)
        ensures
            job@ == submitted(job_id@, entry_id@, style@, remote_configured, data_root),
    {
        ComicJob {
            job_id,
            entry_id,
            style,
            remote_configured,
            data_root,
            phase: JobPhase::Submitted,
            stage: ComicStage::Queued,
            storyboard: String::new(),
            last_tick: 0,
            chain: ProviderChain::new(ImageTask::Generate, remote_configured),
            file_name: None,
            image_path: None,
        }
    }

    /// Where the job stands.
    pub fn phase(&self) -> (phase: JobPhase)
        ensures
            phase == self@.phase,
    {
        self.phase
    }

    /// Whether the job has ended.
    pub fn is_finished(&self) -> (r: bool)
        ensures
            r == (self@.phase == JobPhase::Done || self@.phase == JobPhase::Failed),
    {
        match self.phase {
            JobPhase::Done => true,
            JobPhase::Failed => true,
            _ => false,
        }
    }

    /// The entry that the job draws.
    pub fn entry_id(&self) -> (id: &str)
        ensures
            id@ == self@.entry_id,
    {
        self.entry_id.as_str()
    }

    /// The status that records the job's present stage at time `now`.
    pub fn status(&self, now: &str, with_storyboard: bool) -> (status: ComicJobStatus)
        ensures
            status@ == status_of(self@, now@, with_storyboard),
    {
        ComicJobStatus {
            job_id: self.job_id.clone(),
            entry_id: self.entry_id.clone(),
            style: self.style.clone(),
            stage: self.stage.duplicate(),
            updated_at: now.to_owned(),
            result_image_path: duplicate_text(&self.image_path),
            storyboard_text: if with_storyboard {
                Some(self.storyboard.clone())
            } else {
                None
            },
        }
    }

    fn record(&self, now: &str, with_storyboard: bool, action: JobAction) -> (out: JobOutput)
        ensures
            (self@, out@) == recorded(self@, now@, with_storyboard, action@),
    {
        JobOutput { status: Some(self.status(now, with_storyboard)), action }
    }

    fn fail(&mut self, now: &str, with_storyboard: bool, error: String) -> (out: JobOutput)
        ensures
            (final(self)@, out@) == failed(old(self)@, now@, with_storyboard, error@),
    {
        self.phase = JobPhase::Failed;
        self.stage = ComicStage::Failed { error };
        self.record(now, with_storyboard, JobAction::Wait)
    }

    fn input_for(&self, provider: Provider) -> (input: String)
        ensures
            input@ == render_input(self@, provider),
    {
        match provider {
            Provider::Remote => self.storyboard.clone(),
            _ => build_gemini_image_prompt(self.storyboard.as_str(), self.style.as_str()),
        }
    }

    fn on_image(&mut self, data: &str, now: &str) -> (out: JobOutput)
        ensures
            (final(self)@, out@) == image_received(old(self)@, data@, now@),
    {
        match decode_base64_png(data) {
            Ok(bytes) => {
                let extension = guess_image_extension(bytes.as_slice());
                let mut file_name = join2(self.job_id.as_str(), "-result.");
                file_name.append(extension);
                let path = image_file(
                    &self.data_root,
                    self.entry_id.as_str(),
                    file_name.as_str(),
                );
                self.phase = JobPhase::Storing;
                self.file_name = Some(file_name);
                JobOutput { status: None, action: JobAction::StoreImage { path, bytes } }
            },
            Err(error) => {
                let report = join2("image decode failed: ", error.as_str());
                self.fail(now, true, report)
            },
        }
    }

    fn on_attempt(&mut self, result: Result<String, String>, now: &str) -> (out: JobOutput)
        ensures
            (final(self)@, out@) == attempt_finished(old(self)@, outcome_view(result), now@),
    {
        match self.chain.step(result) {
            ChainStep::Call { provider } => {
                let input = self.input_for(provider);
                JobOutput {
                    status: None,
                    action: JobAction::Render { provider, input, prepare_dir: None },
                }
            },
            ChainStep::Image { data } => self.on_image(data.as_str(), now),
            ChainStep::Failure { error } => {
                let report = join2("image generation failed: ", error.as_str());
                self.fail(now, true, report)
            },
            ChainStep::Closed => idle(),
        }
    }

    fn on_heartbeat(&mut self, now: &str) -> (out: JobOutput)
        requires
            old(self)@.phase == JobPhase::Rendering,
        ensures
            (final(self)@, out@) == next(old(self)@, EventModel::Heartbeat, now@),
    {
        let remote = match self.chain.waiting() {
            Some(Provider::Remote) => true,
            _ => false,
        };
        if remote && self.last_tick < HEARTBEAT_CEILING {
            let tick: u32 = if self.last_tick + HEARTBEAT_STEP > HEARTBEAT_CEILING {
                HEARTBEAT_CEILING
            } else {
                self.last_tick + HEARTBEAT_STEP
            };
            self.stage = ComicStage::Rendering { completed: tick, total: HEARTBEAT_TOTAL };
            self.last_tick = tick;
            self.record(now, true, JobAction::Wait)
        } else {
            idle()
        }
    }

    fn on_progress(&mut self, completed: u32, total: u32, now: &str) -> (out: JobOutput)
        requires
            old(self)@.phase == JobPhase::Rendering,
        ensures
            (final(self)@, out@) == next(
                old(self)@,
                EventModel::Progress { completed, total },
                now@,
            ),
    {
        let streaming = match self.chain.waiting() {
            Some(Provider::Streaming) => true,
            _ => false,
        };
        if streaming && completed > self.last_tick && completed % 5 == 0 && completed <= total {
            self.stage = ComicStage::Rendering { completed, total };
            self.last_tick = completed;
            self.record(now, true, JobAction::Wait)
        } else {
            idle()
        }
    }

    fn on_stored(&mut self, now: &str) -> (out: JobOutput)
        requires
            old(self)@.phase == JobPhase::Storing,
        ensures
            (final(self)@, out@) == next(old(self)@, EventModel::ImageStored, now@),
    {
        let shown_path = match &self.file_name {
            Some(file_name) => {
                let path = image_file(
                    &self.data_root,
                    self.entry_id.as_str(),
                    file_name.as_str(),
                );
                display_text(&path)
            },
            None => { return idle(); },
        };
        self.phase = JobPhase::Settling;
        self.stage = ComicStage::Saving;
        self.image_path = Some(shown_path);
        self.record(now, true, JobAction::Sleep { millis: SETTLE_DELAY_MS })
    }

    fn begin_rendering(&mut self, now: &str) -> (out: JobOutput)
        requires
            old(self)@.phase == JobPhase::Prompting,
        ensures
            (final(self)@, out@) == next(old(self)@, EventModel::TextFinished, now@),
    {
        let provider = if self.remote_configured {
            Provider::Remote
        } else {
            Provider::Streaming
        };
        self.phase = JobPhase::Rendering;
        self.stage = ComicStage::Rendering { completed: 1, total: 1 };
        self.last_tick = 0;
        self.chain = ProviderChain::new(ImageTask::Generate, self.remote_configured);
        let input = self.input_for(provider);
        let dir = images_dir(&self.data_root, self.entry_id.as_str());
        self.record(now, true, JobAction::Render { provider, input, prepare_dir: Some(dir) })
    }

    /// Takes an event that happened at time `now`, moves the job on, and
    /// says what to record and what to do next.
    pub fn step(&mut self, event: JobEvent, now: &str) -> (out: JobOutput)
        ensures
            (final(self)@, out@) == next(old(self)@, event@, now@),
    {
        match event {
            JobEvent::Started => match self.phase {
                JobPhase::Submitted => {
                    self.phase = JobPhase::Parsing;
                    self.stage = ComicStage::Parsing;
                    self.record(now, false, JobAction::Sleep { millis: PARSE_DELAY_MS })
                },
                _ => idle(),
            },
            JobEvent::DelayElapsed => match self.phase {
                JobPhase::Parsing => {
                    self.phase = JobPhase::LoadingEntry;
                    self.stage = ComicStage::Storyboarding;
                    let entry_id = self.entry_id.clone();
                    self.record(now, false, JobAction::LoadEntry { entry_id })
                },
                JobPhase::Settling => {
                    self.phase = JobPhase::Done;
                    self.stage = ComicStage::Done;
                    self.record(now, true, JobAction::Wait)
                },
                _ => idle(),
            },
            JobEvent::EntryLoaded { text } => match self.phase {
                JobPhase::LoadingEntry => {
                    self.phase = JobPhase::Prompting;
                    self.stage = ComicStage::Prompting;
                    let prompt = build_storyboard_prompt(text.as_str());
                    self.record(now, false, JobAction::StreamText { prompt })
                },
                _ => idle(),
            },
            JobEvent::EntryFailed { error } => match self.phase {
                JobPhase::LoadingEntry => {
                    let report = join2("load entry failed: ", error.as_str());
                    self.fail(now, false, report)
                },
                _ => idle(),
            },
            JobEvent::TextChunk { chunk } => match self.phase {
                JobPhase::Prompting => {
                    self.storyboard.append(chunk.as_str());
                    self.record(now, true, JobAction::Wait)
                },
                _ => idle(),
            },
            JobEvent::TextFinished => match self.phase {
                JobPhase::Prompting => self.begin_rendering(now),
                _ => idle(),
            },
            JobEvent::TextFailed { error } => match self.phase {
                JobPhase::Prompting => {
                    let report = join2("ollama prompting failed: ", error.as_str());
                    self.fail(now, false, report)
                },
                _ => idle(),
            },
            JobEvent::Heartbeat => match self.phase {
                JobPhase::Rendering => self.on_heartbeat(now),
                _ => idle(),
            },
            JobEvent::Progress { completed, total } => match self.phase {
                JobPhase::Rendering => self.on_progress(completed, total, now),
                _ => idle(),
            },
            JobEvent::AttemptFinished { result } => match self.phase {
                JobPhase::Rendering => self.on_attempt(result, now),
                _ => idle(),
            },
            JobEvent::ImageStored => match self.phase {
                JobPhase::Storing => self.on_stored(now),
                _ => idle(),
            },
            JobEvent::StoreFailed { error } => match self.phase {
                JobPhase::Storing => {
                    let report = join2("image save failed: ", error.as_str());
                    self.fail(now, true, report)
                },
                _ => idle(),
            },
        }
    }
}

/// What holds of every job that a run of events has led to: the stage
/// recorded last is the one that belongs to the job's phase, a provider is
/// awaited while the job renders, and the progress recorded last is within
/// its total and not above the tick that later reports are measured by.
pub open spec fn well_formed(job: JobModel) -> bool {
    match job.phase {
        JobPhase::Submitted => job.stage is Queued,
        JobPhase::Parsing => job.stage is Parsing,
        JobPhase::LoadingEntry => job.stage is Storyboarding,
        JobPhase::Prompting => job.stage is Prompting,
        JobPhase::Rendering => {
            &&& job.chain.waiting is Some
            &&& job.stage is Rendering
            &&& job.stage.within_total()
            &&& (job.stage->Rendering_completed <= job.last_tick
                || job.stage->Rendering_completed <= 1)
        },
        JobPhase::Storing => {
            &&& job.stage is Rendering
            &&& job.stage.within_total()
            &&& job.file_name is Some
        },
        JobPhase::Settling => job.stage is Saving,
        JobPhase::Done => job.stage is Done,
        JobPhase::Failed => job.stage is Failed,
    }
}

/// `later` is not an earlier stage than `earlier`: it does not rank below
/// it, and between two rendering stages the progress does not fall.
pub open spec fn not_before(earlier: StageModel, later: StageModel) -> bool {
    &&& earlier.rank() <= later.rank()
    &&& match (earlier, later) {
        (
            StageModel::Rendering { completed: before, .. },
            StageModel::Rendering { completed: after, .. },
        ) => before <= after,
        _ => true,
    }
}

/// The job after a run of events, each with the time at which it happened.
pub open spec fn after_events(job: JobModel, events: Seq<(EventModel, Seq<char>)>) -> JobModel
    decreases events.len(),
{
    if events.len() == 0 {
        job
    } else {
        after_events(next(job, events[0].0, events[0].1).0, events.drop_first())
    }
}

/// The stages that a run of events records, in order: what a poller that
/// misses nothing sees.
pub open spec fn recorded_stages(
    job: JobModel,
    events: Seq<(EventModel, Seq<char>)>,
) -> Seq<StageModel>
    decreases events.len(),
{
    if events.len() == 0 {
        seq![]
    } else {
        let (after, out) = next(job, events[0].0, events[0].1);
        let rest = recorded_stages(after, events.drop_first());
        match out.status {
            Some(status) => seq![status.stage] + rest,
            None => rest,
        }
    }
}

/// A job is well formed when it is submitted.
pub proof fn submitted_is_well_formed(
    job_id: Seq<char>,
    entry_id: Seq<char>,
    style: Seq<char>,
    remote_configured: bool,
    data_root: PathBuf,
)
    ensures
        well_formed(submitted(job_id, entry_id, style, remote_configured, data_root)),
{
}

/// One step never takes a job back: the job stays well formed; a status
/// that the step records carries the job's new stage, which may follow the
/// stage recorded before and whose progress is within its total; and a step
/// that records nothing leaves the stage as it was.
pub proof fn step_never_falls_back(job: JobModel, event: EventModel, now: Seq<char>)
    requires
        well_formed(job),
    ensures
        well_formed(next(job, event, now).0),
        match next(job, event, now).1.status {
            Some(status) => {
                &&& status == status_of(
                    next(job, event, now).0,
                    now,
                    status.storyboard_text is Some,
                )
                &&& job.stage.may_precede(status.stage)
                &&& status.stage.within_total()
            },
            None => next(job, event, now).0.stage == job.stage,
        },
{
}

/// The order of stages is transitive.
pub proof fn not_before_is_transitive(a: StageModel, b: StageModel, c: StageModel)
    requires
        not_before(a, b),
        not_before(b, c),
    ensures
        not_before(a, c),
{
}

/// Over any run of events, the stages that a poller sees never fall
/// back: each is at or after the stage the job had before the run and at or
/// after every stage recorded earlier in the run, with the progress of
/// rendering never falling and never above its total.
pub proof fn stages_never_fall_back(job: JobModel, events: Seq<(EventModel, Seq<char>)>)
    requires
        well_formed(job),
    ensures
        well_formed(after_events(job, events)),
        forall|i: int|
            0 <= i < recorded_stages(job, events).len() ==> {
                &&& not_before(job.stage, #[trigger] recorded_stages(job, events)[i])
                &&& recorded_stages(job, events)[i].within_total()
            },
        forall|i: int, j: int|
            0 <= i < j < recorded_stages(job, events).len() ==> not_before(
                recorded_stages(job, events)[i],
                recorded_stages(job, events)[j],
            ),
        recorded_stages(job, events).len() > 0 ==> after_events(job, events).stage
            == recorded_stages(job, events).last(),
        recorded_stages(job, events).len() == 0 ==> after_events(job, events).stage == job.stage,
    decreases events.len(),
{
    if events.len() > 0 {
        let (after, out) = next(job, events[0].0, events[0].1);
        let rest_events = events.drop_first();
        step_never_falls_back(job, events[0].0, events[0].1);
        stages_never_fall_back(after, rest_events);
        let rest = recorded_stages(after, rest_events);
        let all = recorded_stages(job, events);
        match out.status {
            Some(status) => {
                assert(all =~= seq![status.stage] + rest);
                assert forall|i: int| 0 <= i < all.len() implies not_before(
                    job.stage,
                    #[trigger] all[i],
                ) && all[i].within_total() by {
                    if i > 0 {
                        assert(all[i] == rest[i - 1]);
                        not_before_is_transitive(job.stage, after.stage, rest[i - 1]);
                    }
                }
                assert forall|i: int, j: int| 0 <= i < j < all.len() implies not_before(
                    all[i],
                    all[j],
                ) by {
                    assert(all[j] == rest[j - 1]);
                    if i > 0 {
                        assert(all[i] == rest[i - 1]);
                    }
                }
                if rest.len() > 0 {
                    assert(all.last() == rest.last());
                }
            },
            None => {
                assert(all =~= rest);
            },
        }
    }
}

/// A job that has ended stays as it is: whatever event arrives, nothing is
/// recorded, nothing is asked for, and the job does not change. So `Done`
/// and `Failed` are recorded at most once, and nothing is recorded after
/// either.
pub proof fn ended_job_is_final(job: JobModel, event: EventModel, now: Seq<char>)
    requires
        job.phase == JobPhase::Done || job.phase == JobPhase::Failed,
    ensures
        next(job, event, now) == ignored(job),
{
}

/// A job that has ended records nothing over any run of events.
pub proof fn ended_job_records_nothing(job: JobModel, events: Seq<(EventModel, Seq<char>)>)
    requires
        job.phase == JobPhase::Done || job.phase == JobPhase::Failed,
    ensures
        recorded_stages(job, events).len() == 0,
        after_events(job, events) == job,
    decreases events.len(),
{
    if events.len() > 0 {
        ended_job_is_final(job, events[0].0, events[0].1);
        ended_job_records_nothing(job, events.drop_first());
    }
}

/// A terminal stage is recorded exactly when the job ends: a well-formed
/// job's stage is terminal if and only if its phase is `Done` or `Failed`.
pub proof fn terminal_stage_means_ended(job: JobModel)
    requires
        well_formed(job),
    ensures
        job.stage.is_terminal() <==> (job.phase == JobPhase::Done || job.phase
            == JobPhase::Failed),
{
}

/// The storyboard only grows, and only while the text model writes it: a
/// step leaves it as it is or appends a chunk to it, and outside the
/// prompting phase it does not change.
pub proof fn storyboard_only_grows(job: JobModel, event: EventModel, now: Seq<char>)
    ensures
        job.storyboard.is_prefix_of(next(job, event, now).0.storyboard),
        job.phase != JobPhase::Prompting ==> next(job, event, now).0.storyboard
            == job.storyboard,
{
}

} // verus!
