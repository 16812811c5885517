//! The avatar job: the rendering stage alone, for a portrait drawn from a
//! description or from a photo.

use vstd::prelude::*;
use crate::chain::{
    chain_next,
    chain_opened,
    ChainModel,
    ChainStep,
    ChainStepModel,
    ImageTask,
    Provider,
    ProviderChain,
};
use crate::job::qualifies;
use crate::json::string_view;
use crate::provider::outcome_view;
use crate::status::{
    duplicate_text,
    AvatarJobStatus,
    AvatarStage,
    AvatarStageModel,
    AvatarStatusModel,
};
use crate::stream::PROGRESS_TOTAL;

verus! {

/// Where an avatar job stands between two events.
#[derive(Debug, Clone, Copy, PartialEq, Eq)]
pub enum AvatarPhase {
    Submitted,
    Rendering,
    Done,
    Failed,
}

/// What has happened outside the job since its last step.
#[derive(Debug)]
pub enum AvatarEvent {
    /// The job's task has begun.
    Started,
    /// The image stream reports progress.
    Progress { completed: u32, total: u32 },
    /// The provider asked for has answered.
    AttemptFinished { result: Result<String, String> },
}

/// An [`AvatarEvent`] as plain values.
pub enum AvatarEventModel {
    Started,
    Progress { completed: u32, total: u32 },
    AttemptFinished { result: Result<Seq<char>, Seq<char>> },
}

impl View for AvatarEvent {
    type V = AvatarEventModel;

    open spec fn view(&self) -> AvatarEventModel {
        match self {
            AvatarEvent::Started => AvatarEventModel::Started,
            AvatarEvent::Progress { completed, total } => AvatarEventModel::Progress {
                completed: *completed,
                total: *total,
            },
            AvatarEvent::AttemptFinished { result } => AvatarEventModel::AttemptFinished {
                result: outcome_view(*result),
            },
        }
    }
}

/// What a step yields: the status to record, if the step changed what
/// pollers see, and the provider to try next, if there is one.
#[derive(Debug)]
pub struct AvatarOutput {
    pub status: Option<AvatarJobStatus>,
    pub call: Option<Provider>,
}

/// An [`AvatarOutput`] as plain values.
pub struct AvatarOutputModel {
    pub status: Option<AvatarStatusModel>,
    pub call: Option<Provider>,
}

impl View for AvatarOutput {
    type V = AvatarOutputModel;

    open spec fn view(&self) -> AvatarOutputModel {
        AvatarOutputModel {
            status: match self.status {
                Some(s) => Some(s@),
                None => None,
            },
            call: self.call,
        }
    }
}

/// An avatar job between two events.
pub struct AvatarJob {
    job_id: String,
    phase: AvatarPhase,
    stage: AvatarStage,
    last_tick: u32,
    chain: ProviderChain,
    image: Option<String>,
}

/// An [`AvatarJob`] as plain values.
pub struct AvatarJobModel {
    pub job_id: Seq<char>,
    pub phase: AvatarPhase,
    /// The stage recorded last.
    pub stage: AvatarStageModel,
    /// The progress recorded last.
    pub last_tick: u32,
    pub chain: ChainModel,
    /// The portrait, as base64 text.
    pub image: Option<Seq<char>>,
}

impl View for AvatarJob {
    type V = AvatarJobModel;

    closed spec fn view(&self) -> AvatarJobModel {
        AvatarJobModel {
            job_id: self.job_id@,
            phase: self.phase,
            stage: self.stage@,
            last_tick: self.last_tick,
            chain: self.chain@,
            image: string_view(self.image),
        }
    }
}

/// An avatar job as it is submitted. No remote renderer draws portraits, so
/// the chain begins at the model's streaming endpoint.
pub open spec fn avatar_submitted(job_id: Seq<char>, task: ImageTask) -> AvatarJobModel {
    AvatarJobModel {
        job_id,
        phase: AvatarPhase::Submitted,
        stage: AvatarStageModel::Queued,
        last_tick: 0,
        chain: chain_opened(task, false),
        image: None,
    }
}

/// The status that records the job's present stage at time `now`.
pub open spec fn avatar_status_of(job: AvatarJobModel, now: Seq<char>) -> AvatarStatusModel {
    AvatarStatusModel {
        job_id: job.job_id,
        stage: job.stage,
        updated_at: now,
        image_base64: job.image,
    }
}

/// A step that changes nothing.
pub open spec fn avatar_ignored(job: AvatarJobModel) -> (AvatarJobModel, AvatarOutputModel) {
    (job, AvatarOutputModel { status: None, call: None })
}

/// A step that records the job's new stage.
pub open spec fn avatar_recorded(job: AvatarJobModel, now: Seq<char>, call: Option<Provider>) -> (
    AvatarJobModel,
    AvatarOutputModel,
) {
    (job, AvatarOutputModel { status: Some(avatar_status_of(job, now)), call })
}

/// The job after an event at time `now`, and what the step yields. The job
/// begins to render when its task starts; it records the progress reports
/// that qualify; the first image ends it as done, with the image in its
/// status, and the failure of the last provider ends it as failed, with the
/// chain's report. An event that the job's phase does not await changes
/// nothing.
pub open spec fn avatar_next(job: AvatarJobModel, event: AvatarEventModel, now: Seq<char>) -> (
    AvatarJobModel,
    AvatarOutputModel,
) {
    match (job.phase, event) {
        (AvatarPhase::Submitted, AvatarEventModel::Started) => avatar_recorded(
            AvatarJobModel {
                phase: AvatarPhase::Rendering,
                stage: AvatarStageModel::Rendering { completed: 0, total: PROGRESS_TOTAL },
                ..job
            },
            now,
            job.chain.waiting,
        ),
        (AvatarPhase::Rendering, AvatarEventModel::Progress { completed, total }) => {
            if job.chain.waiting == Some(Provider::Streaming) && qualifies(
                job.last_tick,
                completed,
                total,
            ) {
                avatar_recorded(
                    AvatarJobModel {
                        stage: AvatarStageModel::Rendering { completed, total },
                        last_tick: completed,
                        ..job
                    },
                    now,
                    None,
                )
            } else {
                avatar_ignored(job)
            }
        },
        (AvatarPhase::Rendering, AvatarEventModel::AttemptFinished { result }) => {
            let (chain, step) = chain_next(job.chain, result);
            let job = AvatarJobModel { chain, ..job };
            match step {
                ChainStepModel::Call { provider } => (
                    job,
                    AvatarOutputModel { status: None, call: Some(provider) },
                ),
                ChainStepModel::Image { data } => avatar_recorded(
                    AvatarJobModel {
                        phase: AvatarPhase::Done,
                        stage: AvatarStageModel::Done,
                        image: Some(data),
                        ..job
                    },
                    now,
                    None,
                ),
                ChainStepModel::Failure { error } => avatar_recorded(
                    AvatarJobModel {
                        phase: AvatarPhase::Failed,
                        stage: AvatarStageModel::Failed { error },
                        ..job
                    },
                    now,
                    None,
                ),
                ChainStepModel::Closed => avatar_ignored(job),
            }
        },
        _ => avatar_ignored(job),
    }
}

impl AvatarJob {
    /// A job as it is submitted.
    pub fn new(job_id: String, task: ImageTask) -> (job: Self)
        ensures
            job@ == avatar_submitted(job_id@, task),
    {
        AvatarJob {
            job_id,
            phase: AvatarPhase::Submitted,
            stage: AvatarStage::Queued,
            last_tick: 0,
            chain: ProviderChain::new(task, false),
            image: None,
        }
    }

    /// Where the job stands.
    pub fn phase(&self) -> (phase: AvatarPhase)
        ensures
            phase == self@.phase,
    {
        self.phase
    }

    /// The status that records the job's present stage at time `now`.
    pub fn status(&self, now: &str) -> (status: AvatarJobStatus)
        ensures
            status@ == avatar_status_of(self@, now@),
    {
        AvatarJobStatus {
            job_id: self.job_id.clone(),
            stage: self.stage.duplicate(),
            updated_at: now.to_owned(),
            image_base64: duplicate_text(&self.image),
        }
    }

    fn record(&self, now: &str, call: Option<Provider>) -> (out: AvatarOutput)
        ensures
            (self@, out@) == avatar_recorded(self@, now@, call),
    {
        AvatarOutput { status: Some(self.status(now)), call }
    }

    fn on_attempt(&mut self, result: Result<String, String>, now: &str) -> (out: AvatarOutput)
        requires
            old(self)@.phase == AvatarPhase::Rendering,
        ensures
            (final(self)@, out@) == avatar_next(
                old(self)@,
                AvatarEventModel::AttemptFinished { result: outcome_view(result) },
                now@,
            ),
    {
        match self.chain.step(result) {
            ChainStep::Call { provider } => AvatarOutput { status: None, call: Some(provider) },
            ChainStep::Image { data } => {
                self.phase = AvatarPhase::Done;
                self.stage = AvatarStage::Done;
                self.image = Some(data);
                self.record(now, None)
            },
            ChainStep::Failure { error } => {
                self.phase = AvatarPhase::Failed;
                self.stage = AvatarStage::Failed { error };
                self.record(now, None)
            },
            ChainStep::Closed => AvatarOutput { status: None, call: None },
        }
    }

    /// Takes an event that happened at time `now`, moves the job on, and
    /// says what to record and which provider to try next.
    pub fn step(&mut self, event: AvatarEvent, now: &str) -> (out: AvatarOutput)
        ensures
            (final(self)@, out@) == avatar_next(old(self)@, event@, now@),
    {
        match event {
            AvatarEvent::Started => match self.phase {
                AvatarPhase::Submitted => {
                    self.phase = AvatarPhase::Rendering;
                    self.stage = AvatarStage::Rendering { completed: 0, total: PROGRESS_TOTAL };
                    let call = self.chain.waiting();
                    self.record(now, call)
                },
                _ => AvatarOutput { status: None, call: None },
            },
            AvatarEvent::Progress { completed, total } => match self.phase {
                AvatarPhase::Rendering => {
                    let streaming = match self.chain.waiting() {
                        Some(Provider::Streaming) => true,
                        _ => false,
                    };
                    if streaming && completed > self.last_tick && completed % 5 == 0 && completed
                        <= total {
                        self.stage = AvatarStage::Rendering { completed, total };
                        self.last_tick = completed;
                        self.record(now, None)
                    } else {
                        AvatarOutput { status: None, call: None }
                    }
                },
                _ => AvatarOutput { status: None, call: None },
            },
            AvatarEvent::AttemptFinished { result } => match self.phase {
                AvatarPhase::Rendering => self.on_attempt(result, now),
                _ => AvatarOutput { status: None, call: None },
            },
        }
    }
}

/// What holds of every avatar job that a run of events has led to.
pub open spec fn avatar_well_formed(job: AvatarJobModel) -> bool {
    match job.phase {
        AvatarPhase::Submitted => job.stage is Queued,
        AvatarPhase::Rendering => {
            &&& job.stage is Rendering
            &&& job.stage.within_total()
            &&& job.stage->Rendering_completed <= job.last_tick
        },
        AvatarPhase::Done => job.stage is Done,
        AvatarPhase::Failed => job.stage is Failed,
    }
}

/// An avatar job is well formed when it is submitted.
pub proof fn avatar_submitted_is_well_formed(job_id: Seq<char>, task: ImageTask)
    ensures
        avatar_well_formed(avatar_submitted(job_id, task)),
{
}

/// One step never takes an avatar job back: the job stays well formed, a
/// recorded status carries the job's new stage, which may follow the stage
/// recorded before and whose progress is within its total, and a step that
/// records nothing leaves the stage as it was.
pub proof fn avatar_step_never_falls_back(
    job: AvatarJobModel,
    event: AvatarEventModel,
    now: Seq<char>,
)
    requires
        avatar_well_formed(job),
    ensures
        avatar_well_formed(avatar_next(job, event, now).0),
        match avatar_next(job, event, now).1.status {
            Some(status) => {
                &&& status == avatar_status_of(avatar_next(job, event, now).0, now)
                &&& job.stage.may_precede(status.stage)
                &&& status.stage.within_total()
            },
            None => avatar_next(job, event, now).0.stage == job.stage,
        },
{
}

/// An avatar job that has ended stays as it is: whatever event arrives,
/// nothing is recorded and nothing is asked for.
pub proof fn ended_avatar_job_is_final(job: AvatarJobModel, event: AvatarEventModel, now: Seq<char>)
    requires
        job.phase == AvatarPhase::Done || job.phase == AvatarPhase::Failed,
    ensures
        avatar_next(job, event, now) == avatar_ignored(job),
{
}

} // verus!
