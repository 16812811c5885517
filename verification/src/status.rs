//! What a poller sees of a job: its stage and the status record around it.

use vstd::prelude::*;
use crate::json::string_view;

verus! {

/// The phase of a comic job, as recorded in its status.
#[derive(Debug, Clone)]
pub enum ComicStage {
    Queued,
    Parsing,
    Storyboarding,
    Prompting,
    Rendering { completed: u32, total: u32 },
    Saving,
    Done,
    Failed { error: String },
}

/// A [`ComicStage`] as plain values.
pub enum StageModel {
    Queued,
    Parsing,
    Storyboarding,
    Prompting,
    Rendering { completed: u32, total: u32 },
    Saving,
    Done,
    Failed { error: Seq<char> },
}

impl View for ComicStage {
    type V = StageModel;

    open spec fn view(&self) -> StageModel {
        match self {
            ComicStage::Queued => StageModel::Queued,
            ComicStage::Parsing => StageModel::Parsing,
            ComicStage::Storyboarding => StageModel::Storyboarding,
            ComicStage::Prompting => StageModel::Prompting,
            ComicStage::Rendering { completed, total } => StageModel::Rendering {
                completed: *completed,
                total: *total,
            },
            ComicStage::Saving => StageModel::Saving,
            ComicStage::Done => StageModel::Done,
            ComicStage::Failed { error } => StageModel::Failed { error: error@ },
        }
    }
}

impl StageModel {
    /// The place of a stage in the order in which a job passes through
    /// them. A failure ranks above every stage, since nothing follows it.
    pub open spec fn rank(self) -> nat {
        match self {
            StageModel::Queued => 0,
            StageModel::Parsing => 1,
            StageModel::Storyboarding => 2,
            StageModel::Prompting => 3,
            StageModel::Rendering { .. } => 4,
            StageModel::Saving => 5,
            StageModel::Done => 6,
            StageModel::Failed { .. } => 7,
        }
    }

    /// Whether nothing is recorded after this stage.
    pub open spec fn is_terminal(self) -> bool {
        self is Done || self is Failed
    }

    /// Whether the progress of a rendering stage is within its total; true
    /// of every other stage.
    pub open spec fn within_total(self) -> bool {
        match self {
            StageModel::Rendering { completed, total } => completed <= total,
            _ => true,
        }
    }

    /// Whether a poller may see `next` after `self`: `self` is not
    /// terminal, `next` does not rank below it, and from one rendering
    /// stage to the next the progress does not fall.
    pub open spec fn may_precede(self, next: StageModel) -> bool {
        &&& !self.is_terminal()
        &&& self.rank() <= next.rank()
        &&& match (self, next) {
            (
                StageModel::Rendering { completed: before, .. },
                StageModel::Rendering { completed: after, .. },
            ) => before <= after,
            _ => true,
        }
    }
}

impl ComicStage {
    /// Whether nothing is recorded after this stage.
    pub fn is_terminal(&self) -> (r: bool)
        ensures
            r == self@.is_terminal(),
    {
        match self {
            ComicStage::Done => true,
            ComicStage::Failed { .. } => true,
            _ => false,
        }
    }

    /// A copy of the stage.
    pub fn duplicate(&self) -> (r: ComicStage)
        ensures
            r@ == self@,
    {
        match self {
            ComicStage::Queued => ComicStage::Queued,
            ComicStage::Parsing => ComicStage::Parsing,
            ComicStage::Storyboarding => ComicStage::Storyboarding,
            ComicStage::Prompting => ComicStage::Prompting,
            ComicStage::Rendering { completed, total } => ComicStage::Rendering {
                completed: *completed,
                total: *total,
            },
            ComicStage::Saving => ComicStage::Saving,
            ComicStage::Done => ComicStage::Done,
            ComicStage::Failed { error } => ComicStage::Failed { error: error.clone() },
        }
    }
}

/// The status of a comic job as pollers receive it.
#[derive(Debug, Clone)]
pub struct ComicJobStatus {
    pub job_id: String,
    pub entry_id: String,
    pub style: String,
    pub stage: ComicStage,
    pub updated_at: String,
    pub result_image_path: Option<String>,
    pub storyboard_text: Option<String>,
}

/// A [`ComicJobStatus`] as plain values.
pub struct StatusModel {
    pub job_id: Seq<char>,
    pub entry_id: Seq<char>,
    pub style: Seq<char>,
    pub stage: StageModel,
    pub updated_at: Seq<char>,
    pub result_image_path: Option<Seq<char>>,
    pub storyboard_text: Option<Seq<char>>,
}

impl View for ComicJobStatus {
    type V = StatusModel;

    open spec fn view(&self) -> StatusModel {
        StatusModel {
            job_id: self.job_id@,
            entry_id: self.entry_id@,
            style: self.style@,
            stage: self.stage@,
            updated_at: self.updated_at@,
            result_image_path: string_view(self.result_image_path),
            storyboard_text: string_view(self.storyboard_text),
        }
    }
}

/// A copy of an optional text.
pub fn duplicate_text(text: &Option<String>) -> (r: Option<String>)
    ensures
        string_view(r) == string_view(*text),
{
    match text {
        Some(s) => Some(s.clone()),
        None => None,
    }
}

impl ComicJobStatus {
    /// A copy of the status.
    pub fn duplicate(&self) -> (r: ComicJobStatus)
        ensures
            r@ == self@,
    {
        ComicJobStatus {
            job_id: self.job_id.clone(),
            entry_id: self.entry_id.clone(),
            style: self.style.clone(),
            stage: self.stage.duplicate(),
            updated_at: self.updated_at.clone(),
            result_image_path: duplicate_text(&self.result_image_path),
            storyboard_text: duplicate_text(&self.storyboard_text),
        }
    }
}

/// The phase of an avatar job, as recorded in its status.
#[derive(Debug, Clone)]
pub enum AvatarStage {
    Queued,
    Rendering { completed: u32, total: u32 },
    Done,
    Failed { error: String },
}

/// An [`AvatarStage`] as plain values.
pub enum AvatarStageModel {
    Queued,
    Rendering { completed: u32, total: u32 },
    Done,
    Failed { error: Seq<char> },
}

impl View for AvatarStage {
    type V = AvatarStageModel;

    open spec fn view(&self) -> AvatarStageModel {
        match self {
            AvatarStage::Queued => AvatarStageModel::Queued,
            AvatarStage::Rendering { completed, total } => AvatarStageModel::Rendering {
                completed: *completed,
                total: *total,
            },
            AvatarStage::Done => AvatarStageModel::Done,
            AvatarStage::Failed { error } => AvatarStageModel::Failed { error: error@ },
        }
    }
}

impl AvatarStageModel {
    /// The place of a stage in the order in which a job passes through
    /// them. A failure ranks above every stage.
    pub open spec fn rank(self) -> nat {
        match self {
            AvatarStageModel::Queued => 0,
            AvatarStageModel::Rendering { .. } => 1,
            AvatarStageModel::Done => 2,
            AvatarStageModel::Failed { .. } => 3,
        }
    }

    /// Whether nothing is recorded after this stage.
    pub open spec fn is_terminal(self) -> bool {
        self is Done || self is Failed
    }

    /// Whether the progress of a rendering stage is within its total.
    pub open spec fn within_total(self) -> bool {
        match self {
            AvatarStageModel::Rendering { completed, total } => completed <= total,
            _ => true,
        }
    }

    /// Whether a poller may see `next` after `self`.
    pub open spec fn may_precede(self, next: AvatarStageModel) -> bool {
        &&& !self.is_terminal()
        &&& self.rank() <= next.rank()
        &&& match (self, next) {
            (
                AvatarStageModel::Rendering { completed: before, .. },
                AvatarStageModel::Rendering { completed: after, .. },
            ) => before <= after,
            _ => true,
        }
    }
}

impl AvatarStage {
    /// A copy of the stage.
    pub fn duplicate(&self) -> (r: AvatarStage)
        ensures
            r@ == self@,
    {
        match self {
            AvatarStage::Queued => AvatarStage::Queued,
            AvatarStage::Rendering { completed, total } => AvatarStage::Rendering {
                completed: *completed,
                total: *total,
            },
            AvatarStage::Done => AvatarStage::Done,
            AvatarStage::Failed { error } => AvatarStage::Failed { error: error.clone() },
        }
    }
}

/// The status of an avatar job as pollers receive it.
#[derive(Debug, Clone)]
pub struct AvatarJobStatus {
    pub job_id: String,
    pub stage: AvatarStage,
    pub updated_at: String,
    pub image_base64: Option<String>,
}

/// An [`AvatarJobStatus`] as plain values.
pub struct AvatarStatusModel {
    pub job_id: Seq<char>,
    pub stage: AvatarStageModel,
    pub updated_at: Seq<char>,
    pub image_base64: Option<Seq<char>>,
}

impl View for AvatarJobStatus {
    type V = AvatarStatusModel;

    open spec fn view(&self) -> AvatarStatusModel {
        AvatarStatusModel {
            job_id: self.job_id@,
            stage: self.stage@,
            updated_at: self.updated_at@,
            image_base64: string_view(self.image_base64),
        }
    }
}

impl AvatarJobStatus {
    /// A copy of the status.
    pub fn duplicate(&self) -> (r: AvatarJobStatus)
        ensures
            r@ == self@,
    {
        AvatarJobStatus {
            job_id: self.job_id.clone(),
            stage: self.stage.duplicate(),
            updated_at: self.updated_at.clone(),
            image_base64: duplicate_text(&self.image_base64),
        }
    }
}

} // verus!
