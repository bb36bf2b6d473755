//! Generation tasks, their status state machine and the pure transition rules.

use vstd::prelude::*;
use crate::text::str_eq;

verus! {

/// Where a generation task stands in its lifecycle.
#[derive(PartialEq, Eq, Structural, Clone, Copy, Debug)]
pub enum TaskStatus {
    Pending,
    Processing,
    Completed,
    Failed,
}

impl TaskStatus {
    /// Completed and failed tasks accept no further transition.
    pub open spec fn is_terminal_spec(self) -> bool {
        self == TaskStatus::Completed || self == TaskStatus::Failed
    }

    #[verifier::when_used_as_spec(is_terminal_spec)]
    pub fn is_terminal(self) -> (r: bool)
        ensures
            r == self.is_terminal_spec(),
    {
        matches!(self, TaskStatus::Completed | TaskStatus::Failed)
    }
}

/// Why a lifecycle operation was refused; a refused operation changes nothing.
#[derive(PartialEq, Eq, Structural, Clone, Copy, Debug)]
pub enum TaskError {
    /// A malformed argument: zero article count, progress above 100, or an
    /// unrecognised status name.
    InvalidInput,
    /// No task has the given id.
    NotFound,
    /// The state machine does not allow moving from `current` to `requested`.
    InvalidTransition { current: TaskStatus, requested: TaskStatus },
}

/// One produced document.
#[derive(Clone, Debug)]
pub struct GeneratedArticle {
    pub title: String,
    pub content: String,
    pub word_count: u32,
}

/// One request to produce a number of articles.
#[derive(Clone, Debug)]
pub struct GenerationTask {
    pub id: String,
    pub company_info: String,
    pub product_info: String,
    pub article_count: u32,
    pub status: TaskStatus,
    pub progress: u32,
    pub created_at: u64,
    pub completed_at: Option<u64>,
    pub articles: Option<Vec<GeneratedArticle>>,
}

/// The status named by `s`, if it names one.
pub open spec fn status_named(s: Seq<char>) -> Option<TaskStatus> {
    if s == "pending"@ {
        Some(TaskStatus::Pending)
    } else if s == "processing"@ {
        Some(TaskStatus::Processing)
    } else if s == "completed"@ {
        Some(TaskStatus::Completed)
    } else if s == "failed"@ {
        Some(TaskStatus::Failed)
    } else {
        None
    }
}

/// Reads a status name (`pending`, `processing`, `completed`, `failed`).
pub fn parse_status(s: &str) -> (r: Option<TaskStatus>)
    ensures
        r == status_named(s@),
{
    if str_eq(s, "pending") {
        Some(TaskStatus::Pending)
    } else if str_eq(s, "processing") {
        Some(TaskStatus::Processing)
    } else if str_eq(s, "completed") {
        Some(TaskStatus::Completed)
    } else if str_eq(s, "failed") {
        Some(TaskStatus::Failed)
    } else {
        None
    }
}

/// Whether the state machine has an edge from `from` to `to`.
pub open spec fn transition_allowed(from: TaskStatus, to: TaskStatus) -> bool {
    match (from, to) {
        (TaskStatus::Pending, TaskStatus::Processing) => true,
        (TaskStatus::Pending, TaskStatus::Failed) => true,
        (TaskStatus::Processing, TaskStatus::Processing) => true,
        (TaskStatus::Processing, TaskStatus::Completed) => true,
        (TaskStatus::Processing, TaskStatus::Failed) => true,
        _ => false,
    }
}

/// Decides whether the state machine has an edge from `from` to `to`.
pub fn check_transition(from: TaskStatus, to: TaskStatus) -> (r: bool)
    ensures
        r == transition_allowed(from, to),
{
    match (from, to) {
        (TaskStatus::Pending, TaskStatus::Processing) => true,
        (TaskStatus::Pending, TaskStatus::Failed) => true,
        (TaskStatus::Processing, TaskStatus::Processing) => true,
        (TaskStatus::Processing, TaskStatus::Completed) => true,
        (TaskStatus::Processing, TaskStatus::Failed) => true,
        _ => false,
    }
}

/// The abstract value of a task: its strings as character sequences and its
/// articles, when present, as a sequence.
pub struct TaskView {
    pub id: Seq<char>,
    pub company_info: Seq<char>,
    pub product_info: Seq<char>,
    pub article_count: u32,
    pub status: TaskStatus,
    pub progress: u32,
    pub created_at: u64,
    pub completed_at: Option<u64>,
    pub articles: Option<Seq<GeneratedArticle>>,
}

impl View for GenerationTask {
    type V = TaskView;

    open spec fn view(&self) -> TaskView {
        TaskView {
            id: self.id@,
            company_info: self.company_info@,
            product_info: self.product_info@,
            article_count: self.article_count,
            status: self.status,
            progress: self.progress,
            created_at: self.created_at,
            completed_at: self.completed_at,
            articles: match self.articles {
                Some(v) => Some(v@),
                None => None,
            },
        }
    }
}

impl TaskView {
    /// The record invariant: a positive article count, progress in 0..=100,
    /// a completion stamp exactly on terminal tasks, articles only on completed
    /// tasks, and full progress on completed tasks.
    pub open spec fn wf(self) -> bool {
        &&& self.article_count > 0
        &&& self.progress <= 100
        &&& (self.completed_at is Some <==> self.status.is_terminal_spec())
        &&& (self.articles is Some ==> self.status == TaskStatus::Completed)
        &&& (self.status == TaskStatus::Completed ==> self.progress == 100)
    }
}

/// What a progress report `(status, progress)` at time `now` makes of `t`.
///
/// The checks come in this order: the status must be named, the transition
/// must be allowed, the progress must be at most 100, and a task that keeps
/// processing may not move its progress backwards. A task entering `completed`
/// gets progress 100; one entering `failed` keeps its last progress.
pub open spec fn progress_update(
    t: TaskView,
    status: Seq<char>,
    progress: u32,
    now: u64,
) -> Result<TaskView, TaskError> {
    match status_named(status) {
        None => Err(TaskError::InvalidInput),
        Some(to) => if !transition_allowed(t.status, to) {
            Err(TaskError::InvalidTransition { current: t.status, requested: to })
        } else if progress > 100 {
            Err(TaskError::InvalidInput)
        } else if to == TaskStatus::Processing {
            if t.status == TaskStatus::Processing && progress < t.progress {
                Err(TaskError::InvalidTransition { current: t.status, requested: to })
            } else {
                Ok(TaskView { status: to, progress: progress, ..t })
            }
        } else if to == TaskStatus::Completed {
            Ok(TaskView { status: to, progress: 100, completed_at: Some(now), ..t })
        } else {
            Ok(TaskView { status: to, completed_at: Some(now), ..t })
        },
    }
}

/// What attaching `articles` at time `now` makes of `t`: only a processing
/// task takes results, and it becomes completed at full progress.
pub open spec fn articles_attached(
    t: TaskView,
    articles: Seq<GeneratedArticle>,
    now: u64,
) -> Result<TaskView, TaskError> {
    if t.status == TaskStatus::Processing {
        Ok(
            TaskView {
                status: TaskStatus::Completed,
                progress: 100,
                completed_at: Some(now),
                articles: Some(articles),
                ..t
            },
        )
    } else {
        Err(TaskError::InvalidTransition { current: t.status, requested: TaskStatus::Completed })
    }
}

} // verus!
