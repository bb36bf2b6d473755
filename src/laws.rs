//! Properties of the task lifecycle that hold across operations.

use vstd::prelude::*;
use crate::export::{export_path, filename_for, planned};
use crate::formats::{EncoderKind, EncoderRegistry};
use crate::manager::{articles_applied, progress_applied};
use crate::task::{
    articles_attached, progress_update, status_named, GeneratedArticle, TaskError, TaskStatus,
    TaskView,
};

verus! {

/// Once a task is completed or failed, every later progress report on it is
/// refused and leaves the store unchanged; a report naming a known status is
/// refused as an invalid transition.
pub proof fn lemma_terminal_refuses_progress(
    before: Seq<TaskView>,
    after: Seq<TaskView>,
    r: Result<(), TaskError>,
    id: Seq<char>,
    status: Seq<char>,
    progress: u32,
    now: u64,
    i: int,
)
    requires
        progress_applied(before, after, r, id, status, progress, now),
        0 <= i < before.len(),
        before[i].id == id,
        before[i].status.is_terminal_spec(),
    ensures
        r is Err,
        after == before,
        status_named(status) matches Some(to) ==> r == Err::<(), TaskError>(
            TaskError::InvalidTransition { current: before[i].status, requested: to },
        ),
{
    assert(progress_update(before[i], status, progress, now) is Err);
}

/// Once a task is completed or failed, attaching articles to it is refused as
/// an invalid transition and leaves the store unchanged.
pub proof fn lemma_terminal_refuses_articles(
    before: Seq<TaskView>,
    after: Seq<TaskView>,
    r: Result<(), TaskError>,
    id: Seq<char>,
    articles: Seq<GeneratedArticle>,
    now: u64,
    i: int,
)
    requires
        articles_applied(before, after, r, id, articles, now),
        0 <= i < before.len(),
        before[i].id == id,
        before[i].status.is_terminal_spec(),
    ensures
        r == Err::<(), TaskError>(
            TaskError::InvalidTransition {
                current: before[i].status,
                requested: TaskStatus::Completed,
            },
        ),
        after == before,
{
    assert(articles_attached(before[i], articles, now) is Err);
}

/// Progress never moves backwards: after a task accepts `processing` at `p`,
/// a following `processing` report at `p2 < p` is refused as an invalid
/// transition and changes nothing.
pub proof fn lemma_progress_regression_refused(
    s0: Seq<TaskView>,
    s1: Seq<TaskView>,
    s2: Seq<TaskView>,
    r1: Result<(), TaskError>,
    r2: Result<(), TaskError>,
    id: Seq<char>,
    p: u32,
    p2: u32,
    now1: u64,
    now2: u64,
    i: int,
)
    requires
        progress_applied(s0, s1, r1, id, "processing"@, p, now1),
        progress_applied(s1, s2, r2, id, "processing"@, p2, now2),
        0 <= i < s0.len(),
        s0[i].id == id,
        r1 is Ok,
        p2 < p,
    ensures
        r2 == Err::<(), TaskError>(
            TaskError::InvalidTransition {
                current: TaskStatus::Processing,
                requested: TaskStatus::Processing,
            },
        ),
        s2 == s1,
{
    lemma_processing_named();
    assert(progress_update(s0[i], "processing"@, p, now1) is Ok);
    assert(s1[i].id == id);
    assert(s1[i].progress == p);
    assert(progress_update(s1[i], "processing"@, p2, now2) is Err);
}

/// Results attach to a processing task only: a pending task refuses them as
/// an invalid transition, and a processing task becomes completed at progress
/// 100, stamped with `now`, holding exactly the given articles in order.
pub proof fn lemma_attach_outcome(
    before: Seq<TaskView>,
    after: Seq<TaskView>,
    r: Result<(), TaskError>,
    id: Seq<char>,
    articles: Seq<GeneratedArticle>,
    now: u64,
    i: int,
)
    requires
        articles_applied(before, after, r, id, articles, now),
        0 <= i < before.len(),
        before[i].id == id,
    ensures
        before[i].status == TaskStatus::Pending ==> r == Err::<(), TaskError>(
            TaskError::InvalidTransition {
                current: TaskStatus::Pending,
                requested: TaskStatus::Completed,
            },
        ) && after == before,
        before[i].status == TaskStatus::Processing ==> {
            &&& r is Ok
            &&& after.len() == before.len()
            &&& after[i].status == TaskStatus::Completed
            &&& after[i].progress == 100
            &&& after[i].completed_at == Some(now)
            &&& after[i].articles == Some(articles)
        },
{
}

proof fn lemma_processing_named()
    ensures
        status_named("processing"@) == Some(TaskStatus::Processing),
{
    reveal_strlit("processing");
    reveal_strlit("pending");
    assert("processing"@.len() != "pending"@.len());
}

/// The largest of `base` and the values of `ps`.
pub open spec fn max_of(base: u32, ps: Seq<u32>) -> u32
    decreases ps.len(),
{
    if ps.len() == 0 {
        base
    } else {
        let m = max_of(base, ps.drop_last());
        if ps.last() > m {
            ps.last()
        } else {
            m
        }
    }
}

/// The record after the `processing` reports `ps`, applied one after the
/// other at time `now`, each refused report leaving it as it was.
pub open spec fn after_reports(t: TaskView, ps: Seq<u32>, now: u64) -> TaskView
    decreases ps.len(),
{
    if ps.len() == 0 {
        t
    } else {
        let prev = after_reports(t, ps.drop_last(), now);
        match progress_update(prev, "processing"@, ps.last(), now) {
            Ok(n) => n,
            Err(_) => prev,
        }
    }
}

/// However a series of `processing` reports on a processing task is ordered,
/// no update is lost: the task ends at the largest progress submitted (or its
/// own, if larger), still processing.
pub proof fn lemma_reports_reach_maximum(t: TaskView, ps: Seq<u32>, now: u64)
    requires
        t.wf(),
        t.status == TaskStatus::Processing,
        forall|k: int| 0 <= k < ps.len() ==> ps[k] <= 100,
    ensures
        after_reports(t, ps, now).progress == max_of(t.progress, ps),
        after_reports(t, ps, now).status == TaskStatus::Processing,
        after_reports(t, ps, now).id == t.id,
    decreases ps.len(),
{
    if ps.len() > 0 {
        lemma_reports_reach_maximum(t, ps.drop_last(), now);
        lemma_processing_named();
    }
}

/// An export through a pass-through encoder (such as `txt`) writes exactly the
/// content it was given.
pub proof fn lemma_passthrough_export_keeps_content(
    registry: EncoderRegistry,
    content: Seq<char>,
    format: Seq<char>,
    filename: Option<Seq<char>>,
    now: u64,
)
    requires
        registry.encoder_for(format) == Some(EncoderKind::Passthrough),
    ensures
        planned(registry, content, format, filename, now) == Ok::<
            (Seq<char>, Seq<char>),
            Seq<char>,
        >((export_path(filename_for(filename, format, now)), content)),
{
}

} // verus!
