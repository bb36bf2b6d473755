//! The task store and the lifecycle operations that enforce the state machine.
//!
//! A `TaskManager` owns every task record; callers get copies. Each mutating
//! operation takes `&mut self`, so operations on one manager are serialised by
//! whoever shares it (a mutex in a host program), and a refused operation
//! leaves every record as it was.

use vstd::prelude::*;
use crate::sources::{new_task_id, unix_time_secs};
use crate::task::{
    articles_attached, check_transition, parse_status, progress_update, GeneratedArticle,
    GenerationTask, TaskError, TaskStatus, TaskView,
};
use crate::text::str_eq;

verus! {

impl GeneratedArticle {
    /// An independent copy.
    pub fn duplicate(&self) -> (r: GeneratedArticle)
        ensures
            r == *self,
    {
        GeneratedArticle {
            title: self.title.clone(),
            content: self.content.clone(),
            word_count: self.word_count,
        }
    }
}

fn copy_articles(v: &Vec<GeneratedArticle>) -> (r: Vec<GeneratedArticle>)
    ensures
        r@ == v@,
{
    let mut r: Vec<GeneratedArticle> = Vec::new();
    let mut i: usize = 0;
    while i < v.len()
        invariant
            i <= v@.len(),
            r@ == v@.subrange(0, i as int),
        decreases v@.len() - i,
    {
        r.push(v[i].duplicate());
        i = i + 1;
        assert(r@ =~= v@.subrange(0, i as int));
    }
    assert(v@.subrange(0, v@.len() as int) =~= v@);
    r
}

impl GenerationTask {
    /// An independent copy, equal in value.
    pub fn duplicate(&self) -> (r: GenerationTask)
        ensures
            r@ == self@,
    {
        let articles = match &self.articles {
            Some(v) => Some(copy_articles(v)),
            None => None,
        };
        GenerationTask {
            id: self.id.clone(),
            company_info: self.company_info.clone(),
            product_info: self.product_info.clone(),
            article_count: self.article_count,
            status: self.status,
            progress: self.progress,
            created_at: self.created_at,
            completed_at: self.completed_at,
            articles,
        }
    }
}

/// Whether some record of `tasks` has id `id`.
pub open spec fn seq_has_id(tasks: Seq<TaskView>, id: Seq<char>) -> bool {
    exists|i: int| 0 <= i < tasks.len() && #[trigger] tasks[i].id == id
}

/// The store goes from `before` to `after` with outcome `r` when the progress
/// report `(status, progress)` at time `now` is made for task `id`: `NotFound`
/// for an unknown id, else `progress_update` of that record, with nothing
/// changed on an error.
pub open spec fn progress_applied(
    before: Seq<TaskView>,
    after: Seq<TaskView>,
    r: Result<(), TaskError>,
    id: Seq<char>,
    status: Seq<char>,
    progress: u32,
    now: u64,
) -> bool {
    &&& !seq_has_id(before, id) ==> r == Err::<(), TaskError>(TaskError::NotFound) && after
        == before
    &&& forall|i: int|
        0 <= i < before.len() && before[i].id == id ==> match progress_update(
            #[trigger] before[i],
            status,
            progress,
            now,
        ) {
            Ok(n) => r == Ok::<(), TaskError>(()) && after == before.update(i, n),
            Err(e) => r == Err::<(), TaskError>(e) && after == before,
        }
}

/// The store goes from `before` to `after` with outcome `r` when `articles`
/// are attached at time `now` to task `id`: `NotFound` for an unknown id, else
/// `articles_attached` of that record, with nothing changed on an error.
pub open spec fn articles_applied(
    before: Seq<TaskView>,
    after: Seq<TaskView>,
    r: Result<(), TaskError>,
    id: Seq<char>,
    articles: Seq<GeneratedArticle>,
    now: u64,
) -> bool {
    &&& !seq_has_id(before, id) ==> r == Err::<(), TaskError>(TaskError::NotFound) && after
        == before
    &&& forall|i: int|
        0 <= i < before.len() && before[i].id == id ==> match articles_attached(
            #[trigger] before[i],
            articles,
            now,
        ) {
            Ok(n) => r == Ok::<(), TaskError>(()) && after == before.update(i, n),
            Err(e) => r == Err::<(), TaskError>(e) && after == before,
        }
}

/// The keyed store of generation tasks, in creation order.
pub struct TaskManager {
    tasks: Vec<GenerationTask>,
}

impl View for TaskManager {
    type V = Seq<TaskView>;

    closed spec fn view(&self) -> Seq<TaskView> {
        self.tasks@.map_values(|t: GenerationTask| t@)
    }
}

impl TaskManager {
    /// Every record is well-formed and no two records share an id.
    pub open spec fn wf(&self) -> bool {
        &&& forall|i: int| 0 <= i < self@.len() ==> (#[trigger] self@[i]).wf()
        &&& forall|i: int, j: int|
            0 <= i < self@.len() && 0 <= j < self@.len() && i != j ==> #[trigger] self@[i].id
                != #[trigger] self@[j].id
    }

    /// Whether some record has id `id`.
    pub open spec fn has_id(&self, id: Seq<char>) -> bool {
        seq_has_id(self@, id)
    }

    /// An empty store.
    pub fn new() -> (r: TaskManager)
        ensures
            r.wf(),
            r@ == Seq::<TaskView>::empty(),
    {
        let r = TaskManager { tasks: Vec::new() };
        assert(r@ =~= Seq::<TaskView>::empty());
        r
    }

    fn position(&self, id: &str) -> (r: Option<usize>)
        ensures
            match r {
                Some(i) => i < self@.len() && self@[i as int].id == id@,
                None => !self.has_id(id@),
            },
    {
        let mut i: usize = 0;
        while i < self.tasks.len()
            invariant
                i <= self@.len(),
                self@.len() == self.tasks@.len(),
                forall|k: int| 0 <= k < i ==> self@[k].id != id@,
            decreases self.tasks@.len() - i,
        {
            if str_eq(self.tasks[i].id.as_str(), id) {
                return Some(i);
            }
            i = i + 1;
        }
        None
    }

    fn longest_id(&self) -> (m: usize)
        ensures
            forall|i: int| 0 <= i < self@.len() ==> (#[trigger] self@[i]).id.len() <= m,
    {
        let mut m: usize = 0;
        let mut i: usize = 0;
        while i < self.tasks.len()
            invariant
                i <= self@.len(),
                self@.len() == self.tasks@.len(),
                forall|k: int| 0 <= k < i ==> (#[trigger] self@[k]).id.len() <= m,
            decreases self.tasks@.len() - i,
        {
            let n = self.tasks[i].id.as_str().unicode_len();
            if n > m {
                m = n;
            }
            i = i + 1;
        }
        m
    }

    /// `candidate`, or `candidate` followed by enough dashes to differ from
    /// every stored id.
    fn fresh_id(&self, candidate: String) -> (r: String)
        ensures
            !self.has_id(r@),
            candidate@.len() <= r@.len(),
            r@.subrange(0, candidate@.len() as int) == candidate@,
            !self.has_id(candidate@) ==> r@ == candidate@,
    {
        let m = self.longest_id();
        let mut id = candidate;
        proof {
            reveal_strlit("-");
            assert(id@.subrange(0, candidate@.len() as int) =~= candidate@);
        }
        while id.as_str().unicode_len() <= m && self.position(id.as_str()).is_some()
            invariant
                forall|i: int| 0 <= i < self@.len() ==> (#[trigger] self@[i]).id.len() <= m,
                candidate@.len() <= id@.len(),
                id@.subrange(0, candidate@.len() as int) == candidate@,
                !self.has_id(candidate@) ==> id@ == candidate@,
            decreases m + 1 - id@.len(),
        {
            let ghost before = id@;
            proof {
                reveal_strlit("-");
            }
            id.append("-");
            assert(id@.subrange(0, candidate@.len() as int) =~= before.subrange(
                0,
                candidate@.len() as int,
            ));
        }
        id
    }

    /// Every task, as copies, in creation order.
    pub fn list_tasks(&self) -> (r: Vec<GenerationTask>)
        ensures
            r@.map_values(|t: GenerationTask| t@) == self@,
    {
        let mut r: Vec<GenerationTask> = Vec::new();
        let mut i: usize = 0;
        while i < self.tasks.len()
            invariant
                i <= self.tasks@.len(),
                self@.len() == self.tasks@.len(),
                r@.len() == i,
                forall|k: int| 0 <= k < i ==> (#[trigger] r@[k])@ == self@[k],
            decreases self.tasks@.len() - i,
        {
            let c = self.tasks[i].duplicate();
            assert(c@ == self@[i as int]);
            r.push(c);
            i = i + 1;
        }
        assert(r@.map_values(|t: GenerationTask| t@) =~= self@);
        r
    }

    /// A copy of the task with id `id`, if there is one.
    pub fn get_task(&self, id: &str) -> (r: Option<GenerationTask>)
        requires
            self.wf(),
        ensures
            r is Some <==> self.has_id(id@),
            forall|i: int| 0 <= i < self@.len() && self@[i].id == id@ ==> (r matches Some(t) && t@ == self@[i]),
    {
        match self.position(id) {
            Some(i) => Some(self.tasks[i].duplicate()),
            None => None,
        }
    }

    /// Creates a pending task with a fresh id and the given creation time.
    ///
    /// The id is `candidate_id`, extended with dashes where a stored task
    /// already has it, so it differs from every id in the store.
    pub fn create_task_with(
        &mut self,
        candidate_id: String,
        now: u64,
        company_info: String,
        product_info: String,
        article_count: u32,
    ) -> (r: Result<GenerationTask, TaskError>)
        requires
            old(self).wf(),
        ensures
            final(self).wf(),
            article_count == 0 ==> r == Err::<GenerationTask, TaskError>(TaskError::InvalidInput)
                && final(self)@ == old(self)@,
            article_count > 0 ==> (r matches Ok(t) && {
                &&& !old(self).has_id(t.id@)
                &&& t.id@.subrange(0, candidate_id@.len() as int) == candidate_id@
                &&& !old(self).has_id(candidate_id@) ==> t.id@ == candidate_id@
                &&& t@ == (TaskView {
                    id: t.id@,
                    company_info: company_info@,
                    product_info: product_info@,
                    article_count,
                    status: TaskStatus::Pending,
                    progress: 0,
                    created_at: now,
                    completed_at: None,
                    articles: None,
                })
                &&& final(self)@ == old(self)@.push(t@)
            }),
    {
        if article_count == 0 {
            return Err(TaskError::InvalidInput);
        }
        let id = self.fresh_id(candidate_id);
        let task = GenerationTask {
            id,
            company_info,
            product_info,
            article_count,
            status: TaskStatus::Pending,
            progress: 0,
            created_at: now,
            completed_at: None,
            articles: None,
        };
        let copy = task.duplicate();
        self.tasks.push(task);
        assert(self@ =~= old(self)@.push(copy@));
        Ok(copy)
    }

    /// Creates a pending task with a new random id, stamped with the current
    /// time. Fails with `InvalidInput` exactly when `article_count` is zero.
    pub fn create_task(
        &mut self,
        company_info: String,
        product_info: String,
        article_count: u32,
    ) -> (r: Result<GenerationTask, TaskError>)
        requires
            old(self).wf(),
        ensures
            final(self).wf(),
            article_count == 0 ==> r == Err::<GenerationTask, TaskError>(TaskError::InvalidInput)
                && final(self)@ == old(self)@,
            article_count > 0 ==> (r matches Ok(t) && {
                &&& !old(self).has_id(t.id@)
                &&& t.company_info@ == company_info@
                &&& t.product_info@ == product_info@
                &&& t.article_count == article_count
                &&& t.status == TaskStatus::Pending
                &&& t.progress == 0
                &&& t.completed_at is None
                &&& t.articles is None
                &&& final(self)@ == old(self)@.push(t@)
            }),
    {
        let id = new_task_id();
        let now = unix_time_secs();
        self.create_task_with(id, now, company_info, product_info, article_count)
    }

    /// Applies the progress report `(status, progress)` to task `id`, stamping
    /// a terminal transition with `now`.
    ///
    /// An unknown id gives `NotFound`; otherwise the outcome is exactly
    /// `progress_update` of the stored record. Nothing changes on an error.
    pub fn update_task_progress_at(
        &mut self,
        id: &str,
        status: &str,
        progress: u32,
        now: u64,
    ) -> (r: Result<(), TaskError>)
        requires
            old(self).wf(),
        ensures
            final(self).wf(),
            progress_applied(old(self)@, final(self)@, r, id@, status@, progress, now),
    {
        let i = match self.position(id) {
            Some(i) => i,
            None => return Err(TaskError::NotFound),
        };
        let ghost t = self@[i as int];
        let cur = self.tasks[i].status;
        let to = match parse_status(status) {
            Some(s) => s,
            None => return Err(TaskError::InvalidInput),
        };
        if !check_transition(cur, to) {
            return Err(TaskError::InvalidTransition { current: cur, requested: to });
        }
        if progress > 100 {
            return Err(TaskError::InvalidInput);
        }
        let old_progress = self.tasks[i].progress;
        let (new_progress, completed_at) = match to {
            TaskStatus::Processing => {
                if cur == TaskStatus::Processing && progress < old_progress {
                    return Err(TaskError::InvalidTransition { current: cur, requested: to });
                }
                (progress, None)
            },
            TaskStatus::Completed => (100, Some(now)),
            _ => (old_progress, Some(now)),
        };
        let nt = GenerationTask {
            id: self.tasks[i].id.clone(),
            company_info: self.tasks[i].company_info.clone(),
            product_info: self.tasks[i].product_info.clone(),
            article_count: self.tasks[i].article_count,
            status: to,
            progress: new_progress,
            created_at: self.tasks[i].created_at,
            completed_at,
            articles: None,
        };
        assert(self@[i as int].wf());
        assert(nt@ == progress_update(t, status@, progress, now).unwrap());
        self.tasks.set(i, nt);
        proof {
            assert(self@ =~= old(self)@.update(i as int, nt@));
            assert forall|a: int, b: int|
                0 <= a < self@.len() && 0 <= b < self@.len() && a != b implies #[trigger] self@[a].id
                != #[trigger] self@[b].id by {
                assert(old(self)@[a].id != old(self)@[b].id);
            }
        }
        Ok(())
    }

    /// Applies a progress report to task `id`, stamping a terminal transition
    /// with the current time.
    pub fn update_task_progress(&mut self, id: &str, status: &str, progress: u32) -> (r: Result<(), TaskError>)
        requires
            old(self).wf(),
        ensures
            final(self).wf(),
            exists|now: u64|
                #[trigger] progress_applied(old(self)@, final(self)@, r, id@, status@, progress, now),
    {
        let now = unix_time_secs();
        let r = self.update_task_progress_at(id, status, progress, now);
        assert(progress_applied(old(self)@, self@, r, id@, status@, progress, now));
        r
    }

    /// Attaches the generated `articles` to task `id` at time `now`, which
    /// completes it; only a processing task takes results.
    pub fn attach_task_articles_at(
        &mut self,
        id: &str,
        articles: Vec<GeneratedArticle>,
        now: u64,
    ) -> (r: Result<(), TaskError>)
        requires
            old(self).wf(),
        ensures
            final(self).wf(),
            articles_applied(old(self)@, final(self)@, r, id@, articles@, now),
    {
        let i = match self.position(id) {
            Some(i) => i,
            None => return Err(TaskError::NotFound),
        };
        let ghost t = self@[i as int];
        let cur = self.tasks[i].status;
        if cur != TaskStatus::Processing {
            return Err(TaskError::InvalidTransition { current: cur, requested: TaskStatus::Completed });
        }
        let nt = GenerationTask {
            id: self.tasks[i].id.clone(),
            company_info: self.tasks[i].company_info.clone(),
            product_info: self.tasks[i].product_info.clone(),
            article_count: self.tasks[i].article_count,
            status: TaskStatus::Completed,
            progress: 100,
            created_at: self.tasks[i].created_at,
            completed_at: Some(now),
            articles: Some(articles),
        };
        assert(nt@ == articles_attached(t, articles@, now).unwrap());
        self.tasks.set(i, nt);
        proof {
            assert(self@ =~= old(self)@.update(i as int, nt@));
            assert forall|a: int, b: int|
                0 <= a < self@.len() && 0 <= b < self@.len() && a != b implies #[trigger] self@[a].id
                != #[trigger] self@[b].id by {
                assert(old(self)@[a].id != old(self)@[b].id);
            }
        }
        Ok(())
    }

    /// Attaches the generated `articles` to task `id`, completing it at the
    /// current time.
    pub fn attach_task_articles(&mut self, id: &str, articles: Vec<GeneratedArticle>) -> (r: Result<(), TaskError>)
        requires
            old(self).wf(),
        ensures
            final(self).wf(),
            exists|now: u64|
                #[trigger] articles_applied(old(self)@, final(self)@, r, id@, articles@, now),
    {
        let ghost v = articles@;
        let now = unix_time_secs();
        let r = self.attach_task_articles_at(id, articles, now);
        assert(articles_applied(old(self)@, self@, r, id@, v, now));
        r
    }
}

} // verus!
