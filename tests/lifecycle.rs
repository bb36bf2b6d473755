use content_tasks::manager::TaskManager;
use content_tasks::task::{parse_status, GeneratedArticle, TaskError, TaskStatus};

fn started(m: &mut TaskManager) -> String {
    let t = m
        .create_task_with("task-a".to_string(), 1000, "Acme".to_string(), "Widget".to_string(), 3)
        .unwrap();
    t.id
}

fn article(title: &str, content: &str, words: u32) -> GeneratedArticle {
    GeneratedArticle { title: title.to_string(), content: content.to_string(), word_count: words }
}

#[test]
fn create_task_starts_pending() {
    let mut m = TaskManager::new();
    let t = m.create_task("Acme".to_string(), "Widget".to_string(), 5).unwrap();
    assert_eq!(t.status, TaskStatus::Pending);
    assert_eq!(t.progress, 0);
    assert_eq!(t.completed_at, None);
    assert!(t.articles.is_none());
    assert_eq!(t.article_count, 5);
    assert_eq!(t.company_info, "Acme");
    assert_eq!(t.product_info, "Widget");
    assert_eq!(t.id.chars().count(), 36);
    assert_eq!(m.list_tasks().len(), 1);
}

#[test]
fn create_task_rejects_zero_articles() {
    let mut m = TaskManager::new();
    let r = m.create_task("Acme".to_string(), "Widget".to_string(), 0);
    assert_eq!(r.unwrap_err(), TaskError::InvalidInput);
    assert!(m.list_tasks().is_empty());
}

#[test]
fn created_ids_are_distinct() {
    let mut m = TaskManager::new();
    let mut ids: Vec<String> = Vec::new();
    for _ in 0..20 {
        let t = m.create_task("a".to_string(), "b".to_string(), 1).unwrap();
        assert!(!ids.contains(&t.id));
        ids.push(t.id);
    }
}

#[test]
fn colliding_candidate_id_is_extended() {
    let mut m = TaskManager::new();
    let a = m.create_task_with("x".to_string(), 1, "a".to_string(), "b".to_string(), 1).unwrap();
    let b = m.create_task_with("x".to_string(), 2, "a".to_string(), "b".to_string(), 1).unwrap();
    let c = m.create_task_with("x".to_string(), 3, "a".to_string(), "b".to_string(), 1).unwrap();
    assert_eq!(a.id, "x");
    assert_eq!(b.id, "x-");
    assert_eq!(c.id, "x--");
    assert_eq!(b.created_at, 2);
}

#[test]
fn list_tasks_keeps_creation_order() {
    let mut m = TaskManager::new();
    m.create_task_with("one".to_string(), 1, "a".to_string(), "b".to_string(), 1).unwrap();
    m.create_task_with("two".to_string(), 2, "a".to_string(), "b".to_string(), 2).unwrap();
    let all = m.list_tasks();
    assert_eq!(all.len(), 2);
    assert_eq!(all[0].id, "one");
    assert_eq!(all[1].id, "two");
    assert_eq!(all[1].article_count, 2);
}

#[test]
fn get_task_finds_by_id() {
    let mut m = TaskManager::new();
    let id = started(&mut m);
    assert_eq!(m.get_task(&id).unwrap().company_info, "Acme");
    assert!(m.get_task("missing").is_none());
}

#[test]
fn update_unknown_task_is_not_found() {
    let mut m = TaskManager::new();
    started(&mut m);
    assert_eq!(m.update_task_progress("nope", "processing", 10), Err(TaskError::NotFound));
}

#[test]
fn update_rejects_unknown_status() {
    let mut m = TaskManager::new();
    let id = started(&mut m);
    assert_eq!(m.update_task_progress(&id, "running", 10), Err(TaskError::InvalidInput));
    assert_eq!(m.get_task(&id).unwrap().status, TaskStatus::Pending);
}

#[test]
fn update_rejects_progress_over_hundred() {
    let mut m = TaskManager::new();
    let id = started(&mut m);
    assert_eq!(m.update_task_progress(&id, "processing", 101), Err(TaskError::InvalidInput));
    assert_eq!(m.get_task(&id).unwrap().progress, 0);
}

#[test]
fn pending_to_processing_records_progress() {
    let mut m = TaskManager::new();
    let id = started(&mut m);
    assert_eq!(m.update_task_progress(&id, "processing", 40), Ok(()));
    let t = m.get_task(&id).unwrap();
    assert_eq!(t.status, TaskStatus::Processing);
    assert_eq!(t.progress, 40);
    assert_eq!(t.completed_at, None);
}

#[test]
fn pending_cannot_complete_directly() {
    let mut m = TaskManager::new();
    let id = started(&mut m);
    assert_eq!(
        m.update_task_progress(&id, "completed", 100),
        Err(TaskError::InvalidTransition {
            current: TaskStatus::Pending,
            requested: TaskStatus::Completed
        })
    );
}

#[test]
fn pending_can_fail_directly() {
    let mut m = TaskManager::new();
    let id = started(&mut m);
    assert_eq!(m.update_task_progress_at(&id, "failed", 0, 77), Ok(()));
    let t = m.get_task(&id).unwrap();
    assert_eq!(t.status, TaskStatus::Failed);
    assert_eq!(t.completed_at, Some(77));
    assert_eq!(t.progress, 0);
}

#[test]
fn failing_freezes_progress() {
    let mut m = TaskManager::new();
    let id = started(&mut m);
    m.update_task_progress(&id, "processing", 35).unwrap();
    assert_eq!(m.update_task_progress_at(&id, "failed", 90, 500), Ok(()));
    let t = m.get_task(&id).unwrap();
    assert_eq!(t.progress, 35);
    assert_eq!(t.completed_at, Some(500));
}

#[test]
fn completing_by_report_sets_full_progress() {
    let mut m = TaskManager::new();
    let id = started(&mut m);
    m.update_task_progress(&id, "processing", 60).unwrap();
    assert_eq!(m.update_task_progress_at(&id, "completed", 70, 900), Ok(()));
    let t = m.get_task(&id).unwrap();
    assert_eq!(t.status, TaskStatus::Completed);
    assert_eq!(t.progress, 100);
    assert_eq!(t.completed_at, Some(900));
}

#[test]
fn terminal_task_refuses_everything() {
    let mut m = TaskManager::new();
    let id = started(&mut m);
    m.update_task_progress(&id, "processing", 10).unwrap();
    m.update_task_progress(&id, "completed", 100).unwrap();
    for s in ["pending", "processing", "completed", "failed"] {
        let r = m.update_task_progress(&id, s, 50);
        assert!(matches!(r, Err(TaskError::InvalidTransition { current: TaskStatus::Completed, .. })));
    }
    let r = m.attach_task_articles(&id, vec![article("t", "c", 1)]);
    assert_eq!(
        r,
        Err(TaskError::InvalidTransition {
            current: TaskStatus::Completed,
            requested: TaskStatus::Completed
        })
    );
    let t = m.get_task(&id).unwrap();
    assert_eq!(t.progress, 100);
    assert!(t.articles.is_none());
}

#[test]
fn failed_task_refuses_everything() {
    let mut m = TaskManager::new();
    let id = started(&mut m);
    m.update_task_progress(&id, "failed", 0).unwrap();
    assert!(matches!(
        m.update_task_progress(&id, "processing", 10),
        Err(TaskError::InvalidTransition { current: TaskStatus::Failed, .. })
    ));
    assert!(m.attach_task_articles(&id, vec![]).is_err());
}

#[test]
fn progress_regression_is_rejected() {
    let mut m = TaskManager::new();
    let id = started(&mut m);
    m.update_task_progress(&id, "processing", 50).unwrap();
    assert_eq!(
        m.update_task_progress(&id, "processing", 30),
        Err(TaskError::InvalidTransition {
            current: TaskStatus::Processing,
            requested: TaskStatus::Processing
        })
    );
    assert_eq!(m.get_task(&id).unwrap().progress, 50);
    assert_eq!(m.update_task_progress(&id, "processing", 50), Ok(()));
}

#[test]
fn attach_to_pending_task_fails() {
    let mut m = TaskManager::new();
    let id = started(&mut m);
    assert_eq!(
        m.attach_task_articles(&id, vec![article("t", "c", 1)]),
        Err(TaskError::InvalidTransition {
            current: TaskStatus::Pending,
            requested: TaskStatus::Completed
        })
    );
    assert!(m.get_task(&id).unwrap().articles.is_none());
}

#[test]
fn attach_to_processing_task_completes_it() {
    let mut m = TaskManager::new();
    let id = started(&mut m);
    m.update_task_progress(&id, "processing", 20).unwrap();
    let arts = vec![article("First", "one two three", 3), article("Second", "four", 1)];
    assert_eq!(m.attach_task_articles_at(&id, arts, 4242), Ok(()));
    let t = m.get_task(&id).unwrap();
    assert_eq!(t.status, TaskStatus::Completed);
    assert_eq!(t.progress, 100);
    assert_eq!(t.completed_at, Some(4242));
    let got = t.articles.unwrap();
    assert_eq!(got.len(), 2);
    assert_eq!(got[0].title, "First");
    assert_eq!(got[0].content, "one two three");
    assert_eq!(got[0].word_count, 3);
    assert_eq!(got[1].title, "Second");
}

#[test]
fn attach_to_unknown_task_is_not_found() {
    let mut m = TaskManager::new();
    assert_eq!(m.attach_task_articles("ghost", vec![]), Err(TaskError::NotFound));
}

#[test]
fn increasing_reports_reach_maximum() {
    let mut m = TaskManager::new();
    let id = started(&mut m);
    for p in [5u32, 10, 25, 60, 90] {
        m.update_task_progress(&id, "processing", p).unwrap();
    }
    assert_eq!(m.get_task(&id).unwrap().progress, 90);
}

#[test]
fn reports_in_any_order_reach_maximum() {
    let mut m = TaskManager::new();
    let id = started(&mut m);
    m.update_task_progress(&id, "processing", 0).unwrap();
    for p in [60u32, 10, 90, 25, 5] {
        let _ = m.update_task_progress(&id, "processing", p);
    }
    assert_eq!(m.get_task(&id).unwrap().progress, 90);
}

#[test]
fn other_tasks_are_untouched_by_updates() {
    let mut m = TaskManager::new();
    let a = started(&mut m);
    let b = m.create_task_with("task-b".to_string(), 5, "B".to_string(), "P".to_string(), 2).unwrap().id;
    m.update_task_progress(&a, "processing", 70).unwrap();
    let tb = m.get_task(&b).unwrap();
    assert_eq!(tb.status, TaskStatus::Pending);
    assert_eq!(tb.progress, 0);
}

#[test]
fn status_names_parse() {
    assert_eq!(parse_status("pending"), Some(TaskStatus::Pending));
    assert_eq!(parse_status("processing"), Some(TaskStatus::Processing));
    assert_eq!(parse_status("completed"), Some(TaskStatus::Completed));
    assert_eq!(parse_status("failed"), Some(TaskStatus::Failed));
    assert_eq!(parse_status("Pending"), None);
    assert_eq!(parse_status(""), None);
}
