use kanban::cache::Cache;
use kanban::lifecycle::{is_expired_at, shown_at, visible_tasks};
use kanban::protocol::{Action, Response};
use kanban::task::Task;

const NOW: u64 = 1_700_000_000;

fn task(subject: &str, status: &str, priority: i32, wait_until: Option<u64>, updated: u64) -> Task {
    Task::new(subject.to_string(), status.to_string(), priority, wait_until, updated)
}

fn cache_of(tasks: Vec<Task>) -> Cache<Task> {
    let mut cache: Cache<Task> = Cache::new();
    cache.set_data(Box::new(tasks));
    cache
}

fn tasks_of(r: Option<Response>) -> Vec<Task> {
    match r {
        Some(Response::Tasks { tasks }) => tasks,
        _ => panic!("expected a task list"),
    }
}

#[test]
fn done_task_kept_at_exactly_one_day() {
    let cache = cache_of(vec![task("A", "Done", 1, None, NOW - 86400)]);
    assert_eq!(cache.get_tasks_at(NOW), vec![task("A", "Done", 1, None, NOW - 86400)]);
}

#[test]
fn done_task_dropped_after_one_day() {
    let cache = cache_of(vec![task("A", "Done", 1, None, NOW - 86401)]);
    assert_eq!(cache.get_tasks_at(NOW), vec![]);
}

#[test]
fn done_task_kept_before_one_day() {
    let cache = cache_of(vec![task("A", "Done", 1, None, NOW - 86399)]);
    assert_eq!(cache.get_tasks_at(NOW), vec![task("A", "Done", 1, None, NOW - 86399)]);
}

#[test]
fn done_task_updated_in_future_is_kept() {
    let t = task("A", "Done", 1, None, NOW + 10);
    assert!(!is_expired_at(&t, NOW));
    assert_eq!(visible_tasks(&vec![t.clone()], NOW), vec![t]);
}

#[test]
fn snoozed_task_wakes_after_wait_time() {
    let cache = cache_of(vec![task("B", "Snooze", 2, Some(NOW - 1), NOW - 100)]);
    assert_eq!(cache.get_tasks_at(NOW), vec![task("B", "InProgress", 2, None, NOW - 100)]);
}

#[test]
fn snoozed_task_sleeps_before_wait_time() {
    let t = task("B", "Snooze", 2, Some(NOW + 1000), NOW - 100);
    let cache = cache_of(vec![t.clone()]);
    assert_eq!(cache.get_tasks_at(NOW), vec![t]);
}

#[test]
fn snoozed_task_sleeps_at_wait_time() {
    let t = task("B", "Snooze", 2, Some(NOW), NOW - 100);
    assert_eq!(shown_at(&t, NOW), t);
}

#[test]
fn snoozed_task_without_wait_time_never_wakes() {
    let t = task("B", "Snooze", 2, None, 0);
    for now in [0, 1, NOW, u64::MAX] {
        assert_eq!(visible_tasks(&vec![t.clone()], now), vec![t.clone()]);
    }
}

#[test]
fn other_status_with_wait_time_is_untouched() {
    let t = task("C", "Todo", 3, Some(1), 0);
    assert_eq!(shown_at(&t, NOW), t);
    let done = task("D", "InProgress", 3, None, 0);
    assert_eq!(visible_tasks(&vec![done.clone()], NOW), vec![done]);
}

#[test]
fn visible_list_keeps_stored_order() {
    let stored = vec![
        task("1", "Todo", 5, None, NOW),
        task("2", "Done", 1, None, 0),
        task("3", "Snooze", 4, Some(NOW - 10), NOW),
        task("4", "Done", 2, None, NOW),
        task("5", "InProgress", 3, None, NOW),
    ];
    let expected = vec![
        task("1", "Todo", 5, None, NOW),
        task("3", "InProgress", 4, None, NOW),
        task("4", "Done", 2, None, NOW),
        task("5", "InProgress", 3, None, NOW),
    ];
    assert_eq!(visible_tasks(&stored, NOW), expected);
}

#[test]
fn reading_does_not_change_the_store() {
    let stored = vec![task("B", "Snooze", 2, Some(NOW - 5), NOW - 100)];
    let cache = cache_of(stored.clone());
    let first = cache.get_tasks_at(NOW);
    let second = cache.get_tasks_at(NOW);
    assert_eq!(first, second);
    assert_eq!(cache.get_all(), &stored);
}

#[test]
fn init_scenario_drops_done_and_wakes_snoozed() {
    let mut cache = cache_of(vec![
        task("A", "Done", 1, None, NOW - 90000),
        task("B", "Snooze", 2, Some(NOW - 5), NOW - 100),
    ]);
    let tasks = tasks_of(cache.respond_at(Action::Init, NOW));
    assert_eq!(tasks, vec![task("B", "InProgress", 2, None, NOW - 100)]);
}

#[test]
fn store_tasks_replaces_and_answers_visible() {
    let mut cache = cache_of(vec![task("old", "Todo", 0, None, NOW)]);
    let new_list = vec![
        task("A", "Done", 1, None, NOW - 90000),
        task("B", "Todo", 2, None, NOW),
    ];
    let tasks = tasks_of(cache.respond_at(Action::StoreTasks { tasks: new_list.clone() }, NOW));
    assert_eq!(tasks, vec![task("B", "Todo", 2, None, NOW)]);
    assert_eq!(cache.get_all(), &new_list);
}

#[test]
fn log_request_has_no_answer() {
    let mut cache = cache_of(vec![task("A", "Todo", 1, None, NOW)]);
    assert!(cache.respond_at(Action::Log { text: "hello".to_string() }, NOW).is_none());
    assert_eq!(cache.get_all().len(), 1);
}

#[test]
fn handle_uses_the_current_time() {
    let mut cache: Cache<Task> = Cache::new();
    let tasks = tasks_of(cache.handle(Action::StoreTasks {
        tasks: vec![task("A", "Done", 1, None, 0), task("B", "Snooze", 2, Some(1), 0)],
    }));
    assert_eq!(tasks, vec![task("B", "InProgress", 2, None, 0)]);
    assert!(cache.handle(Action::Log { text: String::new() }).is_none());
}

#[test]
fn get_tasks_uses_the_current_time() {
    let mut cache = cache_of(vec![task("A", "Done", 1, None, 0), task("B", "Todo", 2, None, 0)]);
    assert_eq!(cache.get_tasks(), Some(vec![task("B", "Todo", 2, None, 0)]));
    assert_eq!(cache.get_all().len(), 2);
}
