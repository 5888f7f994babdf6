use consumer_pool::bindings::{TaskCreator, TaskTypeACreator, TaskTypeBCreator};
use consumer_pool::pool::{consumer_name, pool_consumer_names, supervisor_next, SupervisorAction};

#[test]
fn identities_are_prefix_underscore_ordinal() {
    assert_eq!(consumer_name("task_consumer", 0), "task_consumer_0");
    assert_eq!(consumer_name("c", 12), "c_12");
    assert_eq!(consumer_name("", 105), "_105");
}

#[test]
fn pool_of_three() {
    let names = pool_consumer_names("task_consumer", 3);
    assert_eq!(names, vec!["task_consumer_0".to_string(), "task_consumer_1".to_string(), "task_consumer_2".to_string()]);
}

#[test]
fn pool_of_zero_starts_nobody_and_exits() {
    assert!(pool_consumer_names("task_consumer", 0).is_empty());
    assert!(pool_consumer_names("task_consumer", 0).len() == 0);
    assert_eq!(supervisor_next(true), SupervisorAction::Exit);
}

#[test]
fn failed_pool_restarts_after_backoff_under_same_names() {
    assert_eq!(supervisor_next(false), SupervisorAction::RestartAfter { delay_ms: 5000 });
    assert_eq!(pool_consumer_names("p", 4), pool_consumer_names("p", 4));
}

#[test]
fn pool_identities_are_unique() {
    let names = pool_consumer_names("c", 120);
    let mut sorted = names.clone();
    sorted.sort();
    sorted.dedup();
    assert_eq!(sorted.len(), 120);
}

#[test]
fn handler_bindings() {
    let a = TaskTypeACreator::new();
    let b = TaskTypeBCreator::new();
    assert_eq!(a.stream_name(), "task_type_a");
    assert_eq!(b.stream_name(), "task_type_b");
    assert_eq!(a.consumer_name_template(), "task_consumer");
    assert_eq!(b.consumer_name_template(), "task_consumer");
    assert_eq!(TaskCreator.stream_name(), "task_type_a");
}
