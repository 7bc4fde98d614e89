use lessons::builder::TaskManagerBuilder;

#[test]
fn builder_sets_count() {
    let task_manager = TaskManagerBuilder::new().count(10).build();
    assert_eq!(*task_manager.count(), 10);
}

#[test]
fn new_builder_has_no_tasks() {
    assert_eq!(*TaskManagerBuilder::new().build().count(), 0);
    assert_eq!(*TaskManagerBuilder::default().build().count(), 0);
}

#[test]
fn last_count_wins() {
    let task_manager = TaskManagerBuilder::new().count(3).count(usize::MAX).build();
    assert_eq!(*task_manager.count(), usize::MAX);
}

#[test]
fn built_manager_keeps_initial_state() {
    let shown = format!("{:?}", TaskManagerBuilder::new().count(1).build());
    assert!(shown.contains("initialized"));
    let shown = format!("{:?}", TaskManagerBuilder::default().build());
    assert!(!shown.contains("initialized"));
}
