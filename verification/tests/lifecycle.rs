use music_stream::lifecycle::{GenerationTaskSlot, JoinedTask, RuntimeTaskShutdownReport};
use music_stream::{ErrorCode, MusicStreamError};

#[test]
fn generation_task_slot_only_takes_matching_generation() {
    let mut slot = GenerationTaskSlot::new();
    assert!(slot.is_empty());

    assert!(slot.insert(7, "current").is_none());
    assert_eq!(slot.generation(), Some(7));
    assert_eq!(slot.get_if_generation(7), Some(&"current"));
    assert_eq!(slot.get_if_generation(8), None);

    assert!(slot.take_if_generation(8).is_none());
    assert_eq!(slot.generation(), Some(7));

    let task = slot
        .take_if_generation(7)
        .expect("matching generation should be removed");
    assert_eq!(task.generation(), 7);
    assert_eq!(task.into_task(), "current");
    assert!(slot.is_empty());
}

#[test]
fn generation_task_slot_can_take_inner_task_directly() {
    let mut slot = GenerationTaskSlot::new();
    slot.insert(9, "current");

    assert_eq!(slot.take_task_if_generation(8), None);
    assert_eq!(slot.take_task_if_generation(9), Some("current"));
    assert!(slot.is_empty());

    slot.insert(10, "next");
    assert_eq!(slot.take_task(), Some("next"));
    assert!(slot.is_empty());
}

#[test]
fn generation_task_slot_returns_displaced_task_on_replace() {
    let mut slot = GenerationTaskSlot::new();
    assert!(slot.insert(1, "old").is_none());

    let old = slot.insert(2, "new").expect("old task");

    assert_eq!(old.generation(), 1);
    assert_eq!(old.into_task(), "old");
    assert_eq!(slot.generation(), Some(2));
    assert_eq!(slot.get(), Some(&"new"));
}

#[test]
fn generation_task_slot_can_return_displaced_inner_task_directly() {
    let mut slot = GenerationTaskSlot::new();
    assert_eq!(slot.insert_task(1, "old"), None);
    assert_eq!(slot.insert_task(2, "new"), Some("old"));
    assert_eq!(slot.generation(), Some(2));
    assert_eq!(slot.get(), Some(&"new"));
}

#[test]
fn slots_lend_their_task_for_change_only_to_its_generation() {
    let mut slot = GenerationTaskSlot::default();
    slot.insert(3, 10);
    if let Some(task) = slot.get_mut() {
        *task += 1;
    }
    assert!(slot.get_mut_if_generation(4).is_none());
    if let Some(task) = slot.get_mut_if_generation(3) {
        *task += 1;
    }
    assert_eq!(slot.get(), Some(&12));
    let mut scoped = slot.take().expect("task");
    *scoped.task_mut() += 1;
    assert_eq!(*scoped.task(), 13);
    assert!(slot.take_task().is_none());
}

#[test]
fn shutdown_reports_task_failures_without_hiding_successes() {
    let mut report = RuntimeTaskShutdownReport::default();
    report.record(JoinedTask::Completed);
    report.record(JoinedTask::Failed {
        name: "failure".to_owned(),
        error: MusicStreamError::InvalidConfig("bad config".to_owned()),
    });

    assert_eq!(report.completed, 1);
    assert_eq!(report.failed.len(), 1);
    assert_eq!(report.failed[0].name, "failure");
    assert_eq!(report.failed[0].code, ErrorCode::InvalidConfig);
    assert_eq!(report.failed[0].message, "invalid configuration: bad config");
    assert_eq!(report.aborted, 0);
    assert!(!report.timed_out);
}

#[test]
fn joined_tasks_are_counted_by_how_they_ended() {
    let mut report = RuntimeTaskShutdownReport::default();
    report.record(JoinedTask::Aborted);
    report.record(JoinedTask::Panicked);
    report.record(JoinedTask::Panicked);
    report.record(JoinedTask::Lost { message: "gone".to_owned() });
    assert_eq!((report.completed, report.aborted, report.panicked), (0, 1, 2));
    assert_eq!(report.failed[0].name, "<unknown>");
    assert_eq!(report.failed[0].code, ErrorCode::Internal);
    assert_eq!(report.failed[0].message, "gone");
}
