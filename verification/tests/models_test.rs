use snaptask::models::{SourceType, TaskPriority, TaskStatus};

#[test]
fn priority_names_round_trip() {
    for p in [
        TaskPriority::NoPriority,
        TaskPriority::Low,
        TaskPriority::Medium,
        TaskPriority::High,
        TaskPriority::Urgent,
    ] {
        assert_eq!(TaskPriority::from_str_value(p.as_str()), p);
    }
    assert_eq!(TaskPriority::from_str_value("bogus"), TaskPriority::NoPriority);
    assert_eq!(TaskPriority::High.as_str(), "high");
}

#[test]
fn status_names_round_trip() {
    for s in [TaskStatus::Pending, TaskStatus::InProgress, TaskStatus::Completed, TaskStatus::Archived] {
        assert_eq!(TaskStatus::from_str_value(s.as_str()), s);
    }
    assert_eq!(TaskStatus::InProgress.as_str(), "in_progress");
    assert_eq!(TaskStatus::from_str_value("done"), TaskStatus::Pending);
}

#[test]
fn source_names_round_trip() {
    for s in [SourceType::Screenshot, SourceType::Manual, SourceType::Import] {
        assert_eq!(SourceType::from_str_value(s.as_str()), s);
    }
    assert_eq!(SourceType::from_str_value("camera"), SourceType::Manual);
}
