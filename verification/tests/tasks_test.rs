use snaptask::models::{CreateTaskInput, Task, TaskFilter, TaskStatus, UpdateTaskInput};
use snaptask::tasks::{
    build_task_list_query, can_transition, like_pattern, merge_task_update, new_task_row, new_task_row_with_id,
    plan_status_update, task_field_changes, StatusUpdateError, TASK_SELECT,
};

fn task() -> Task {
    Task {
        id: "t1".to_string(),
        title: "Old".to_string(),
        description: Some("desc".to_string()),
        status: "pending".to_string(),
        priority: "low".to_string(),
        client_id: None,
        project_id: Some("p1".to_string()),
        deadline: None,
        tags: Some("[\"a\"]".to_string()),
        source_type: "manual".to_string(),
        source_image: None,
        ocr_text: None,
        ai_confidence_bits: None,
        created_at: "2024-01-01 00:00:00".to_string(),
        updated_at: "2024-01-01 00:00:00".to_string(),
        completed_at: None,
        archived_at: None,
    }
}

fn empty_update() -> UpdateTaskInput {
    UpdateTaskInput {
        id: "t1".to_string(),
        title: None,
        description: None,
        priority: None,
        client_id: None,
        project_id: None,
        deadline: None,
        tags: None,
    }
}

fn create_input() -> CreateTaskInput {
    CreateTaskInput {
        title: "New".to_string(),
        description: None,
        priority: None,
        client_id: Some("c1".to_string()),
        project_id: None,
        deadline: Some("2024-02-02".to_string()),
        tags: Some(vec!["x".to_string(), "y".to_string()]),
        source_type: None,
        source_image: None,
        ocr_text: Some("ocr".to_string()),
        ai_confidence_bits: Some(0.8f64.to_bits()),
    }
}

#[test]
fn empty_update_keeps_fields() {
    let f = merge_task_update(&task(), &empty_update());
    assert_eq!(f.title, "Old");
    assert_eq!(f.description.as_deref(), Some("desc"));
    assert_eq!(f.priority, "low");
    assert_eq!(f.project_id.as_deref(), Some("p1"));
    assert_eq!(f.tags.as_deref(), Some("[\"a\"]"));
    assert!(task_field_changes(&task(), &empty_update()).is_empty());
}

#[test]
fn update_replaces_given_fields() {
    let u = UpdateTaskInput {
        title: Some("New".to_string()),
        priority: Some("high".to_string()),
        deadline: Some("2024-03-01".to_string()),
        tags: Some(vec!["b".to_string(), "c".to_string()]),
        client_id: Some("c9".to_string()),
        ..empty_update()
    };
    let f = merge_task_update(&task(), &u);
    assert_eq!(f.title, "New");
    assert_eq!(f.priority, "high");
    assert_eq!(f.deadline.as_deref(), Some("2024-03-01"));
    assert_eq!(f.tags.as_deref(), Some("[\"b\",\"c\"]"));
    assert_eq!(f.client_id.as_deref(), Some("c9"));
    assert_eq!(f.description.as_deref(), Some("desc"));
    let changes = task_field_changes(&task(), &u);
    let names: Vec<&str> = changes.iter().map(|c| c.field_name.as_str()).collect();
    assert_eq!(names, vec!["title", "priority", "deadline"]);
    assert_eq!(changes[0].old_value.as_deref(), Some("Old"));
    assert_eq!(changes[0].new_value.as_deref(), Some("New"));
    assert_eq!(changes[2].old_value, None);
}

#[test]
fn unchanged_values_record_nothing() {
    let u = UpdateTaskInput {
        title: Some("Old".to_string()),
        priority: Some("low".to_string()),
        description: Some("other".to_string()),
        ..empty_update()
    };
    assert!(task_field_changes(&task(), &u).is_empty());
}

#[test]
fn transitions() {
    let (pe, ip, co, ar) = (TaskStatus::Pending, TaskStatus::InProgress, TaskStatus::Completed, TaskStatus::Archived);
    let allowed = [(pe, ip), (pe, ar), (ip, co), (ip, pe), (co, ar), (co, ip), (ar, pe), (ar, ip)];
    for a in [pe, ip, co, ar] {
        for b in [pe, ip, co, ar] {
            assert_eq!(can_transition(a, b), allowed.contains(&(a, b)));
        }
    }
}

#[test]
fn plans_status_updates() {
    let ok = plan_status_update("in_progress", "completed").unwrap();
    assert_eq!(ok.status, TaskStatus::Completed);
    assert_eq!(ok.change.field_name, "status");
    assert_eq!(ok.change.old_value.as_deref(), Some("in_progress"));
    assert_eq!(ok.change.new_value.as_deref(), Some("completed"));
    assert_eq!(plan_status_update("pending", "completed"), Err(StatusUpdateError::InvalidTransition));
    assert_eq!(plan_status_update("pending", "pending"), Err(StatusUpdateError::InvalidTransition));
    let odd = plan_status_update("weird", "in_progress").unwrap();
    assert_eq!(odd.change.old_value.as_deref(), Some("weird"));
    assert_eq!(plan_status_update("archived", "nonsense").unwrap().status, TaskStatus::Pending);
}

#[test]
fn new_rows() {
    let row = new_task_row_with_id("id-1".to_string(), &create_input());
    assert_eq!(row.id, "id-1");
    assert_eq!(row.priority, "none");
    assert_eq!(row.source_type, "manual");
    assert_eq!(row.tags.as_deref(), Some("[\"x\",\"y\"]"));
    assert_eq!(row.client_id.as_deref(), Some("c1"));
    assert_eq!(row.ai_confidence_bits, Some(0.8f64.to_bits()));
    let fresh = new_task_row(&create_input());
    assert_eq!(fresh.id.len(), 36);
    assert_eq!(&fresh.id[14..15], "7");
    assert_ne!(fresh.id, new_task_row(&create_input()).id);
}

#[test]
fn list_query() {
    let f = TaskFilter {
        status: Some("pending".to_string()),
        priority: None,
        client_id: Some("c1".to_string()),
        project_id: None,
        deadline_start: Some("2024-01-01".to_string()),
        deadline_end: None,
        search: Some("周报".to_string()),
        limit: Some(20),
        offset: None,
    };
    let q = build_task_list_query(&f);
    let expected = format!(
        "{} WHERE 1=1 AND status = ? AND client_id = ? AND deadline >= ? AND (title LIKE ? OR description LIKE ?) ORDER BY created_at DESC LIMIT 20 OFFSET 0",
        TASK_SELECT
    );
    assert_eq!(q.sql, expected);
    assert_eq!(q.params, vec!["pending", "c1", "2024-01-01", "%周报%", "%周报%"]);
    assert_eq!(q.sql.matches('?').count(), q.params.len());
    let none = TaskFilter {
        status: None,
        priority: None,
        client_id: None,
        project_id: None,
        deadline_start: None,
        deadline_end: None,
        search: None,
        limit: None,
        offset: Some(-5),
    };
    let q2 = build_task_list_query(&none);
    assert!(q2.sql.ends_with("WHERE 1=1 ORDER BY created_at DESC LIMIT 100 OFFSET -5"));
    assert!(q2.params.is_empty());
    assert_eq!(like_pattern("abc"), "%abc%");
}

#[test]
fn list_query_binds_one_parameter_per_placeholder() {
    let all = TaskFilter {
        status: Some("pending".to_string()),
        priority: Some("high".to_string()),
        client_id: Some("c?".to_string()),
        project_id: Some("p1".to_string()),
        deadline_start: Some("2024-01-01".to_string()),
        deadline_end: Some("2024-12-31".to_string()),
        search: Some("what?".to_string()),
        limit: Some(-1),
        offset: Some(7),
    };
    let q = build_task_list_query(&all);
    assert_eq!(q.params.len(), 8);
    assert_eq!(q.sql.matches('?').count(), 8);
    assert!(q.sql.ends_with("LIMIT -1 OFFSET 7"));
}
