use snaptask::models::Reminder;
use snaptask::reminders::{notification_id, reminder_notice, FIRED_STATUS, NOTIFICATION_TITLE};

fn reminder(id: &str, message: Option<&str>) -> Reminder {
    Reminder {
        id: id.to_string(),
        task_id: "t1".to_string(),
        reminder_time: "2024-01-01 09:00:00".to_string(),
        message: message.map(|m| m.to_string()),
        status: "pending".to_string(),
        created_at: "2024-01-01 08:00:00".to_string(),
        fired_at: None,
    }
}

fn reference_hash(id: &str) -> i32 {
    id.as_bytes().iter().fold(0i32, |acc, &b| acc.wrapping_mul(31).wrapping_add(b as i32))
}

#[test]
fn notification_numbers() {
    assert_eq!(notification_id(""), 0);
    assert_eq!(notification_id("a"), 97);
    for id in ["0190a1b2-c3d4-7e5f-8a9b-0c1d2e3f4a5b", "提醒", "x"] {
        assert_eq!(notification_id(id), reference_hash(id));
    }
}

#[test]
fn notices() {
    let n = reminder_notice(&reminder("r1", None), Some("写周报".to_string()));
    assert_eq!(n.message, "任务提醒: 写周报");
    assert_eq!(n.task_title, "写周报");
    assert_eq!(n.notification_id, reference_hash("r1"));
    let m = reminder_notice(&reminder("r2", Some("开会")), None);
    assert_eq!(m.message, "开会");
    assert_eq!(m.task_title, "未知任务");
    let u = reminder_notice(&reminder("r3", None), None);
    assert_eq!(u.message, "任务提醒: 未知任务");
    assert_eq!(NOTIFICATION_TITLE, "SnapTask 任务提醒");
    assert_eq!(FIRED_STATUS, "fired");
}
