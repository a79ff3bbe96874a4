//! What a due reminder is shown as.
use vstd::prelude::*;
use vstd::wrapping::i32_specs;
use vstd::utf8::encode_utf8;
use crate::models::Reminder;
use crate::ai::opt_view;
use crate::text::{owned, concat2};

verus! {

/// The notification number of a byte string: starting from 0, each byte is added to 31
/// times the number so far, wrapping around in `i32`.
pub open spec fn notification_hash(bytes: Seq<u8>) -> i32
    decreases bytes.len(),
{
    if bytes.len() == 0 {
        0
    } else {
        i32_specs::wrapping_add(
            i32_specs::wrapping_mul(notification_hash(bytes.drop_last()), 31),
            bytes.last() as i32,
        )
    }
}

/// The notification number of a reminder id: the hash of its UTF-8 bytes.
pub fn notification_id(reminder_id: &str) -> (n: i32)
    ensures
        n == notification_hash(encode_utf8(reminder_id@)),
{
    let bytes = reminder_id.as_bytes();
    let mut acc: i32 = 0;
    let mut i: usize = 0;
    while i < bytes.len()
        invariant
            i <= bytes@.len(),
            bytes@ == encode_utf8(reminder_id@),
            acc == notification_hash(bytes@.take(i as int)),
        decreases bytes@.len() - i,
    {
        assert(bytes@.take(i + 1).drop_last() =~= bytes@.take(i as int));
        acc = acc.wrapping_mul(31).wrapping_add(bytes[i] as i32);
        i = i + 1;
    }
    assert(bytes@.take(i as int) =~= bytes@);
    acc
}

/// The title of every reminder notification.
pub const NOTIFICATION_TITLE: &'static str = "SnapTask 任务提醒";

/// The status a reminder gets once shown.
pub const FIRED_STATUS: &'static str = "fired";

/// What is shown for a due reminder.
#[derive(Debug, Clone, PartialEq)]
pub struct ReminderNotice {
    pub notification_id: i32,
    pub task_title: String,
    pub message: String,
}

/// The task title shown: the title of the reminder's task, or "未知任务" when it could not
/// be read.
pub open spec fn shown_title(task_title: Option<Seq<char>>) -> Seq<char> {
    match task_title {
        Some(t) => t,
        None => "未知任务"@,
    }
}

/// The notice of a due reminder: its own message, or "任务提醒: " and the task title.
pub fn reminder_notice(reminder: &Reminder, task_title: Option<String>) -> (n: ReminderNotice)
    ensures
        n.task_title@ == shown_title(opt_view(task_title)),
        n.message@ == (match reminder.message {
            Some(m) => m@,
            None => "任务提醒: "@ + shown_title(opt_view(task_title)),
        }),
        n.notification_id == notification_hash(encode_utf8(reminder.id@)),
{
    let title = match task_title {
        Some(t) => t,
        None => owned("未知任务"),
    };
    let message = match &reminder.message {
        Some(m) => m.clone(),
        None => concat2("任务提醒: ", title.as_str()),
    };
    ReminderNotice { notification_id: notification_id(reminder.id.as_str()), task_title: title, message }
}

} // verus!
