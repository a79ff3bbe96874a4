//! Record types of the task store and the three enumerations with their text names.
use vstd::prelude::*;
use crate::text::str_eq;

verus! {

/// Priority of a task.
#[derive(Debug, Clone, Copy, PartialEq, Eq, Structural)]
pub enum TaskPriority {
    NoPriority,
    Low,
    Medium,
    High,
    Urgent,
}

impl TaskPriority {
    /// The stored name of a priority.
    pub open spec fn name(self) -> Seq<char> {
        match self {
            TaskPriority::NoPriority => "none"@,
            TaskPriority::Low => "low"@,
            TaskPriority::Medium => "medium"@,
            TaskPriority::High => "high"@,
            TaskPriority::Urgent => "urgent"@,
        }
    }

    /// The priority a stored name denotes; unknown names denote `None`.
    pub open spec fn from_name(s: Seq<char>) -> TaskPriority {
        if s == "low"@ {
            TaskPriority::Low
        } else if s == "medium"@ {
            TaskPriority::Medium
        } else if s == "high"@ {
            TaskPriority::High
        } else if s == "urgent"@ {
            TaskPriority::Urgent
        } else {
            TaskPriority::NoPriority
        }
    }

    pub fn as_str(&self) -> (s: &'static str)
        ensures
            s@ == self.name(),
    {
        match self {
            TaskPriority::NoPriority => "none",
            TaskPriority::Low => "low",
            TaskPriority::Medium => "medium",
            TaskPriority::High => "high",
            TaskPriority::Urgent => "urgent",
        }
    }

    pub fn from_str_value(s: &str) -> (p: TaskPriority)
        ensures
            p == TaskPriority::from_name(s@),
    {
        if str_eq(s, "low") {
            TaskPriority::Low
        } else if str_eq(s, "medium") {
            TaskPriority::Medium
        } else if str_eq(s, "high") {
            TaskPriority::High
        } else if str_eq(s, "urgent") {
            TaskPriority::Urgent
        } else {
            TaskPriority::NoPriority
        }
    }
}

impl Default for TaskPriority {
    fn default() -> (p: Self)
        ensures
            p == TaskPriority::NoPriority,
    {
        TaskPriority::NoPriority
    }
}

/// Whether `s` is the stored name of some priority.
pub open spec fn is_priority_name(s: Seq<char>) -> bool {
    s == "none"@ || s == "low"@ || s == "medium"@ || s == "high"@ || s == "urgent"@
}

/// Lifecycle state of a task.
#[derive(Debug, Clone, Copy, PartialEq, Eq, Structural)]
pub enum TaskStatus {
    Pending,
    InProgress,
    Completed,
    Archived,
}

impl TaskStatus {
    /// The stored name of a status.
    pub open spec fn name(self) -> Seq<char> {
        match self {
            TaskStatus::Pending => "pending"@,
            TaskStatus::InProgress => "in_progress"@,
            TaskStatus::Completed => "completed"@,
            TaskStatus::Archived => "archived"@,
        }
    }

    /// The status a stored name denotes; unknown names denote `Pending`.
    pub open spec fn from_name(s: Seq<char>) -> TaskStatus {
        if s == "in_progress"@ {
            TaskStatus::InProgress
        } else if s == "completed"@ {
            TaskStatus::Completed
        } else if s == "archived"@ {
            TaskStatus::Archived
        } else {
            TaskStatus::Pending
        }
    }

    pub fn as_str(&self) -> (s: &'static str)
        ensures
            s@ == self.name(),
    {
        match self {
            TaskStatus::Pending => "pending",
            TaskStatus::InProgress => "in_progress",
            TaskStatus::Completed => "completed",
            TaskStatus::Archived => "archived",
        }
    }

    pub fn from_str_value(s: &str) -> (t: TaskStatus)
        ensures
            t == TaskStatus::from_name(s@),
    {
        if str_eq(s, "in_progress") {
            TaskStatus::InProgress
        } else if str_eq(s, "completed") {
            TaskStatus::Completed
        } else if str_eq(s, "archived") {
            TaskStatus::Archived
        } else {
            TaskStatus::Pending
        }
    }
}

impl Default for TaskStatus {
    fn default() -> (t: Self)
        ensures
            t == TaskStatus::Pending,
    {
        TaskStatus::Pending
    }
}

/// Whether `s` is the stored name of some status.
pub open spec fn is_status_name(s: Seq<char>) -> bool {
    s == "pending"@ || s == "in_progress"@ || s == "completed"@ || s == "archived"@
}

/// Where a task came from.
#[derive(Debug, Clone, Copy, PartialEq, Eq, Structural)]
pub enum SourceType {
    Screenshot,
    Manual,
    Import,
}

impl SourceType {
    /// The stored name of a source type.
    pub open spec fn name(self) -> Seq<char> {
        match self {
            SourceType::Screenshot => "screenshot"@,
            SourceType::Manual => "manual"@,
            SourceType::Import => "import"@,
        }
    }

    /// The source type a stored name denotes; unknown names denote `Manual`.
    pub open spec fn from_name(s: Seq<char>) -> SourceType {
        if s == "screenshot"@ {
            SourceType::Screenshot
        } else if s == "import"@ {
            SourceType::Import
        } else {
            SourceType::Manual
        }
    }

    pub fn as_str(&self) -> (s: &'static str)
        ensures
            s@ == self.name(),
    {
        match self {
            SourceType::Screenshot => "screenshot",
            SourceType::Manual => "manual",
            SourceType::Import => "import",
        }
    }

    pub fn from_str_value(s: &str) -> (t: SourceType)
        ensures
            t == SourceType::from_name(s@),
    {
        if str_eq(s, "screenshot") {
            SourceType::Screenshot
        } else if str_eq(s, "import") {
            SourceType::Import
        } else {
            SourceType::Manual
        }
    }
}

impl Default for SourceType {
    fn default() -> (t: Self)
        ensures
            t == SourceType::Manual,
    {
        SourceType::Manual
    }
}

/// Whether `s` is the stored name of some source type.
pub open spec fn is_source_name(s: Seq<char>) -> bool {
    s == "screenshot"@ || s == "manual"@ || s == "import"@
}

proof fn reveal_enum_names()
    ensures
        "none"@.len() == 4 && "none"@[0] == 'n',
        "low"@.len() == 3 && "low"@[0] == 'l',
        "medium"@.len() == 6 && "medium"@[0] == 'm',
        "high"@.len() == 4 && "high"@[0] == 'h',
        "urgent"@.len() == 6 && "urgent"@[0] == 'u',
        "pending"@.len() == 7 && "pending"@[0] == 'p',
        "in_progress"@.len() == 11 && "in_progress"@[0] == 'i',
        "completed"@.len() == 9 && "completed"@[0] == 'c',
        "archived"@.len() == 8 && "archived"@[0] == 'a',
        "screenshot"@.len() == 10 && "screenshot"@[0] == 's',
        "manual"@.len() == 6 && "manual"@[0] == 'm',
        "import"@.len() == 6 && "import"@[0] == 'i',
{
    reveal_strlit("none");
    reveal_strlit("low");
    reveal_strlit("medium");
    reveal_strlit("high");
    reveal_strlit("urgent");
    reveal_strlit("pending");
    reveal_strlit("in_progress");
    reveal_strlit("completed");
    reveal_strlit("archived");
    reveal_strlit("screenshot");
    reveal_strlit("manual");
    reveal_strlit("import");
}

/// Reading back the stored name of a priority gives the priority; the name of the
/// priority read from a text is that text exactly when the text is a priority name.
pub proof fn lemma_priority_names(p: TaskPriority, s: Seq<char>)
    ensures
        TaskPriority::from_name(p.name()) == p,
        is_priority_name(p.name()),
        (TaskPriority::from_name(s).name() == s) <==> is_priority_name(s),
{
    reveal_enum_names();
}

/// Reading back the stored name of a status gives the status; the name of the status
/// read from a text is that text exactly when the text is a status name.
pub proof fn lemma_status_names(t: TaskStatus, s: Seq<char>)
    ensures
        TaskStatus::from_name(t.name()) == t,
        is_status_name(t.name()),
        (TaskStatus::from_name(s).name() == s) <==> is_status_name(s),
{
    reveal_enum_names();
}

/// Reading back the stored name of a source type gives the source type; the name of the
/// source type read from a text is that text exactly when the text is a source name.
pub proof fn lemma_source_names(t: SourceType, s: Seq<char>)
    ensures
        SourceType::from_name(t.name()) == t,
        is_source_name(t.name()),
        (SourceType::from_name(s).name() == s) <==> is_source_name(s),
{
    reveal_enum_names();
}

/// A task. `ai_confidence_bits` holds the bit pattern of the `f64` confidence the model
/// gave, if any.
#[derive(Debug, Clone, PartialEq)]
pub struct Task {
    pub id: String,
    pub title: String,
    pub description: Option<String>,
    pub status: String,
    pub priority: String,
    pub client_id: Option<String>,
    pub project_id: Option<String>,
    pub deadline: Option<String>,
    pub tags: Option<String>,
    pub source_type: String,
    pub source_image: Option<String>,
    pub ocr_text: Option<String>,
    pub ai_confidence_bits: Option<u64>,
    pub created_at: String,
    pub updated_at: String,
    pub completed_at: Option<String>,
    pub archived_at: Option<String>,
}

/// A client.
#[derive(Debug, Clone, PartialEq)]
pub struct Client {
    pub id: String,
    pub name: String,
    pub company: Option<String>,
    pub email: Option<String>,
    pub phone: Option<String>,
    pub notes: Option<String>,
    pub created_at: String,
    pub updated_at: String,
}

/// A project.
#[derive(Debug, Clone, PartialEq)]
pub struct Project {
    pub id: String,
    pub name: String,
    pub description: Option<String>,
    pub client_id: Option<String>,
    pub color: Option<String>,
    pub status: String,
    pub created_at: String,
    pub updated_at: String,
}

/// A reminder of a task; `status` is `pending`, `fired` or `dismissed`.
#[derive(Debug, Clone, PartialEq)]
pub struct Reminder {
    pub id: String,
    pub task_id: String,
    pub reminder_time: String,
    pub message: Option<String>,
    pub status: String,
    pub created_at: String,
    pub fired_at: Option<String>,
}

/// A recorded change of one field of an entity.
#[derive(Debug, Clone, PartialEq)]
pub struct ChangeRecord {
    pub id: String,
    pub entity_type: String,
    pub entity_id: String,
    pub field_name: String,
    pub old_value: Option<String>,
    pub new_value: Option<String>,
    pub changed_at: String,
}

/// An entry of the synchronisation log; `operation` is `create`, `update` or `delete`,
/// and `data` the JSON text of the entity.
#[derive(Debug, Clone, PartialEq)]
pub struct SyncLogEntry {
    pub id: String,
    pub entity_type: String,
    pub entity_id: String,
    pub operation: String,
    pub data: Option<String>,
    pub timestamp: String,
    pub synced: bool,
    pub device_id: String,
}

/// A stored setting.
#[derive(Debug, Clone, PartialEq)]
pub struct Settings {
    pub key: String,
    pub value: String,
    pub updated_at: String,
}

/// What a new task is made from. `ai_confidence_bits` holds the bit pattern of an `f64`.
#[derive(Debug, Clone, PartialEq)]
pub struct CreateTaskInput {
    pub title: String,
    pub description: Option<String>,
    pub priority: Option<String>,
    pub client_id: Option<String>,
    pub project_id: Option<String>,
    pub deadline: Option<String>,
    pub tags: Option<Vec<String>>,
    pub source_type: Option<String>,
    pub source_image: Option<String>,
    pub ocr_text: Option<String>,
    pub ai_confidence_bits: Option<u64>,
}

/// A change of a task; absent fields are kept.
#[derive(Debug, Clone, PartialEq)]
pub struct UpdateTaskInput {
    pub id: String,
    pub title: Option<String>,
    pub description: Option<String>,
    pub priority: Option<String>,
    pub client_id: Option<String>,
    pub project_id: Option<String>,
    pub deadline: Option<String>,
    pub tags: Option<Vec<String>>,
}

/// What a new client is made from.
#[derive(Debug, Clone, PartialEq)]
pub struct CreateClientInput {
    pub name: String,
    pub company: Option<String>,
    pub email: Option<String>,
    pub phone: Option<String>,
    pub notes: Option<String>,
}

/// A change of a client; absent fields are kept.
#[derive(Debug, Clone, PartialEq)]
pub struct UpdateClientInput {
    pub id: String,
    pub name: Option<String>,
    pub company: Option<String>,
    pub email: Option<String>,
    pub phone: Option<String>,
    pub notes: Option<String>,
}

/// What a new project is made from.
#[derive(Debug, Clone, PartialEq)]
pub struct CreateProjectInput {
    pub name: String,
    pub description: Option<String>,
    pub client_id: Option<String>,
    pub color: Option<String>,
}

/// A change of a project; absent fields are kept.
#[derive(Debug, Clone, PartialEq)]
pub struct UpdateProjectInput {
    pub id: String,
    pub name: Option<String>,
    pub description: Option<String>,
    pub client_id: Option<String>,
    pub color: Option<String>,
    pub status: Option<String>,
}

/// What a new reminder is made from.
#[derive(Debug, Clone, PartialEq)]
pub struct CreateReminderInput {
    pub task_id: String,
    pub reminder_time: String,
    pub message: Option<String>,
}

/// Which tasks to list: each present field narrows the list.
#[derive(Debug, Clone, PartialEq)]
pub struct TaskFilter {
    pub status: Option<String>,
    pub priority: Option<String>,
    pub client_id: Option<String>,
    pub project_id: Option<String>,
    pub deadline_start: Option<String>,
    pub deadline_end: Option<String>,
    pub search: Option<String>,
    pub limit: Option<i64>,
    pub offset: Option<i64>,
}

} // verus!
