//! Task rules: what a new task row holds, how an update merges into a task and which
//! changes it records, which status changes are allowed, and the list query.
use vstd::prelude::*;
use crate::models::{Task, UpdateTaskInput, CreateTaskInput, TaskFilter, TaskStatus};
use crate::json::{strings_to_json, json_string_array, views};
use crate::text::{
    str_eq, owned, concat2, concat3, i64_text, int_text, char_count, lemma_char_count_concat,
    lemma_char_count_absent, lemma_int_text_count, lemma_char_count_single, contains_text, concat_all,
    count_all, lemma_contains_concat_all, lemma_count_concat_all,
};
use crate::ai::opt_view;
use crate::outside::{new_record_id, is_uuid_v7_text};

verus! {

/// `o` when present, else `fallback` (`Option::or` on texts).
pub open spec fn or_view(o: Option<Seq<char>>, fallback: Option<Seq<char>>) -> Option<Seq<char>> {
    match o {
        Some(v) => Some(v),
        None => fallback,
    }
}

/// A copy of the input value when present, else a copy of the existing one.
pub fn keep_or_replace(input: &Option<String>, existing: &Option<String>) -> (res: Option<String>)
    ensures
        opt_view(res) == or_view(opt_view(*input), opt_view(*existing)),
{
    match input {
        Some(v) => Some(v.clone()),
        None => match existing {
            Some(e) => Some(e.clone()),
            None => None,
        },
    }
}

/// A copy of an optional string.
pub fn copy_opt(o: &Option<String>) -> (res: Option<String>)
    ensures
        opt_view(res) == opt_view(*o),
{
    match o {
        Some(v) => Some(v.clone()),
        None => None,
    }
}

/// The editable fields of a task, as bound into its `UPDATE`.
#[derive(Debug, Clone, PartialEq)]
pub struct TaskFields {
    pub title: String,
    pub description: Option<String>,
    pub priority: String,
    pub client_id: Option<String>,
    pub project_id: Option<String>,
    pub deadline: Option<String>,
    pub tags: Option<String>,
}

/// What the editable fields of a task hold; `tags` is the JSON text of the tag list.
pub struct TaskFieldsView {
    pub title: Seq<char>,
    pub description: Option<Seq<char>>,
    pub priority: Seq<char>,
    pub client_id: Option<Seq<char>>,
    pub project_id: Option<Seq<char>>,
    pub deadline: Option<Seq<char>>,
    pub tags: Option<Seq<char>>,
}

/// What an update of a task holds.
pub struct TaskUpdateView {
    pub title: Option<Seq<char>>,
    pub description: Option<Seq<char>>,
    pub priority: Option<Seq<char>>,
    pub client_id: Option<Seq<char>>,
    pub project_id: Option<Seq<char>>,
    pub deadline: Option<Seq<char>>,
    pub tags: Option<Seq<Seq<char>>>,
}

impl View for TaskFields {
    type V = TaskFieldsView;

    open spec fn view(&self) -> TaskFieldsView {
        TaskFieldsView {
            title: self.title@,
            description: opt_view(self.description),
            priority: self.priority@,
            client_id: opt_view(self.client_id),
            project_id: opt_view(self.project_id),
            deadline: opt_view(self.deadline),
            tags: opt_view(self.tags),
        }
    }
}

/// The editable fields of a stored task.
pub open spec fn task_fields(t: Task) -> TaskFieldsView {
    TaskFieldsView {
        title: t.title@,
        description: opt_view(t.description),
        priority: t.priority@,
        client_id: opt_view(t.client_id),
        project_id: opt_view(t.project_id),
        deadline: opt_view(t.deadline),
        tags: opt_view(t.tags),
    }
}

/// What an update input holds.
pub open spec fn update_view(u: UpdateTaskInput) -> TaskUpdateView {
    TaskUpdateView {
        title: opt_view(u.title),
        description: opt_view(u.description),
        priority: opt_view(u.priority),
        client_id: opt_view(u.client_id),
        project_id: opt_view(u.project_id),
        deadline: opt_view(u.deadline),
        tags: match u.tags {
            Some(t) => Some(views(t@)),
            None => None,
        },
    }
}

/// The fields of a task after an update: each field the update gives replaces the stored
/// one, the others are kept; a given tag list is stored as its JSON text.
pub open spec fn merge_task(e: TaskFieldsView, u: TaskUpdateView) -> TaskFieldsView {
    TaskFieldsView {
        title: match u.title {
            Some(t) => t,
            None => e.title,
        },
        description: or_view(u.description, e.description),
        priority: match u.priority {
            Some(p) => p,
            None => e.priority,
        },
        client_id: or_view(u.client_id, e.client_id),
        project_id: or_view(u.project_id, e.project_id),
        deadline: or_view(u.deadline, e.deadline),
        tags: match u.tags {
            Some(t) => Some(json_string_array(t)),
            None => e.tags,
        },
    }
}

/// The fields an update gives the task `existing`.
pub fn merge_task_update(existing: &Task, input: &UpdateTaskInput) -> (f: TaskFields)
    ensures
        f@ == merge_task(task_fields(*existing), update_view(*input)),
{
    let title = match &input.title {
        Some(t) => t.clone(),
        None => existing.title.clone(),
    };
    let priority = match &input.priority {
        Some(p) => p.clone(),
        None => existing.priority.clone(),
    };
    let tags = match &input.tags {
        Some(t) => Some(strings_to_json(t)),
        None => copy_opt(&existing.tags),
    };
    TaskFields {
        title,
        description: keep_or_replace(&input.description, &existing.description),
        priority,
        client_id: keep_or_replace(&input.client_id, &existing.client_id),
        project_id: keep_or_replace(&input.project_id, &existing.project_id),
        deadline: keep_or_replace(&input.deadline, &existing.deadline),
        tags,
    }
}

/// The update that gives no field.
pub open spec fn empty_update() -> TaskUpdateView {
    TaskUpdateView {
        title: None,
        description: None,
        priority: None,
        client_id: None,
        project_id: None,
        deadline: None,
        tags: None,
    }
}

/// An update that gives no field leaves a task as it is.
pub proof fn lemma_empty_update_keeps_task(e: TaskFieldsView)
    ensures
        merge_task(e, empty_update()) == e,
{
}

/// Each field a task update gives is the field's new value (a tag list as its JSON text);
/// each field it leaves out keeps its stored value.
pub proof fn lemma_update_fields(e: TaskFieldsView, u: TaskUpdateView)
    ensures
        u.title matches Some(t) ==> merge_task(e, u).title == t,
        u.title is None ==> merge_task(e, u).title == e.title,
        u.description matches Some(d) ==> merge_task(e, u).description == Some(d),
        u.description is None ==> merge_task(e, u).description == e.description,
        u.priority matches Some(p) ==> merge_task(e, u).priority == p,
        u.priority is None ==> merge_task(e, u).priority == e.priority,
        u.client_id matches Some(c) ==> merge_task(e, u).client_id == Some(c),
        u.client_id is None ==> merge_task(e, u).client_id == e.client_id,
        u.project_id matches Some(p) ==> merge_task(e, u).project_id == Some(p),
        u.project_id is None ==> merge_task(e, u).project_id == e.project_id,
        u.deadline matches Some(d) ==> merge_task(e, u).deadline == Some(d),
        u.deadline is None ==> merge_task(e, u).deadline == e.deadline,
        u.tags matches Some(t) ==> merge_task(e, u).tags == Some(json_string_array(t)),
        u.tags is None ==> merge_task(e, u).tags == e.tags,
{
}

/// Applying the same update twice gives what applying it once gives.
pub proof fn lemma_update_idempotent(e: TaskFieldsView, u: TaskUpdateView)
    ensures
        merge_task(merge_task(e, u), u) == merge_task(e, u),
{
}

/// A change of one field: its name, the value before and the value after.
#[derive(Debug, Clone, PartialEq)]
pub struct FieldChange {
    pub field_name: String,
    pub old_value: Option<String>,
    pub new_value: Option<String>,
}

/// What a field change holds.
pub open spec fn change_view(c: FieldChange) -> (Seq<char>, Option<Seq<char>>, Option<Seq<char>>) {
    (c.field_name@, opt_view(c.old_value), opt_view(c.new_value))
}

/// The views of a list of field changes.
pub open spec fn change_views(v: Seq<FieldChange>) -> Seq<(Seq<char>, Option<Seq<char>>, Option<Seq<char>>)> {
    v.map_values(|c: FieldChange| change_view(c))
}

/// The changes an update of a task records, in this order: the title and the priority when
/// the update gives a value that differs from the stored one, the deadline when the
/// update gives one that differs from the stored (possibly absent) one.
pub open spec fn task_changes(e: TaskFieldsView, u: TaskUpdateView) -> Seq<(Seq<char>, Option<Seq<char>>, Option<Seq<char>>)> {
    let title_change = match u.title {
        Some(t) => if t != e.title {
            seq![("title"@, Some(e.title), Some(t))]
        } else {
            Seq::empty()
        },
        None => Seq::empty(),
    };
    let priority_change = match u.priority {
        Some(p) => if p != e.priority {
            seq![("priority"@, Some(e.priority), Some(p))]
        } else {
            Seq::empty()
        },
        None => Seq::empty(),
    };
    let deadline_change = match u.deadline {
        Some(d) => if Some(d) != e.deadline {
            seq![("deadline"@, e.deadline, Some(d))]
        } else {
            Seq::empty()
        },
        None => Seq::empty(),
    };
    title_change + priority_change + deadline_change
}

/// Whether two optional strings hold the same text.
pub fn opt_str_eq(a: &Option<String>, b: &Option<String>) -> (res: bool)
    ensures
        res == (opt_view(*a) == opt_view(*b)),
{
    match (a, b) {
        (Some(x), Some(y)) => str_eq(x.as_str(), y.as_str()),
        (None, None) => true,
        _ => false,
    }
}

/// The field changes an update of `existing` records.
pub fn task_field_changes(existing: &Task, input: &UpdateTaskInput) -> (changes: Vec<FieldChange>)
    ensures
        change_views(changes@) == task_changes(task_fields(*existing), update_view(*input)),
{
    let mut changes: Vec<FieldChange> = Vec::new();
    if let Some(t) = &input.title {
        if !str_eq(t.as_str(), existing.title.as_str()) {
            changes.push(
                FieldChange {
                    field_name: owned("title"),
                    old_value: Some(existing.title.clone()),
                    new_value: Some(t.clone()),
                },
            );
        }
    }
    let ghost after_title = changes@;
    if let Some(p) = &input.priority {
        if !str_eq(p.as_str(), existing.priority.as_str()) {
            changes.push(
                FieldChange {
                    field_name: owned("priority"),
                    old_value: Some(existing.priority.clone()),
                    new_value: Some(p.clone()),
                },
            );
        }
    }
    let ghost after_priority = changes@;
    if input.deadline.is_some() && !opt_str_eq(&input.deadline, &existing.deadline) {
        changes.push(
            FieldChange {
                field_name: owned("deadline"),
                old_value: copy_opt(&existing.deadline),
                new_value: copy_opt(&input.deadline),
            },
        );
    }
    assert(change_views(changes@) =~= task_changes(task_fields(*existing), update_view(*input)));
    changes
}

/// Updating a task with the fields it already has records nothing; so does applying an
/// update a second time.
pub proof fn lemma_reapplied_update_records_nothing(e: TaskFieldsView, u: TaskUpdateView)
    ensures
        task_changes(merge_task(e, u), u).len() == 0,
{
}

/// The status changes a task allows: pending to in-progress or archived, in-progress to
/// completed or back to pending, completed to archived or back to in-progress, archived
/// back to pending or in-progress.
pub open spec fn is_valid_transition(from: TaskStatus, to: TaskStatus) -> bool {
    match (from, to) {
        (TaskStatus::Pending, TaskStatus::InProgress) => true,
        (TaskStatus::Pending, TaskStatus::Archived) => true,
        (TaskStatus::InProgress, TaskStatus::Completed) => true,
        (TaskStatus::InProgress, TaskStatus::Pending) => true,
        (TaskStatus::Completed, TaskStatus::Archived) => true,
        (TaskStatus::Completed, TaskStatus::InProgress) => true,
        (TaskStatus::Archived, TaskStatus::Pending) => true,
        (TaskStatus::Archived, TaskStatus::InProgress) => true,
        _ => false,
    }
}

/// Whether a task may go from one status to another.
pub fn can_transition(from: TaskStatus, to: TaskStatus) -> (res: bool)
    ensures
        res == is_valid_transition(from, to),
{
    match (from, to) {
        (TaskStatus::Pending, TaskStatus::InProgress) => true,
        (TaskStatus::Pending, TaskStatus::Archived) => true,
        (TaskStatus::InProgress, TaskStatus::Completed) => true,
        (TaskStatus::InProgress, TaskStatus::Pending) => true,
        (TaskStatus::Completed, TaskStatus::Archived) => true,
        (TaskStatus::Completed, TaskStatus::InProgress) => true,
        (TaskStatus::Archived, TaskStatus::Pending) => true,
        (TaskStatus::Archived, TaskStatus::InProgress) => true,
        _ => false,
    }
}

/// A task never "changes" to the status it has; only an in-progress task can be completed;
/// every status can reach every other one in at most two allowed steps.
pub proof fn lemma_transitions(a: TaskStatus, b: TaskStatus)
    ensures
        !is_valid_transition(a, a),
        is_valid_transition(a, TaskStatus::Completed) ==> a == TaskStatus::InProgress,
        a != b ==> (is_valid_transition(a, b) || exists|m: TaskStatus|
            is_valid_transition(a, m) && is_valid_transition(m, b)),
{
    if a != b && !is_valid_transition(a, b) {
        if b == TaskStatus::Completed {
            assert(is_valid_transition(a, TaskStatus::InProgress) && is_valid_transition(
                TaskStatus::InProgress,
                b,
            ));
        } else {
            assert(is_valid_transition(a, TaskStatus::Pending) || is_valid_transition(a, TaskStatus::InProgress));
            if is_valid_transition(a, TaskStatus::Pending) {
                assert(is_valid_transition(TaskStatus::Pending, b) || b == TaskStatus::Completed);
            } else {
                assert(is_valid_transition(TaskStatus::InProgress, b));
            }
        }
    }
}

/// A status change that may be made, and the change it records.
#[derive(Debug, Clone, PartialEq)]
pub struct StatusUpdate {
    pub status: TaskStatus,
    pub change: FieldChange,
}

/// A refused status change.
#[derive(Debug, Clone, Copy, PartialEq, Eq)]
pub enum StatusUpdateError {
    InvalidTransition,
}

/// The status change from the stored status text `current` to the requested text
/// `requested` (both read as status names, unknown ones as `pending`): allowed exactly
/// when the transition is valid, and then recorded as a change of `status` from the stored
/// text to the name of the new status.
pub fn plan_status_update(current: &str, requested: &str) -> (res: Result<StatusUpdate, StatusUpdateError>)
    ensures
        ({
            let from = TaskStatus::from_name(current@);
            let to = TaskStatus::from_name(requested@);
            match res {
                Ok(u) => is_valid_transition(from, to) && u.status == to && change_view(u.change)
                    == ("status"@, Some(current@), Some(to.name())),
                Err(_) => !is_valid_transition(from, to),
            }
        }),
{
    let from = TaskStatus::from_str_value(current);
    let to = TaskStatus::from_str_value(requested);
    if !can_transition(from, to) {
        return Err(StatusUpdateError::InvalidTransition);
    }
    Ok(
        StatusUpdate {
            status: to,
            change: FieldChange {
                field_name: owned("status"),
                old_value: Some(owned(current)),
                new_value: Some(owned(to.as_str())),
            },
        },
    )
}

/// The values a new task row is inserted with; its status is `pending`.
#[derive(Debug, Clone, PartialEq)]
pub struct NewTaskRow {
    pub id: String,
    pub title: String,
    pub description: Option<String>,
    pub priority: String,
    pub client_id: Option<String>,
    pub project_id: Option<String>,
    pub deadline: Option<String>,
    pub tags: Option<String>,
    pub source_type: String,
    pub source_image: Option<String>,
    pub ocr_text: Option<String>,
    pub ai_confidence_bits: Option<u64>,
}

/// The row `row` is the new task made from `input` under the id `id`: priority `none` and
/// source `manual` when the input gives none, the tag list as its JSON text.
pub open spec fn is_new_task_row(row: NewTaskRow, id: Seq<char>, input: CreateTaskInput) -> bool {
    &&& row.id@ == id
    &&& row.title@ == input.title@
    &&& opt_view(row.description) == opt_view(input.description)
    &&& row.priority@ == (match input.priority {
        Some(p) => p@,
        None => "none"@,
    })
    &&& opt_view(row.client_id) == opt_view(input.client_id)
    &&& opt_view(row.project_id) == opt_view(input.project_id)
    &&& opt_view(row.deadline) == opt_view(input.deadline)
    &&& opt_view(row.tags) == (match input.tags {
        Some(t) => Some(json_string_array(views(t@))),
        None => None,
    })
    &&& row.source_type@ == (match input.source_type {
        Some(s) => s@,
        None => "manual"@,
    })
    &&& opt_view(row.source_image) == opt_view(input.source_image)
    &&& opt_view(row.ocr_text) == opt_view(input.ocr_text)
    &&& row.ai_confidence_bits == input.ai_confidence_bits
}

/// The row of a new task with the given id.
pub fn new_task_row_with_id(id: String, input: &CreateTaskInput) -> (row: NewTaskRow)
    ensures
        is_new_task_row(row, id@, *input),
{
    let tags = match &input.tags {
        Some(t) => Some(strings_to_json(t)),
        None => None,
    };
    NewTaskRow {
        id,
        title: input.title.clone(),
        description: copy_opt(&input.description),
        priority: match &input.priority {
            Some(p) => p.clone(),
            None => owned("none"),
        },
        client_id: copy_opt(&input.client_id),
        project_id: copy_opt(&input.project_id),
        deadline: copy_opt(&input.deadline),
        tags,
        source_type: match &input.source_type {
            Some(s) => s.clone(),
            None => owned("manual"),
        },
        source_image: copy_opt(&input.source_image),
        ocr_text: copy_opt(&input.ocr_text),
        ai_confidence_bits: input.ai_confidence_bits,
    }
}

/// The row of a new task under a fresh id.
pub fn new_task_row(input: &CreateTaskInput) -> (row: NewTaskRow)
    ensures
        is_uuid_v7_text(row.id@),
        is_new_task_row(row, row.id@, *input),
{
    new_task_row_with_id(new_record_id(), input)
}

/// The `LIKE` pattern that matches texts containing `query`.
pub fn like_pattern(query: &str) -> (p: String)
    ensures
        p@ == seq!['%'] + query@ + seq!['%'],
{
    proof {
        reveal_strlit("%");
    }
    concat3("%", query, "%")
}

/// The columns a task is read with, from the task table.
pub const TASK_SELECT: &'static str = "SELECT id, title, description, status, priority, client_id, project_id, deadline, tags, source_type, source_image, ocr_text, ai_confidence, created_at, updated_at, completed_at, archived_at FROM tasks";

/// A query and its parameters, bound in order to its `?` placeholders.
#[derive(Debug, Clone, PartialEq)]
pub struct Query {
    pub sql: String,
    pub params: Vec<String>,
}

/// `piece` when the value is present, else nothing.
pub open spec fn when_some(o: Option<String>, piece: Seq<char>) -> Seq<char> {
    if o is Some {
        piece
    } else {
        Seq::empty()
    }
}

/// The value of `o`, as a one-element list, when present.
pub open spec fn param_of(o: Option<String>) -> Seq<Seq<char>> {
    match o {
        Some(v) => seq![v@],
        None => Seq::empty(),
    }
}

/// The SQL of the task list for a filter: each present filter field adds its condition,
/// newest first, at most `limit` (100 by default) from `offset` (0 by default).
pub open spec fn task_list_sql(f: TaskFilter) -> Seq<char> {
    TASK_SELECT@ + " WHERE 1=1"@ + when_some(f.status, " AND status = ?"@) + when_some(
        f.priority,
        " AND priority = ?"@,
    ) + when_some(f.client_id, " AND client_id = ?"@) + when_some(f.project_id, " AND project_id = ?"@)
        + when_some(f.deadline_start, " AND deadline >= ?"@) + when_some(
        f.deadline_end,
        " AND deadline <= ?"@,
    ) + when_some(f.search, " AND (title LIKE ? OR description LIKE ?)"@) + " ORDER BY created_at DESC"@
        + " LIMIT "@ + int_text(
        match f.limit {
            Some(l) => l as int,
            None => 100,
        },
    ) + " OFFSET "@ + int_text(
        match f.offset {
            Some(o) => o as int,
            None => 0,
        },
    )
}

/// The parameters of the task list for a filter, in the order of their placeholders; the
/// search text is bound twice, as a `LIKE` pattern.
pub open spec fn task_list_params(f: TaskFilter) -> Seq<Seq<char>> {
    param_of(f.status) + param_of(f.priority) + param_of(f.client_id) + param_of(f.project_id)
        + param_of(f.deadline_start) + param_of(f.deadline_end) + match f.search {
        Some(s) => seq![seq!['%'] + s@ + seq!['%'], seq!['%'] + s@ + seq!['%']],
        None => Seq::empty(),
    }
}

proof fn lemma_condition_placeholders(o: Option<String>, piece: Seq<char>)
    requires
        char_count(piece, '?') == 1,
    ensures
        char_count(when_some(o, piece), '?') == param_of(o).len(),
{
    if o is None {
        assert(char_count(Seq::<char>::empty(), '?') == 0);
    }
}

proof fn lemma_fixed_pieces_placeholders()
    ensures
        char_count(TASK_SELECT@, '?') == 0,
        char_count(" WHERE 1=1"@, '?') == 0,
        char_count(" ORDER BY created_at DESC"@, '?') == 0,
        char_count(" LIMIT "@, '?') == 0,
        char_count(" OFFSET "@, '?') == 0,
        char_count(" AND status = ?"@, '?') == 1,
        char_count(" AND priority = ?"@, '?') == 1,
        char_count(" AND client_id = ?"@, '?') == 1,
        char_count(" AND project_id = ?"@, '?') == 1,
        char_count(" AND deadline >= ?"@, '?') == 1,
        char_count(" AND deadline <= ?"@, '?') == 1,
        char_count(" AND (title LIKE ? OR description LIKE ?)"@, '?') == 2,
{
    reveal_strlit(
        "SELECT id, title, description, status, priority, client_id, project_id, deadline, tags, source_type, source_image, ocr_text, ai_confidence, created_at, updated_at, completed_at, archived_at FROM tasks",
    );
    reveal_strlit(" WHERE 1=1");
    reveal_strlit(" ORDER BY created_at DESC");
    reveal_strlit(" LIMIT ");
    reveal_strlit(" OFFSET ");
    lemma_char_count_absent(TASK_SELECT@, '?');
    lemma_char_count_absent(" WHERE 1=1"@, '?');
    lemma_char_count_absent(" ORDER BY created_at DESC"@, '?');
    lemma_char_count_absent(" LIMIT "@, '?');
    lemma_char_count_absent(" OFFSET "@, '?');
    reveal_strlit(" AND status = ?");
    lemma_one_placeholder(" AND status = ?"@);
    reveal_strlit(" AND priority = ?");
    lemma_one_placeholder(" AND priority = ?"@);
    reveal_strlit(" AND client_id = ?");
    lemma_one_placeholder(" AND client_id = ?"@);
    reveal_strlit(" AND project_id = ?");
    lemma_one_placeholder(" AND project_id = ?"@);
    reveal_strlit(" AND deadline >= ?");
    lemma_one_placeholder(" AND deadline >= ?"@);
    reveal_strlit(" AND deadline <= ?");
    lemma_one_placeholder(" AND deadline <= ?"@);
    reveal_strlit(" AND (title LIKE ? OR description LIKE ?)");
    let search = " AND (title LIKE ? OR description LIKE ?)"@;
    let body = search.drop_last();
    lemma_char_count_concat(body.take(18), body.skip(18), '?');
    assert(body.take(18) + body.skip(18) =~= body);
    lemma_one_placeholder(body.take(18));
    lemma_one_placeholder(body.skip(18));
}

/// A text whose last character is the only `?` in it.
proof fn lemma_one_placeholder(s: Seq<char>)
    requires
        s.len() > 0,
        s.last() == '?',
        forall|i: int| 0 <= i < s.len() - 1 ==> s[i] != '?',
    ensures
        char_count(s, '?') == 1,
{
    lemma_char_count_absent(s.drop_last(), '?');
}

/// The list query has one `?` placeholder for each of its parameters.
pub proof fn lemma_list_query_placeholders(f: TaskFilter)
    ensures
        char_count(task_list_sql(f), '?') == task_list_params(f).len(),
{
    lemma_fixed_pieces_placeholders();
    let limit: int = match f.limit {
        Some(l) => l as int,
        None => 100,
    };
    let offset: int = match f.offset {
        Some(o) => o as int,
        None => 0,
    };
    lemma_int_text_count(limit, '?');
    lemma_int_text_count(offset, '?');
    let search = when_some(f.search, " AND (title LIKE ? OR description LIKE ?)"@);
    if f.search is None {
        assert(char_count(Seq::<char>::empty(), '?') == 0);
    }
    lemma_condition_placeholders(f.status, " AND status = ?"@);
    lemma_condition_placeholders(f.priority, " AND priority = ?"@);
    lemma_condition_placeholders(f.client_id, " AND client_id = ?"@);
    lemma_condition_placeholders(f.project_id, " AND project_id = ?"@);
    lemma_condition_placeholders(f.deadline_start, " AND deadline >= ?"@);
    lemma_condition_placeholders(f.deadline_end, " AND deadline <= ?"@);
    let p1 = TASK_SELECT@ + " WHERE 1=1"@;
    lemma_char_count_concat(TASK_SELECT@, " WHERE 1=1"@, '?');
    let p2 = p1 + when_some(f.status, " AND status = ?"@);
    lemma_char_count_concat(p1, when_some(f.status, " AND status = ?"@), '?');
    let p3 = p2 + when_some(f.priority, " AND priority = ?"@);
    lemma_char_count_concat(p2, when_some(f.priority, " AND priority = ?"@), '?');
    let p4 = p3 + when_some(f.client_id, " AND client_id = ?"@);
    lemma_char_count_concat(p3, when_some(f.client_id, " AND client_id = ?"@), '?');
    let p5 = p4 + when_some(f.project_id, " AND project_id = ?"@);
    lemma_char_count_concat(p4, when_some(f.project_id, " AND project_id = ?"@), '?');
    let p6 = p5 + when_some(f.deadline_start, " AND deadline >= ?"@);
    lemma_char_count_concat(p5, when_some(f.deadline_start, " AND deadline >= ?"@), '?');
    let p7 = p6 + when_some(f.deadline_end, " AND deadline <= ?"@);
    lemma_char_count_concat(p6, when_some(f.deadline_end, " AND deadline <= ?"@), '?');
    let p8 = p7 + search;
    lemma_char_count_concat(p7, search, '?');
    let p9 = p8 + " ORDER BY created_at DESC"@;
    lemma_char_count_concat(p8, " ORDER BY created_at DESC"@, '?');
    let p10 = p9 + " LIMIT "@;
    lemma_char_count_concat(p9, " LIMIT "@, '?');
    let p11 = p10 + int_text(limit);
    lemma_char_count_concat(p10, int_text(limit), '?');
    let p12 = p11 + " OFFSET "@;
    lemma_char_count_concat(p11, " OFFSET "@, '?');
    let p13 = p12 + int_text(offset);
    lemma_char_count_concat(p12, int_text(offset), '?');
    assert(p13 == task_list_sql(f));
}

/// The pieces the list query is made of, in order.
spec fn list_parts(f: TaskFilter) -> Seq<Seq<char>> {
    seq![
        TASK_SELECT@,
        " WHERE 1=1"@,
        when_some(f.status, " AND status = ?"@),
        when_some(f.priority, " AND priority = ?"@),
        when_some(f.client_id, " AND client_id = ?"@),
        when_some(f.project_id, " AND project_id = ?"@),
        when_some(f.deadline_start, " AND deadline >= ?"@),
        when_some(f.deadline_end, " AND deadline <= ?"@),
        when_some(f.search, " AND (title LIKE ? OR description LIKE ?)"@),
        " ORDER BY created_at DESC"@,
        " LIMIT "@,
        int_text(
            match f.limit {
                Some(l) => l as int,
                None => 100,
            },
        ),
        " OFFSET "@,
        int_text(
            match f.offset {
                Some(o) => o as int,
                None => 0,
            },
        ),
    ]
}

proof fn lemma_list_parts(f: TaskFilter)
    ensures
        task_list_sql(f) == concat_all(list_parts(f)),
{
    let p = list_parts(f);
    assert(p.take(0) =~= Seq::<Seq<char>>::empty());
    assert(p.take(1).drop_last() =~= p.take(0));
    assert(concat_all(p.take(1)) == concat_all(p.take(0)) + p[0]);
    assert(p.take(2).drop_last() =~= p.take(1));
    assert(concat_all(p.take(2)) == concat_all(p.take(1)) + p[1]);
    assert(p.take(3).drop_last() =~= p.take(2));
    assert(concat_all(p.take(3)) == concat_all(p.take(2)) + p[2]);
    assert(p.take(4).drop_last() =~= p.take(3));
    assert(concat_all(p.take(4)) == concat_all(p.take(3)) + p[3]);
    assert(p.take(5).drop_last() =~= p.take(4));
    assert(concat_all(p.take(5)) == concat_all(p.take(4)) + p[4]);
    assert(p.take(6).drop_last() =~= p.take(5));
    assert(concat_all(p.take(6)) == concat_all(p.take(5)) + p[5]);
    assert(p.take(7).drop_last() =~= p.take(6));
    assert(concat_all(p.take(7)) == concat_all(p.take(6)) + p[6]);
    assert(p.take(8).drop_last() =~= p.take(7));
    assert(concat_all(p.take(8)) == concat_all(p.take(7)) + p[7]);
    assert(p.take(9).drop_last() =~= p.take(8));
    assert(concat_all(p.take(9)) == concat_all(p.take(8)) + p[8]);
    assert(p.take(10).drop_last() =~= p.take(9));
    assert(concat_all(p.take(10)) == concat_all(p.take(9)) + p[9]);
    assert(p.take(11).drop_last() =~= p.take(10));
    assert(concat_all(p.take(11)) == concat_all(p.take(10)) + p[10]);
    assert(p.take(12).drop_last() =~= p.take(11));
    assert(concat_all(p.take(12)) == concat_all(p.take(11)) + p[11]);
    assert(p.take(13).drop_last() =~= p.take(12));
    assert(concat_all(p.take(13)) == concat_all(p.take(12)) + p[12]);
    assert(p.take(14).drop_last() =~= p.take(13));
    assert(concat_all(p.take(14)) == concat_all(p.take(13)) + p[13]);
    assert(p.take(14) =~= p);
}

proof fn lemma_list_count(f: TaskFilter, c: char, limit: int, offset: int)
    requires
        limit == (match f.limit {
            Some(l) => l as int,
            None => 100,
        }),
        offset == (match f.offset {
            Some(o) => o as int,
            None => 0,
        }),
    ensures
        char_count(task_list_sql(f), c) == char_count(TASK_SELECT@, c)
            + char_count(" WHERE 1=1"@, c)
            + char_count(when_some(f.status, " AND status = ?"@), c)
            + char_count(when_some(f.priority, " AND priority = ?"@), c)
            + char_count(when_some(f.client_id, " AND client_id = ?"@), c)
            + char_count(when_some(f.project_id, " AND project_id = ?"@), c)
            + char_count(when_some(f.deadline_start, " AND deadline >= ?"@), c)
            + char_count(when_some(f.deadline_end, " AND deadline <= ?"@), c)
            + char_count(when_some(f.search, " AND (title LIKE ? OR description LIKE ?)"@), c)
            + char_count(" ORDER BY created_at DESC"@, c)
            + char_count(" LIMIT "@, c)
            + char_count(int_text(limit), c)
            + char_count(" OFFSET "@, c)
            + char_count(int_text(offset), c),
{
    lemma_list_parts(f);
    let p = list_parts(f);
    lemma_count_concat_all(p, c);
    assert(p.take(0) =~= Seq::<Seq<char>>::empty());
    assert(p.take(1).drop_last() =~= p.take(0));
    assert(count_all(p.take(1), c) == count_all(p.take(0), c) + char_count(p[0], c));
    assert(p.take(2).drop_last() =~= p.take(1));
    assert(count_all(p.take(2), c) == count_all(p.take(1), c) + char_count(p[1], c));
    assert(p.take(3).drop_last() =~= p.take(2));
    assert(count_all(p.take(3), c) == count_all(p.take(2), c) + char_count(p[2], c));
    assert(p.take(4).drop_last() =~= p.take(3));
    assert(count_all(p.take(4), c) == count_all(p.take(3), c) + char_count(p[3], c));
    assert(p.take(5).drop_last() =~= p.take(4));
    assert(count_all(p.take(5), c) == count_all(p.take(4), c) + char_count(p[4], c));
    assert(p.take(6).drop_last() =~= p.take(5));
    assert(count_all(p.take(6), c) == count_all(p.take(5), c) + char_count(p[5], c));
    assert(p.take(7).drop_last() =~= p.take(6));
    assert(count_all(p.take(7), c) == count_all(p.take(6), c) + char_count(p[6], c));
    assert(p.take(8).drop_last() =~= p.take(7));
    assert(count_all(p.take(8), c) == count_all(p.take(7), c) + char_count(p[7], c));
    assert(p.take(9).drop_last() =~= p.take(8));
    assert(count_all(p.take(9), c) == count_all(p.take(8), c) + char_count(p[8], c));
    assert(p.take(10).drop_last() =~= p.take(9));
    assert(count_all(p.take(10), c) == count_all(p.take(9), c) + char_count(p[9], c));
    assert(p.take(11).drop_last() =~= p.take(10));
    assert(count_all(p.take(11), c) == count_all(p.take(10), c) + char_count(p[10], c));
    assert(p.take(12).drop_last() =~= p.take(11));
    assert(count_all(p.take(12), c) == count_all(p.take(11), c) + char_count(p[11], c));
    assert(p.take(13).drop_last() =~= p.take(12));
    assert(count_all(p.take(13), c) == count_all(p.take(12), c) + char_count(p[12], c));
    assert(p.take(14).drop_last() =~= p.take(13));
    assert(count_all(p.take(14), c) == count_all(p.take(13), c) + char_count(p[13], c));
    assert(p.take(14) =~= p);
}

proof fn lemma_count_when(o: Option<String>, piece: Seq<char>, c: char, n: nat)
    requires
        char_count(piece, c) == n,
    ensures
        char_count(when_some(o, piece), c) == (if o is Some {
            n
        } else {
            0
        }),
{
    if o is None {
        assert(char_count(Seq::<char>::empty(), c) == 0);
    }
}

proof fn lemma_comparison_signs(c: char)
    requires
        c == '<' || c == '>',
    ensures
        char_count(TASK_SELECT@, c) == 0,
        char_count(" WHERE 1=1"@, c) == 0,
        char_count(" AND status = ?"@, c) == 0,
        char_count(" AND priority = ?"@, c) == 0,
        char_count(" AND client_id = ?"@, c) == 0,
        char_count(" AND project_id = ?"@, c) == 0,
        char_count(" AND deadline >= ?"@, c) == (if c == '>' {
            1nat
        } else {
            0
        }),
        char_count(" AND deadline <= ?"@, c) == (if c == '<' {
            1nat
        } else {
            0
        }),
        char_count(" AND (title LIKE ? OR description LIKE ?)"@, c) == 0,
        char_count(" ORDER BY created_at DESC"@, c) == 0,
        char_count(" LIMIT "@, c) == 0,
        char_count(" OFFSET "@, c) == 0,
{
    reveal_strlit(
        "SELECT id, title, description, status, priority, client_id, project_id, deadline, tags, source_type, source_image, ocr_text, ai_confidence, created_at, updated_at, completed_at, archived_at FROM tasks",
    );
    reveal_strlit(" WHERE 1=1");
    reveal_strlit(" AND status = ?");
    reveal_strlit(" AND priority = ?");
    reveal_strlit(" AND client_id = ?");
    reveal_strlit(" AND project_id = ?");
    reveal_strlit(" AND deadline >= ?");
    reveal_strlit(" AND deadline <= ?");
    reveal_strlit(" AND (title LIKE ? OR description LIKE ?)");
    reveal_strlit(" ORDER BY created_at DESC");
    reveal_strlit(" LIMIT ");
    reveal_strlit(" OFFSET ");
    lemma_char_count_absent(TASK_SELECT@, c);
    lemma_char_count_absent(" WHERE 1=1"@, c);
    lemma_char_count_absent(" AND status = ?"@, c);
    lemma_char_count_absent(" AND priority = ?"@, c);
    lemma_char_count_absent(" AND client_id = ?"@, c);
    lemma_char_count_absent(" AND project_id = ?"@, c);
    lemma_char_count_absent(" AND (title LIKE ? OR description LIKE ?)"@, c);
    lemma_char_count_absent(" ORDER BY created_at DESC"@, c);
    lemma_char_count_absent(" LIMIT "@, c);
    lemma_char_count_absent(" OFFSET "@, c);
    if c == '>' {
        lemma_char_count_single(" AND deadline >= ?"@, c, 14);
        lemma_char_count_absent(" AND deadline <= ?"@, c);
    } else {
        lemma_char_count_single(" AND deadline <= ?"@, c, 14);
        lemma_char_count_absent(" AND deadline >= ?"@, c);
    }
}

/// The list query bounds the deadline from above exactly when the filter gives an end
/// date, and from below exactly when it gives a start date: its one `<` (in
/// `deadline <= ?`) comes with `deadline_end`, its one `>` (in `deadline >= ?`) with
/// `deadline_start`.
pub proof fn lemma_list_query_deadline_bounds(f: TaskFilter)
    ensures
        char_count(task_list_sql(f), '<') == (if f.deadline_end is Some {
            1nat
        } else {
            0
        }),
        char_count(task_list_sql(f), '>') == (if f.deadline_start is Some {
            1nat
        } else {
            0
        }),
{
    let limit: int = match f.limit {
        Some(l) => l as int,
        None => 100,
    };
    let offset: int = match f.offset {
        Some(o) => o as int,
        None => 0,
    };
    reveal_strlit("-");
    assert('<' != '-' && '>' != '-');
    lemma_int_text_count(limit, '<');
    lemma_int_text_count(offset, '<');
    lemma_int_text_count(limit, '>');
    lemma_int_text_count(offset, '>');
    lemma_comparison_signs('<');
    lemma_comparison_signs('>');
    lemma_list_count(f, '<', limit, offset);
    lemma_list_count(f, '>', limit, offset);
    lemma_count_when(f.status, " AND status = ?"@, '<', 0);
    lemma_count_when(f.priority, " AND priority = ?"@, '<', 0);
    lemma_count_when(f.client_id, " AND client_id = ?"@, '<', 0);
    lemma_count_when(f.project_id, " AND project_id = ?"@, '<', 0);
    lemma_count_when(f.deadline_start, " AND deadline >= ?"@, '<', 0);
    lemma_count_when(f.deadline_end, " AND deadline <= ?"@, '<', 1);
    lemma_count_when(f.search, " AND (title LIKE ? OR description LIKE ?)"@, '<', 0);
    lemma_count_when(f.status, " AND status = ?"@, '>', 0);
    lemma_count_when(f.priority, " AND priority = ?"@, '>', 0);
    lemma_count_when(f.client_id, " AND client_id = ?"@, '>', 0);
    lemma_count_when(f.project_id, " AND project_id = ?"@, '>', 0);
    lemma_count_when(f.deadline_start, " AND deadline >= ?"@, '>', 1);
    lemma_count_when(f.deadline_end, " AND deadline <= ?"@, '>', 0);
    lemma_count_when(f.search, " AND (title LIKE ? OR description LIKE ?)"@, '>', 0);
}

proof fn lemma_contains_self(piece: Seq<char>)
    ensures
        contains_text(piece, piece),
{
    let i: int = 0;
    assert(piece.subrange(i, i + piece.len()) =~= piece);
}

/// Each filter field the filter gives puts its own condition into the list query:
/// `status = ?`, `priority = ?`, `client_id = ?`, `project_id = ?`, `deadline >= ?` for the
/// start date, `deadline <= ?` for the end date, and the `LIKE` pair for a search.
pub proof fn lemma_list_query_conditions(f: TaskFilter)
    ensures
        f.status is Some ==> contains_text(task_list_sql(f), " AND status = ?"@),
        f.priority is Some ==> contains_text(task_list_sql(f), " AND priority = ?"@),
        f.client_id is Some ==> contains_text(task_list_sql(f), " AND client_id = ?"@),
        f.project_id is Some ==> contains_text(task_list_sql(f), " AND project_id = ?"@),
        f.deadline_start is Some ==> contains_text(task_list_sql(f), " AND deadline >= ?"@),
        f.deadline_end is Some ==> contains_text(task_list_sql(f), " AND deadline <= ?"@),
        f.search is Some ==> contains_text(task_list_sql(f), " AND (title LIKE ? OR description LIKE ?)"@),
        contains_text(task_list_sql(f), " ORDER BY created_at DESC"@),
{
    lemma_list_parts(f);
    let p = list_parts(f);
    if f.status is Some {
        lemma_contains_self(" AND status = ?"@);
        lemma_contains_concat_all(p, 2, " AND status = ?"@);
    }
    if f.priority is Some {
        lemma_contains_self(" AND priority = ?"@);
        lemma_contains_concat_all(p, 3, " AND priority = ?"@);
    }
    if f.client_id is Some {
        lemma_contains_self(" AND client_id = ?"@);
        lemma_contains_concat_all(p, 4, " AND client_id = ?"@);
    }
    if f.project_id is Some {
        lemma_contains_self(" AND project_id = ?"@);
        lemma_contains_concat_all(p, 5, " AND project_id = ?"@);
    }
    if f.deadline_start is Some {
        lemma_contains_self(" AND deadline >= ?"@);
        lemma_contains_concat_all(p, 6, " AND deadline >= ?"@);
    }
    if f.deadline_end is Some {
        lemma_contains_self(" AND deadline <= ?"@);
        lemma_contains_concat_all(p, 7, " AND deadline <= ?"@);
    }
    if f.search is Some {
        lemma_contains_self(" AND (title LIKE ? OR description LIKE ?)"@);
        lemma_contains_concat_all(p, 8, " AND (title LIKE ? OR description LIKE ?)"@);
    }
    lemma_contains_self(" ORDER BY created_at DESC"@);
    lemma_contains_concat_all(p, 9, " ORDER BY created_at DESC"@);
}

fn add_condition(sql: &mut String, params: &mut Vec<String>, value: &Option<String>, condition: &str)
    ensures
        final(sql)@ == old(sql)@ + when_some(*value, condition@),
        views(final(params)@) == views(old(params)@) + param_of(*value),
{
    match value {
        Some(v) => {
            sql.append(condition);
            let ghost before = params@;
            params.push(v.clone());
            assert(views(params@) =~= views(before) + param_of(*value));
        },
        None => {
            assert(sql@ =~= sql@ + Seq::<char>::empty());
            assert(views(params@) =~= views(params@) + param_of(*value));
        },
    }
}

/// The query that lists the tasks a filter selects.
pub fn build_task_list_query(filter: &TaskFilter) -> (q: Query)
    ensures
        q.sql@ == task_list_sql(*filter),
        views(q.params@) == task_list_params(*filter),
{
    let mut sql = concat2(TASK_SELECT, " WHERE 1=1");
    let mut params: Vec<String> = Vec::new();
    add_condition(&mut sql, &mut params, &filter.status, " AND status = ?");
    add_condition(&mut sql, &mut params, &filter.priority, " AND priority = ?");
    add_condition(&mut sql, &mut params, &filter.client_id, " AND client_id = ?");
    add_condition(&mut sql, &mut params, &filter.project_id, " AND project_id = ?");
    add_condition(&mut sql, &mut params, &filter.deadline_start, " AND deadline >= ?");
    add_condition(&mut sql, &mut params, &filter.deadline_end, " AND deadline <= ?");
    let ghost before_search = params@;
    match &filter.search {
        Some(search) => {
            sql.append(" AND (title LIKE ? OR description LIKE ?)");
            let pattern = like_pattern(search.as_str());
            params.push(pattern.clone());
            params.push(pattern);
        },
        None => {},
    }
    assert(views(params@) =~= task_list_params(*filter));
    sql.append(" ORDER BY created_at DESC");
    let limit: i64 = match filter.limit {
        Some(l) => l,
        None => 100,
    };
    let offset: i64 = match filter.offset {
        Some(o) => o,
        None => 0,
    };
    sql.append(" LIMIT ");
    sql.append(i64_text(limit).as_str());
    sql.append(" OFFSET ");
    sql.append(i64_text(offset).as_str());
    assert(sql@ =~= task_list_sql(*filter));
    Query { sql, params }
}

} // verus!
