//! The task queue: reading tasks, the plan within reach of a root task, and claiming its tasks.
use vstd::prelude::*;
use crate::json::{
    copy_without, field_in, find_member, items_view, json_of_text, member, members_view,
    nested_object, nested_object_text, ordered, parts_make_the_view, read_text, reads_as, text_in,
    without, write_nested, Json, JsonView, Member, MemberView,
};
use crate::command::Finished;
use crate::graph;
use crate::graph::{Defect, Graph};
use crate::outcome::{seen, shown};
use crate::table::{
    ascending, ascending_is_listed, first_fault, first_fault_exists, first_in_order, listed,
    rows_hold_the_keys, Table,
};
use crate::paths::{below, path_below};
use crate::text::{
    before, blank, decimal, describe_exit, exit_text, is_blank, join, joined, same, texts,
    to_decimal, trim, trimmed,
};

verus! {

/// The environment variable that names the SQ executable.
pub const SQ_EXECUTABLE_ENV: &'static str = "AGENT_ORCHESTRATOR_SQ";

/// The environment variable that names the queue.
pub const SQ_QUEUE_ENV: &'static str = "SQ_QUEUE_PATH";

/// The status of a task.
#[derive(Debug, Clone, Copy, PartialEq, Eq, Structural)]
pub enum TaskStatus {
    Pending,
    Blocked,
    InProgress,
    Closed,
}

/// The status that a word names.
pub open spec fn status_named(word: Seq<char>) -> Option<TaskStatus> {
    if word == "pending"@ {
        Some(TaskStatus::Pending)
    } else if word == "blocked"@ {
        Some(TaskStatus::Blocked)
    } else if word == "in_progress"@ {
        Some(TaskStatus::InProgress)
    } else if word == "closed"@ {
        Some(TaskStatus::Closed)
    } else {
        None
    }
}

impl TaskStatus {
    /// The word for a status.
    pub open spec fn word(self) -> Seq<char> {
        match self {
            TaskStatus::Pending => "pending"@,
            TaskStatus::Blocked => "blocked"@,
            TaskStatus::InProgress => "in_progress"@,
            TaskStatus::Closed => "closed"@,
        }
    }

    /// Reads the word for a status.
    pub fn parse(value: &str) -> (r: Option<TaskStatus>)
        ensures
            r == status_named(value@),
    {
        if same(value, "pending") {
            Some(TaskStatus::Pending)
        } else if same(value, "blocked") {
            Some(TaskStatus::Blocked)
        } else if same(value, "in_progress") {
            Some(TaskStatus::InProgress)
        } else if same(value, "closed") {
            Some(TaskStatus::Closed)
        } else {
            None
        }
    }

    /// The word for a status.
    pub fn as_str(&self) -> (r: &'static str)
        ensures
            r@ == self.word(),
    {
        match self {
            TaskStatus::Pending => "pending",
            TaskStatus::Blocked => "blocked",
            TaskStatus::InProgress => "in_progress",
            TaskStatus::Closed => "closed",
        }
    }
}

/// Every status is read back from its word.
pub proof fn status_words_name_their_status(status: TaskStatus)
    ensures
        status_named(status.word()) == Some(status),
{
    reveal_strlit("pending");
    reveal_strlit("blocked");
    reveal_strlit("in_progress");
    reveal_strlit("closed");
    assert("pending"@[0] != "blocked"@[0]);
    assert("pending"@[0] != "in_progress"@[0]);
    assert("pending"@[0] != "closed"@[0]);
    assert("blocked"@[0] != "in_progress"@[0]);
    assert("blocked"@[0] != "closed"@[0]);
    assert("in_progress"@[0] != "closed"@[0]);
}

/// Why the queue cannot be used as asked.
#[derive(Debug)]
#[allow(inconsistent_fields)]
pub enum Error {
    ReadQueue { path: String, source: String },
    InvalidJson { path: String, line: usize, source: String },
    InvalidTask { line: usize, reason: String },
    DuplicateTask { task_id: String },
    MissingRoot { task_id: String },
    MissingBlocker { task_id: String, blocker_id: String },
    DependencyCycle { task_ids: Vec<String> },
    PlanDrift { root_task_id: String },
    ForeignOwnership { task_id: String, owner_run_id: String, run_id: String },
    UnownedInProgress { task_id: String },
    TaskOutsideScope { task_id: String, root_task_id: String },
    TaskNotReady { task_id: String, status: TaskStatus },
    StartSq { executable: String, source: String },
    SqFailed { executable: String, status: Option<i32>, stderr: String },
    ClaimNotPersisted {
        task_id: String,
        expected_run_id: String,
        actual_status: TaskStatus,
        actual_run_id: Option<String>,
    },
}

/// What an error says.
#[allow(inconsistent_fields)]
pub enum ErrorView {
    ReadQueue { path: Seq<char>, source: Seq<char> },
    InvalidJson { path: Seq<char>, line: nat, source: Seq<char> },
    InvalidTask { line: nat, reason: Seq<char> },
    DuplicateTask { task_id: Seq<char> },
    MissingRoot { task_id: Seq<char> },
    MissingBlocker { task_id: Seq<char>, blocker_id: Seq<char> },
    DependencyCycle { task_ids: Seq<Seq<char>> },
    PlanDrift { root_task_id: Seq<char> },
    ForeignOwnership { task_id: Seq<char>, owner_run_id: Seq<char>, run_id: Seq<char> },
    UnownedInProgress { task_id: Seq<char> },
    TaskOutsideScope { task_id: Seq<char>, root_task_id: Seq<char> },
    TaskNotReady { task_id: Seq<char>, status: TaskStatus },
    StartSq { executable: Seq<char>, source: Seq<char> },
    SqFailed { executable: Seq<char>, status: Option<i32>, stderr: Seq<char> },
    ClaimNotPersisted {
        task_id: Seq<char>,
        expected_run_id: Seq<char>,
        actual_status: TaskStatus,
        actual_run_id: Option<Seq<char>>,
    },
}

impl View for Error {
    type V = ErrorView;

    open spec fn view(&self) -> ErrorView {
        match *self {
            Error::ReadQueue { path, source } => ErrorView::ReadQueue {
                path: path@,
                source: source@,
            },
            Error::InvalidJson { path, line, source } => ErrorView::InvalidJson {
                path: path@,
                line: line as nat,
                source: source@,
            },
            Error::InvalidTask { line, reason } => ErrorView::InvalidTask {
                line: line as nat,
                reason: reason@,
            },
            Error::DuplicateTask { task_id } => ErrorView::DuplicateTask { task_id: task_id@ },
            Error::MissingRoot { task_id } => ErrorView::MissingRoot { task_id: task_id@ },
            Error::MissingBlocker { task_id, blocker_id } => ErrorView::MissingBlocker {
                task_id: task_id@,
                blocker_id: blocker_id@,
            },
            Error::DependencyCycle { task_ids } => ErrorView::DependencyCycle {
                task_ids: texts(task_ids@),
            },
            Error::PlanDrift { root_task_id } => ErrorView::PlanDrift {
                root_task_id: root_task_id@,
            },
            Error::ForeignOwnership { task_id, owner_run_id, run_id } => ErrorView::ForeignOwnership {
                task_id: task_id@,
                owner_run_id: owner_run_id@,
                run_id: run_id@,
            },
            Error::UnownedInProgress { task_id } => ErrorView::UnownedInProgress {
                task_id: task_id@,
            },
            Error::TaskOutsideScope { task_id, root_task_id } => ErrorView::TaskOutsideScope {
                task_id: task_id@,
                root_task_id: root_task_id@,
            },
            Error::TaskNotReady { task_id, status } => ErrorView::TaskNotReady {
                task_id: task_id@,
                status,
            },
            Error::StartSq { executable, source } => ErrorView::StartSq {
                executable: executable@,
                source: source@,
            },
            Error::SqFailed { executable, status, stderr } => ErrorView::SqFailed {
                executable: executable@,
                status,
                stderr: stderr@,
            },
            Error::ClaimNotPersisted { task_id, expected_run_id, actual_status, actual_run_id } =>
                ErrorView::ClaimNotPersisted {
                task_id: task_id@,
                expected_run_id: expected_run_id@,
                actual_status,
                actual_run_id: shown(actual_run_id),
            },
        }
    }
}

impl ErrorView {
    /// The message for an error.
    pub open spec fn message(self) -> Seq<char> {
        match self {
            ErrorView::ReadQueue { path, source } => "cannot read SQ queue `"@ + path + "`: "@
                + source,
            ErrorView::InvalidJson { path, line, source } => "invalid JSON in SQ queue `"@ + path
                + "` at line "@ + decimal(line) + ": "@ + source,
            ErrorView::InvalidTask { line, reason } => "invalid SQ task at line "@ + decimal(line)
                + ": "@ + reason,
            ErrorView::DuplicateTask { task_id } => "SQ queue contains duplicate task ID `"@
                + task_id + "`"@,
            ErrorView::MissingRoot { task_id } => "SQ root task `"@ + task_id + "` is missing"@,
            ErrorView::MissingBlocker { task_id, blocker_id } => "SQ task `"@ + task_id
                + "` declares missing blocker `"@ + blocker_id + "`"@,
            ErrorView::DependencyCycle { task_ids } => "SQ dependency cycle: "@ + joined(
                task_ids,
                " -> "@,
            ),
            ErrorView::PlanDrift { root_task_id } => "SQ plan drift for root task `"@ + root_task_id
                + "`"@,
            ErrorView::ForeignOwnership { task_id, owner_run_id, run_id } => "SQ task `"@ + task_id
                + "` is owned by foreign agent_orchestrator.run_id `"@ + owner_run_id
                + "` (current run `"@ + run_id + "`)"@,
            ErrorView::UnownedInProgress { task_id } => "SQ task `"@ + task_id
                + "` is in_progress without agent_orchestrator.run_id ownership"@,
            ErrorView::TaskOutsideScope { task_id, root_task_id } => "SQ task `"@ + task_id
                + "` is outside root `"@ + root_task_id + "` dependency scope"@,
            ErrorView::TaskNotReady { task_id, status } => "SQ task `"@ + task_id
                + "` is not ready (status: "@ + status.word() + ")"@,
            ErrorView::StartSq { executable, source } => "cannot start configured SQ executable `"@
                + executable + "`: "@ + source,
            ErrorView::SqFailed { executable, status, stderr } => "configured SQ executable `"@
                + executable + "` failed with status "@ + exit_text(status) + ": "@ + stderr,
            ErrorView::ClaimNotPersisted {
                task_id,
                expected_run_id,
                actual_status,
                actual_run_id,
            } => "SQ did not persist claim for task `"@ + task_id
                + "`: expected status in_progress and run `"@ + expected_run_id
                + "`, got status "@ + actual_status.word() + " and run "@ + (
            match actual_run_id {
                Some(id) => id,
                None => "<missing>"@,
            }),
        }
    }
}

impl Error {
    /// The message for an error.
    pub fn message(&self) -> (r: String)
        ensures
            r@ == self@.message(),
    {
        match self {
            Error::ReadQueue { path, source } => {
                let mut m = "cannot read SQ queue `".to_owned();
                m.append(path.as_str());
                m.append("`: ");
                m.append(source.as_str());
                m
            },
            Error::InvalidJson { path, line, source } => {
                let mut m = "invalid JSON in SQ queue `".to_owned();
                m.append(path.as_str());
                m.append("` at line ");
                m.append(to_decimal(*line as u64).as_str());
                m.append(": ");
                m.append(source.as_str());
                m
            },
            Error::InvalidTask { line, reason } => {
                let mut m = "invalid SQ task at line ".to_owned();
                m.append(to_decimal(*line as u64).as_str());
                m.append(": ");
                m.append(reason.as_str());
                m
            },
            Error::DuplicateTask { task_id } => {
                let mut m = "SQ queue contains duplicate task ID `".to_owned();
                m.append(task_id.as_str());
                m.append("`");
                m
            },
            Error::MissingRoot { task_id } => {
                let mut m = "SQ root task `".to_owned();
                m.append(task_id.as_str());
                m.append("` is missing");
                m
            },
            Error::MissingBlocker { task_id, blocker_id } => {
                let mut m = "SQ task `".to_owned();
                m.append(task_id.as_str());
                m.append("` declares missing blocker `");
                m.append(blocker_id.as_str());
                m.append("`");
                m
            },
            Error::DependencyCycle { task_ids } => {
                let mut m = "SQ dependency cycle: ".to_owned();
                m.append(join(task_ids, " -> ").as_str());
                m
            },
            Error::PlanDrift { root_task_id } => {
                let mut m = "SQ plan drift for root task `".to_owned();
                m.append(root_task_id.as_str());
                m.append("`");
                m
            },
            Error::ForeignOwnership { task_id, owner_run_id, run_id } => {
                let mut m = "SQ task `".to_owned();
                m.append(task_id.as_str());
                m.append("` is owned by foreign agent_orchestrator.run_id `");
                m.append(owner_run_id.as_str());
                m.append("` (current run `");
                m.append(run_id.as_str());
                m.append("`)");
                m
            },
            Error::UnownedInProgress { task_id } => {
                let mut m = "SQ task `".to_owned();
                m.append(task_id.as_str());
                m.append("` is in_progress without agent_orchestrator.run_id ownership");
                m
            },
            Error::TaskOutsideScope { task_id, root_task_id } => {
                let mut m = "SQ task `".to_owned();
                m.append(task_id.as_str());
                m.append("` is outside root `");
                m.append(root_task_id.as_str());
                m.append("` dependency scope");
                m
            },
            Error::TaskNotReady { task_id, status } => {
                let mut m = "SQ task `".to_owned();
                m.append(task_id.as_str());
                m.append("` is not ready (status: ");
                m.append(status.as_str());
                m.append(")");
                m
            },
            Error::StartSq { executable, source } => {
                let mut m = "cannot start configured SQ executable `".to_owned();
                m.append(executable.as_str());
                m.append("`: ");
                m.append(source.as_str());
                m
            },
            Error::SqFailed { executable, status, stderr } => {
                let mut m = "configured SQ executable `".to_owned();
                m.append(executable.as_str());
                m.append("` failed with status ");
                m.append(describe_exit(*status).as_str());
                m.append(": ");
                m.append(stderr.as_str());
                m
            },
            Error::ClaimNotPersisted { task_id, expected_run_id, actual_status, actual_run_id } => {
                let mut m = "SQ did not persist claim for task `".to_owned();
                m.append(task_id.as_str());
                m.append("`: expected status in_progress and run `");
                m.append(expected_run_id.as_str());
                m.append("`, got status ");
                m.append(actual_status.as_str());
                m.append(" and run ");
                match actual_run_id {
                    Some(id) => m.append(id.as_str()),
                    None => m.append("<missing>"),
                }
                m
            },
        }
    }
}

// ---------------------------------------------------------------------------------------------
// Tasks

/// A task of the queue.
#[derive(Debug)]
pub struct Task {
    id: String,
    title: String,
    description: String,
    stored_status: TaskStatus,
    blocked_by: Vec<String>,
    acceptance_criteria: Vec<String>,
    validation_checks: Vec<String>,
    raw: Json,
}

/// What a task says.
pub struct TaskView {
    pub id: Seq<char>,
    pub title: Seq<char>,
    pub description: Seq<char>,
    pub stored_status: TaskStatus,
    pub blocked_by: Seq<Seq<char>>,
    pub acceptance_criteria: Seq<Seq<char>>,
    pub validation_checks: Seq<Seq<char>>,
    pub raw: JsonView,
}

impl View for Task {
    type V = TaskView;

    closed spec fn view(&self) -> TaskView {
        TaskView {
            id: self.id@,
            title: self.title@,
            description: self.description@,
            stored_status: self.stored_status,
            blocked_by: texts(self.blocked_by@),
            acceptance_criteria: texts(self.acceptance_criteria@),
            validation_checks: texts(self.validation_checks@),
            raw: self.raw@,
        }
    }
}

/// The reason for refusing a task whose member is not a string.
pub open spec fn not_a_string(key: Seq<char>) -> Seq<char> {
    "`"@ + key + "` must be a string"@
}

/// The texts among JSON values.
pub open spec fn item_texts(items: Seq<JsonView>) -> Seq<Seq<char>> {
    items.map_values(|v: JsonView| v.text()->0)
}

/// Every value is a text that is not empty.
pub open spec fn all_filled(items: Seq<JsonView>) -> bool {
    forall|i: int|
        0 <= i < items.len() ==> (#[trigger] items[i]).text() is Some && items[i].text()->0.len()
            > 0
}

/// Every value is a text that is not blank.
pub open spec fn all_written(items: Seq<JsonView>) -> bool {
    forall|i: int|
        0 <= i < items.len() ==> (#[trigger] items[i]).text() is Some && !blank(
            items[i].text()->0,
        )
}

/// The declared blockers of a task, or why they are refused.
pub open spec fn declared_blockers(value: Option<JsonView>) -> Result<Seq<Seq<char>>, Seq<char>> {
    match value {
        None => Ok(Seq::empty()),
        Some(JsonView::Null) => Ok(Seq::empty()),
        Some(JsonView::Array(items)) => if all_filled(items) {
            Ok(item_texts(items))
        } else {
            Err("`blocked_by` must contain non-empty strings"@)
        },
        Some(_) => Err("`blocked_by` must be an array"@),
    }
}

/// The texts that the metadata of a task lists under a key, or why they are refused.
pub open spec fn listed_in_metadata(metadata: Option<JsonView>, key: Seq<char>) -> Result<
    Seq<Seq<char>>,
    Seq<char>,
> {
    match field_in(metadata, key) {
        None => Ok(Seq::empty()),
        Some(JsonView::Array(items)) => if all_written(items) {
            Ok(item_texts(items))
        } else {
            Err("`metadata."@ + key + "` must contain non-empty strings"@)
        },
        Some(_) => Err("`metadata."@ + key + "` must be an array"@),
    }
}

/// Why the metadata of a task is refused, where it is.
pub open spec fn metadata_fault(metadata: Option<JsonView>) -> Option<Seq<char>> {
    match metadata {
        None => None,
        Some(JsonView::Null) => None,
        Some(JsonView::Object(_)) => match field_in(metadata, "agent_orchestrator"@) {
            None => None,
            Some(JsonView::Null) => None,
            Some(JsonView::Object(members)) => {
                let run_id = JsonView::Object(members).field("run_id"@);
                if run_id is Some && text_in(run_id) is None {
                    Some("`metadata.agent_orchestrator.run_id` must be a string"@)
                } else {
                    None
                }
            },
            Some(_) => Some("`metadata.agent_orchestrator` must be an object"@),
        },
        Some(_) => Some("`metadata` must be an object"@),
    }
}

/// The task that a JSON value describes, or why it is refused.
pub open spec fn task_from(raw: JsonView) -> Result<TaskView, Seq<char>> {
    let id = text_in(raw.field("id"@));
    let title = text_in(raw.field("title"@));
    let description = text_in(raw.field("description"@));
    let status = text_in(raw.field("status"@));
    let blockers = declared_blockers(raw.field("blocked_by"@));
    let metadata = raw.field("metadata"@);
    let acceptance = listed_in_metadata(metadata, "acceptance_criteria"@);
    let checks = listed_in_metadata(metadata, "checks"@);
    if !(raw is Object) {
        Err("task must be a JSON object"@)
    } else if id is None {
        Err(not_a_string("id"@))
    } else if title is None {
        Err(not_a_string("title"@))
    } else if description is None {
        Err(not_a_string("description"@))
    } else if id->0.len() == 0 {
        Err("`id` must not be empty"@)
    } else if status is None {
        Err(not_a_string("status"@))
    } else if status_named(status->0) is None {
        Err("unsupported status `"@ + status->0 + "`"@)
    } else if blockers is Err {
        Err(blockers->Err_0)
    } else if metadata_fault(metadata) is Some {
        Err(metadata_fault(metadata)->0)
    } else if acceptance is Err {
        Err(acceptance->Err_0)
    } else if checks is Err {
        Err(checks->Err_0)
    } else {
        Ok(
            TaskView {
                id: id->0,
                title: title->0,
                description: description->0,
                stored_status: status_named(status->0)->0,
                blocked_by: blockers->Ok_0,
                acceptance_criteria: acceptance->Ok_0,
                validation_checks: checks->Ok_0,
                raw,
            },
        )
    }
}

/// Names the line on which a task was refused.
pub open spec fn at_line<T>(r: Result<T, Seq<char>>, line: nat) -> Result<T, ErrorView> {
    match r {
        Ok(v) => Ok(v),
        Err(reason) => Err(ErrorView::InvalidTask { line, reason }),
    }
}

/// The text of a member that must be there.
fn required_string(object: &Json, key: &str, line: usize) -> (r: Result<String, Error>)
    ensures
        match text_in(object@.field(key@)) {
            Some(s) => seen(r) == Ok::<Seq<char>, ErrorView>(s),
            None => seen(r) == Err::<Seq<char>, ErrorView>(
                ErrorView::InvalidTask { line: line as nat, reason: not_a_string(key@) },
            ),
        },
{
    if let Some(value) = object.field(key) {
        if let Some(text) = value.text() {
            return Ok(text.to_owned());
        }
    }
    let mut reason = "`".to_owned();
    reason.append(key);
    reason.append("` must be a string");
    Err(Error::InvalidTask { line, reason })
}

/// The texts among JSON values, where each is a text that is not empty or, if `written`, not blank.
fn collect_texts(items: &Vec<Json>, written: bool) -> (r: Option<Vec<String>>)
    ensures
        r is Some <==> (if written {
            all_written(items_view(items@))
        } else {
            all_filled(items_view(items@))
        }),
        r matches Some(v) ==> texts(v@) == item_texts(items_view(items@)),
{
    let ghost all = items_view(items@);
    let mut r: Vec<String> = Vec::new();
    let mut i: usize = 0;
    while i < items.len()
        invariant
            i <= items.len(),
            all == items_view(items@),
            texts(r@) == item_texts(all).take(i as int),
            forall|j: int|
                0 <= j < i ==> (#[trigger] all[j]).text() is Some && (if written {
                    !blank(all[j].text()->0)
                } else {
                    all[j].text()->0.len() > 0
                }),
        decreases items.len() - i,
    {
        assert(all[i as int] == items@[i as int]@);
        let ghost so_far = r@;
        match items[i].text() {
            Some(text) => {
                if written && is_blank(text) || !written && text.is_empty() {
                    return None;
                }
                r.push(text.to_owned());
                assert(texts(r@) =~= texts(so_far).push(text@));
            },
            None => {
                return None;
            },
        }
        i += 1;
        assert(item_texts(all).take(i as int) =~= item_texts(all).take(i - 1).push(
            item_texts(all)[i - 1],
        ));
    }
    assert(item_texts(all).take(i as int) =~= item_texts(all));
    Some(r)
}

/// The texts that the metadata of a task lists under a key.
fn metadata_strings(metadata: Option<&Json>, key: &str, line: usize) -> (r: Result<
    Vec<String>,
    Error,
>)
    ensures
        match r {
            Ok(v) => at_line(listed_in_metadata(shown(metadata), key@), line as nat) == Ok::<
                Seq<Seq<char>>,
                ErrorView,
            >(texts(v@)),
            Err(e) => at_line(listed_in_metadata(shown(metadata), key@), line as nat) == Err::<
                Seq<Seq<char>>,
                ErrorView,
            >(e@),
        },
{
    broadcast use parts_make_the_view;

    let value = match metadata {
        Some(metadata) => metadata.field(key),
        None => None,
    };
    match value {
        None => {
            let none: Vec<String> = Vec::new();
            assert(texts(none@) =~= Seq::<Seq<char>>::empty());
            Ok(none)
        },
        Some(Json::Array(items)) => match collect_texts(items, true) {
            Some(found) => Ok(found),
            None => {
                let mut reason = "`metadata.".to_owned();
                reason.append(key);
                reason.append("` must contain non-empty strings");
                Err(Error::InvalidTask { line, reason })
            },
        },
        Some(_) => {
            let mut reason = "`metadata.".to_owned();
            reason.append(key);
            reason.append("` must be an array");
            Err(Error::InvalidTask { line, reason })
        },
    }
}

/// Refuses metadata that is not an object, or whose record of ownership is malformed.
fn validate_metadata(metadata: Option<&Json>, line: usize) -> (r: Result<(), Error>)
    ensures
        match metadata_fault(shown(metadata)) {
            None => r is Ok,
            Some(reason) => r matches Err(e) && e@ == (ErrorView::InvalidTask {
                line: line as nat,
                reason,
            }),
        },
{
    broadcast use parts_make_the_view;

    let metadata = match metadata {
        None | Some(Json::Null) => {
            return Ok(());
        },
        Some(metadata) => metadata,
    };
    if !matches!(metadata, Json::Object(_)) {
        return Err(Error::InvalidTask { line, reason: "`metadata` must be an object".to_owned() });
    }
    let ownership = match metadata.field("agent_orchestrator") {
        None | Some(Json::Null) => {
            return Ok(());
        },
        Some(ownership) => ownership,
    };
    if !matches!(ownership, Json::Object(_)) {
        return Err(
            Error::InvalidTask {
                line,
                reason: "`metadata.agent_orchestrator` must be an object".to_owned(),
            },
        );
    }
    if let Some(run_id) = ownership.field("run_id") {
        if run_id.text().is_none() {
            return Err(
                Error::InvalidTask {
                    line,
                    reason: "`metadata.agent_orchestrator.run_id` must be a string".to_owned(),
                },
            );
        }
    }
    Ok(())
}

/// Reads the task that a JSON value describes.
pub fn parse_task(raw: Json, line: usize) -> (r: Result<Task, Error>)
    ensures
        seen(r) == at_line(task_from(raw@), line as nat),
{
    broadcast use parts_make_the_view;

    if !matches!(raw, Json::Object(_)) {
        return Err(Error::InvalidTask { line, reason: "task must be a JSON object".to_owned() });
    }
    let id = required_string(&raw, "id", line)?;
    let title = required_string(&raw, "title", line)?;
    let description = required_string(&raw, "description", line)?;
    if id.as_str().is_empty() {
        return Err(Error::InvalidTask { line, reason: "`id` must not be empty".to_owned() });
    }
    let status_text = required_string(&raw, "status", line)?;
    let stored_status = match TaskStatus::parse(status_text.as_str()) {
        Some(status) => status,
        None => {
            let mut reason = "unsupported status `".to_owned();
            reason.append(status_text.as_str());
            reason.append("`");
            return Err(Error::InvalidTask { line, reason });
        },
    };
    let blocked_by = match raw.field("blocked_by") {
        None | Some(Json::Null) => {
            let none: Vec<String> = Vec::new();
            assert(texts(none@) =~= Seq::<Seq<char>>::empty());
            none
        },
        Some(Json::Array(items)) => match collect_texts(items, false) {
            Some(blockers) => blockers,
            None => {
                return Err(
                    Error::InvalidTask {
                        line,
                        reason: "`blocked_by` must contain non-empty strings".to_owned(),
                    },
                );
            },
        },
        Some(_) => {
            return Err(
                Error::InvalidTask { line, reason: "`blocked_by` must be an array".to_owned() },
            );
        },
    };
    let metadata = raw.field("metadata");
    validate_metadata(metadata, line)?;
    let acceptance_criteria = metadata_strings(metadata, "acceptance_criteria", line)?;
    let validation_checks = metadata_strings(metadata, "checks", line)?;
    Ok(
        Task {
            id,
            title,
            description,
            stored_status,
            blocked_by,
            acceptance_criteria,
            validation_checks,
            raw,
        },
    )
}

/// The members with the value of each member of a name put in place of its own.
pub open spec fn replaced(members: Seq<MemberView>, name: Seq<char>, value: JsonView) -> Seq<
    MemberView,
> {
    members.map_values(
        |m: MemberView|
            if m.name == name {
                MemberView { name: m.name, value }
            } else {
                m
            },
    )
}

/// The members of a task without the record of ownership in its metadata, and without metadata
/// that holds nothing else.
pub open spec fn disowned(members: Seq<MemberView>) -> Seq<MemberView> {
    match member(members, "metadata"@) {
        Some(JsonView::Object(metadata)) => {
            let rest = without(metadata, "agent_orchestrator"@);
            if rest.len() == 0 {
                without(members, "metadata"@)
            } else {
                replaced(members, "metadata"@, JsonView::Object(rest))
            }
        },
        _ => without(members, "metadata"@),
    }
}

/// What a task says apart from its status and its timestamps.
pub open spec fn timeless(members: Seq<MemberView>) -> Seq<MemberView> {
    without(without(without(members, "status"@), "created_at"@), "updated_at"@)
}

impl TaskView {
    /// The run that owns the task.
    pub open spec fn owner_run_id(self) -> Option<Seq<char>> {
        text_in(
            field_in(field_in(self.raw.field("metadata"@), "agent_orchestrator"@), "run_id"@),
        )
    }

    /// What the task says as part of a plan: nothing of its status, its timestamps and its owner.
    pub open spec fn plan_value(self) -> JsonView {
        match self.raw {
            JsonView::Object(members) => JsonView::Object(
                disowned(
                    if self.blocked_by.len() == 0 {
                        without(timeless(members), "blocked_by"@)
                    } else {
                        timeless(members)
                    },
                ),
            ),
            other => other,
        }
    }
}

/// Puts a value in place of that of each member with a name.
fn replace_member(members: &Vec<Member>, name: &str, value: &Json) -> (r: Vec<Member>)
    ensures
        members_view(r@) == replaced(members_view(members@), name@, value@),
{
    let ghost goal = replaced(members_view(members@), name@, value@);
    let mut r: Vec<Member> = Vec::new();
    let mut i: usize = 0;
    while i < members.len()
        invariant
            i <= members.len(),
            goal == replaced(members_view(members@), name@, value@),
            members_view(r@) == goal.take(i as int),
        decreases members.len() - i,
    {
        let ghost so_far = r@;
        let ghost one = members_view(members@)[i as int];
        let kept = &members[i];
        if same(kept.name.as_str(), name) {
            r.push(Member { name: kept.name.clone(), value: value.clone() });
        } else {
            r.push(Member { name: kept.name.clone(), value: kept.value.clone() });
        }
        assert(members_view(r@) =~= members_view(so_far).push(goal[i as int]));
        i += 1;
        assert(goal.take(i as int) =~= goal.take(i - 1).push(goal[i - 1]));
    }
    assert(goal.take(i as int) =~= goal);
    r
}

impl Task {
    pub fn id(&self) -> (r: &str)
        ensures
            r@ == self@.id,
    {
        self.id.as_str()
    }

    pub fn title(&self) -> (r: &str)
        ensures
            r@ == self@.title,
    {
        self.title.as_str()
    }

    pub fn description(&self) -> (r: &str)
        ensures
            r@ == self@.description,
    {
        self.description.as_str()
    }

    /// The status that the queue holds.
    pub fn stored_status(&self) -> (r: TaskStatus)
        ensures
            r == self@.stored_status,
    {
        self.stored_status
    }

    pub fn blocked_by(&self) -> (r: &Vec<String>)
        ensures
            texts(r@) == self@.blocked_by,
    {
        &self.blocked_by
    }

    pub fn acceptance_criteria(&self) -> (r: &Vec<String>)
        ensures
            texts(r@) == self@.acceptance_criteria,
    {
        &self.acceptance_criteria
    }

    pub fn validation_checks(&self) -> (r: &Vec<String>)
        ensures
            texts(r@) == self@.validation_checks,
    {
        &self.validation_checks
    }

    /// The members of the metadata, where it is an object.
    pub fn metadata(&self) -> (r: Option<&Vec<Member>>)
        ensures
            match r {
                Some(members) => self@.raw.field("metadata"@) == Some(
                    JsonView::Object(members_view(members@)),
                ),
                None => !(self@.raw.field("metadata"@) matches Some(JsonView::Object(_))),
            },
    {
        broadcast use parts_make_the_view;

        match self.raw.field("metadata") {
            Some(Json::Object(members)) => Some(members),
            _ => None,
        }
    }

    /// The task as the queue holds it.
    pub fn raw(&self) -> (r: &Json)
        ensures
            r@ == self@.raw,
    {
        &self.raw
    }

    /// The run that owns the task.
    pub fn owner_run_id(&self) -> (r: Option<&str>)
        ensures
            shown(r) == self@.owner_run_id(),
    {
        match self.raw.field("metadata") {
            Some(metadata) => match metadata.field("agent_orchestrator") {
                Some(ownership) => match ownership.field("run_id") {
                    Some(run_id) => run_id.text(),
                    None => None,
                },
                None => None,
            },
            None => None,
        }
    }

    /// What the task says as part of a plan.
    fn plan_value(&self) -> (r: Json)
        ensures
            r@ == self@.plan_value(),
    {
        broadcast use parts_make_the_view;

        match &self.raw {
            Json::Object(members) => {
                let members = copy_without(members, "status");
                let members = copy_without(&members, "created_at");
                let members = copy_without(&members, "updated_at");
                let members = if self.blocked_by.len() == 0 {
                    copy_without(&members, "blocked_by")
                } else {
                    members
                };
                let members = match find_member(&members, "metadata") {
                    Some(Json::Object(metadata)) => {
                        let rest = copy_without(metadata, "agent_orchestrator");
                        if rest.len() == 0 {
                            copy_without(&members, "metadata")
                        } else {
                            replace_member(&members, "metadata", &Json::Object(rest))
                        }
                    },
                    _ => copy_without(&members, "metadata"),
                };
                Json::Object(members)
            },
            other => other.clone(),
        }
    }
}

// ---------------------------------------------------------------------------------------------
// The queue

/// The tasks of a queue file.
#[derive(Debug)]
pub struct Queue {
    path: String,
    tasks: Table<Task>,
}

/// What a queue says.
pub struct QueueView {
    pub path: Seq<char>,
    pub tasks: Map<Seq<char>, TaskView>,
}

impl View for Queue {
    type V = QueueView;

    closed spec fn view(&self) -> QueueView {
        QueueView { path: self.path@, tasks: self.tasks@.map_values(|t: Task| t@) }
    }
}

impl QueueView {
    /// Each task is the one that its JSON value describes, and stands under its own ID.
    pub open spec fn well_formed(self) -> bool {
        &&& self.tasks.dom().finite()
        &&& forall|id: Seq<char>| #[trigger]
            self.tasks.contains_key(id) ==> self.tasks[id].id == id && genuine(self.tasks[id])
    }
}

/// The task is the one that its JSON value describes.
pub open spec fn genuine(task: TaskView) -> bool {
    task_from(task.raw) == Ok::<TaskView, Seq<char>>(task) && ordered(task.raw)
}

/// The tasks of a queue after one more line, or the error at that line.
pub open spec fn with_line(
    path: Seq<char>,
    tasks: Map<Seq<char>, TaskView>,
    line: Result<Seq<char>, Seq<char>>,
    number: nat,
) -> Result<Map<Seq<char>, TaskView>, ErrorView> {
    match line {
        Err(source) => Err(ErrorView::ReadQueue { path, source }),
        Ok(text) => if blank(text) {
            Ok(tasks)
        } else {
            match json_of_text(text) {
                Err(source) => Err(ErrorView::InvalidJson { path, line: number, source }),
                Ok(raw) => with_task(tasks, raw, number),
            }
        },
    }
}

/// The tasks of a queue after one more JSON value, or the error at its line.
pub open spec fn with_task(
    tasks: Map<Seq<char>, TaskView>,
    raw: JsonView,
    number: nat,
) -> Result<Map<Seq<char>, TaskView>, ErrorView> {
    match task_from(raw) {
        Err(reason) => Err(ErrorView::InvalidTask { line: number, reason }),
        Ok(task) => if tasks.contains_key(task.id) {
            Err(ErrorView::DuplicateTask { task_id: task.id })
        } else {
            Ok(tasks.insert(task.id, task))
        },
    }
}

/// The tasks on the first `n` lines of a queue, or the first error there.
pub open spec fn tasks_on(
    path: Seq<char>,
    lines: Seq<Result<Seq<char>, Seq<char>>>,
    n: nat,
) -> Result<Map<Seq<char>, TaskView>, ErrorView>
    decreases n,
{
    if n == 0 {
        Ok(Map::empty())
    } else {
        match tasks_on(path, lines, (n - 1) as nat) {
            Err(e) => Err(e),
            Ok(tasks) => with_line(path, tasks, lines[n - 1], n),
        }
    }
}

/// The first error stays the error, whatever lines follow.
proof fn first_error_stays(
    path: Seq<char>,
    lines: Seq<Result<Seq<char>, Seq<char>>>,
    n: nat,
    m: nat,
)
    requires
        n <= m,
        tasks_on(path, lines, n) is Err,
    ensures
        tasks_on(path, lines, m) == tasks_on(path, lines, n),
    decreases m,
{
    if n < m {
        first_error_stays(path, lines, n, (m - 1) as nat);
    }
}

/// What the lines of a file say: each a text, or why it could not be read.
pub open spec fn lines_seen(lines: Seq<Result<String, String>>) -> Seq<
    Result<Seq<char>, Seq<char>>,
> {
    lines.map_values(|l: Result<String, String>| seen(l))
}

/// The queue that a file holds, or the first error in it.
pub open spec fn queue_from(path: Seq<char>, lines: Seq<Result<String, String>>) -> Result<
    QueueView,
    ErrorView,
> {
    match tasks_on(path, lines_seen(lines), lines.len()) {
        Ok(tasks) => Ok(QueueView { path, tasks }),
        Err(e) => Err(e),
    }
}

/// The blockers that the tasks of a queue declare.
pub open spec fn graph_of(tasks: Map<Seq<char>, TaskView>) -> Graph {
    tasks.map_values(|t: TaskView| t.blocked_by)
}

/// The error for a defect of the plan.
pub open spec fn defect_error(defect: Defect) -> ErrorView {
    match defect {
        Defect::Missing { task, blocker } => ErrorView::MissingBlocker {
            task_id: task,
            blocker_id: blocker,
        },
        Defect::Cycle(task_ids) => ErrorView::DependencyCycle { task_ids },
    }
}

/// Adds the task that a JSON value describes to the tasks of a queue.
pub fn add_task(tasks: &mut Table<Task>, raw: Json, number: usize) -> (r: Result<(), Error>)
    ensures
        match with_task(old(tasks)@.map_values(|t: Task| t@), raw@, number as nat) {
            Ok(all) => r is Ok && final(tasks)@.map_values(|t: Task| t@) == all,
            Err(e) => r matches Err(error) && error@ == e,
        },
{
    let ghost before = tasks@;
    let task = parse_task(raw, number)?;
    if tasks.has(task.id.as_str()) {
        return Err(Error::DuplicateTask { task_id: task.id });
    }
    let id = task.id.clone();
    let ghost seen_task = task@;
    tasks.insert(id, task);
    assert(tasks@.map_values(|t: Task| t@) =~= before.map_values(|t: Task| t@).insert(
        seen_task.id,
        seen_task,
    ));
    Ok(())
}

impl Queue {
    /// Reads the tasks of a queue from the lines of its file.
    pub fn read(path: String, lines: &Vec<Result<String, String>>) -> (r: Result<Queue, Error>)
        ensures
            seen(r) == queue_from(path@, lines@),
            r matches Ok(queue) ==> queue@.well_formed(),
    {
        let ghost all = lines_seen(lines@);
        let mut tasks: Table<Task> = Table::new();
        assert(tasks@.map_values(|t: Task| t@) =~= Map::<Seq<char>, TaskView>::empty());
        let mut i: usize = 0;
        while i < lines.len()
            invariant
                i <= lines.len(),
                all == lines_seen(lines@),
                tasks_on(path@, all, i as nat) == Ok::<Map<Seq<char>, TaskView>, ErrorView>(
                    tasks@.map_values(|t: Task| t@),
                ),
                forall|id: Seq<char>| #[trigger]
                    tasks@.contains_key(id) ==> tasks@[id]@.id == id && genuine(tasks@[id]@),
            decreases lines.len() - i,
        {
            proof {
                if tasks_on(path@, all, (i + 1) as nat) is Err {
                    first_error_stays(path@, all, (i + 1) as nat, lines@.len());
                }
            }
            match &lines[i] {
                Err(source) => {
                    return Err(Error::ReadQueue { path, source: source.clone() });
                },
                Ok(line) => {
                    if !is_blank(line.as_str()) {
                        match read_text(line.as_str()) {
                            Err(source) => {
                                return Err(Error::InvalidJson { path, line: i + 1, source });
                            },
                            Ok(raw) => {
                                let ghost before = tasks@.map_values(|t: Task| t@);
                                let ghost value = raw@;
                                add_task(&mut tasks, raw, i + 1)?;
                                proof {
                                    let after = tasks@.map_values(|t: Task| t@);
                                    let task = task_from(value)->Ok_0;
                                    assert(after == before.insert(task.id, task));
                                    assert forall|id: Seq<char>| #[trigger]
                                        tasks@.contains_key(id) implies tasks@[id]@.id == id
                                        && genuine(tasks@[id]@) by {
                                        assert(after.contains_key(id));
                                        assert(after[id] == tasks@[id]@);
                                        if id != task.id {
                                            assert(before.contains_key(id));
                                        }
                                    }
                                }
                            },
                        }
                    }
                },
            }
            i += 1;
        }
        proof {
            rows_hold_the_keys(tasks.rows());
            assert(tasks@.map_values(|t: Task| t@).dom() =~= tasks@.dom());
        }
        Ok(Queue { path, tasks })
    }

    pub fn path(&self) -> (r: &str)
        ensures
            r@ == self@.path,
    {
        self.path.as_str()
    }

    /// The task with an ID.
    pub fn task(&self, task_id: &str) -> (r: Option<&Task>)
        ensures
            shown(r) == (if self@.tasks.contains_key(task_id@) {
                Some(self@.tasks[task_id@])
            } else {
                None
            }),
    {
        self.tasks.get(task_id)
    }
}

/// Visits a task and its blockers: `done` takes in what was visited, and `stack` holds the tasks
/// whose blockers are being visited.
fn visit(queue: &Queue, task_id: &str, stack: &mut Vec<String>, done: &mut Table<()>) -> (r: Result<
    (),
    Error,
>)
    requires
        queue@.tasks.contains_key(task_id@),
    ensures
        match graph::visit(
            graph_of(queue@.tasks),
            task_id@,
            texts(old(stack)@),
            old(done)@.dom(),
        ) {
            Ok(visited) => r is Ok && final(done)@.dom() == visited && texts(final(stack)@)
                == texts(old(stack)@),
            Err(defect) => r matches Err(e) && e@ == defect_error(defect),
        },
    decreases graph::room(graph_of(queue@.tasks), texts(old(stack)@)),
{
    let ghost g = graph_of(queue@.tasks);
    let ghost trail = texts(stack@);
    let ghost visited = done@.dom();
    proof {
        rows_hold_the_keys(queue.tasks.rows());
        assert(g.dom() =~= queue.tasks@.dom());
    }
    if done.has(task_id) {
        return Ok(());
    }
    if let Some(start) = position(stack, task_id) {
        let mut cycle: Vec<String> = Vec::new();
        let mut i: usize = start;
        while i < stack.len()
            invariant
                start <= i <= stack.len(),
                trail == texts(stack@),
                texts(cycle@) == trail.subrange(start as int, i as int),
            decreases stack.len() - i,
        {
            let ghost so_far = cycle@;
            cycle.push(stack[i].clone());
            assert(texts(cycle@) =~= texts(so_far).push(trail[i as int]));
            i += 1;
            assert(trail.subrange(start as int, i as int) =~= trail.subrange(
                start as int,
                i - 1,
            ).push(trail[i - 1]));
        }
        let ghost so_far = cycle@;
        cycle.push(task_id.to_owned());
        assert(texts(cycle@) =~= texts(so_far).push(task_id@));
        assert(texts(so_far) =~= trail.skip(start as int));
        return Err(Error::DependencyCycle { task_ids: cycle });
    }
    proof {
        graph::room_shrinks(g, trail, task_id@);
    }
    let ghost deeper = trail.push(task_id@);
    let ghost outer_stack = stack@;
    stack.push(task_id.to_owned());
    assert(texts(stack@) =~= deeper);
    let task = queue.task(task_id).unwrap();
    let ghost blockers = g[task_id@];
    assert(blockers == texts(task.blocked_by@));
    let mut i: usize = 0;
    assert(blockers.skip(0) =~= blockers);
    while i < task.blocked_by.len()
        invariant
            i <= task.blocked_by.len(),
            g == graph_of(queue@.tasks),
            g.dom() == queue.tasks@.dom(),
            g.dom().finite(),
            blockers == texts(task.blocked_by@),
            texts(stack@) == deeper,
            graph::room(g, deeper) < graph::room(g, trail),
            trail == texts(old(stack)@),
            graph::visit_blockers(g, task_id@, blockers, deeper, visited) == graph::visit_blockers(
                g,
                task_id@,
                blockers.skip(i as int),
                deeper,
                done@.dom(),
            ),
            graph::visit(g, task_id@, trail, visited) == (match graph::visit_blockers(
                g,
                task_id@,
                blockers,
                deeper,
                visited,
            ) {
                Ok(all) => Ok(all.insert(task_id@)),
                Err(defect) => Err(defect),
            }),
            visited == old(done)@.dom(),
        decreases task.blocked_by.len() - i,
    {
        let blocker_id = task.blocked_by[i].as_str();
        assert(blockers.skip(i as int)[0] == blocker_id@);
        assert(blockers.skip(i as int).drop_first() =~= blockers.skip(i + 1));
        if !queue.tasks.has(blocker_id) {
            return Err(
                Error::MissingBlocker {
                    task_id: task_id.to_owned(),
                    blocker_id: blocker_id.to_owned(),
                },
            );
        }
        visit(queue, blocker_id, stack, done)?;
        i += 1;
    }
    assert(blockers.skip(i as int).len() == 0);
    let ghost before = done@;
    stack.pop();
    assert(texts(stack@) =~= deeper.drop_last());
    assert(deeper.drop_last() =~= trail);
    done.insert(task_id.to_owned(), ());
    assert(done@.dom() =~= before.dom().insert(task_id@));
    Ok(())
}

/// The first position of a text among others.
fn position(values: &Vec<String>, wanted: &str) -> (r: Option<usize>)
    ensures
        match r {
            Some(i) => i < values@.len() && texts(values@).contains(wanted@) && texts(
                values@,
            ).index_of_first(wanted@) == Some(i as int),
            None => !texts(values@).contains(wanted@),
        },
{
    let ghost all = texts(values@);
    let mut i: usize = 0;
    while i < values.len()
        invariant
            i <= values.len(),
            all == texts(values@),
            forall|j: int| 0 <= j < i ==> #[trigger] all[j] != wanted@,
        decreases values.len() - i,
    {
        if same(values[i].as_str(), wanted) {
            assert(all[i as int] == wanted@);
            proof {
                all.index_of_first_ensures(wanted@);
            }
            return Some(i);
        }
        i += 1;
    }
    None
}

// ---------------------------------------------------------------------------------------------
// Plans

/// What the tasks of a plan say apart from their progress.
#[derive(Debug)]
pub struct PlanSnapshot {
    root_task_id: String,
    tasks: Table<Json>,
}

/// What a snapshot says.
pub struct SnapshotView {
    pub root_task_id: Seq<char>,
    pub tasks: Map<Seq<char>, JsonView>,
}

impl View for PlanSnapshot {
    type V = SnapshotView;

    closed spec fn view(&self) -> SnapshotView {
        SnapshotView {
            root_task_id: self.root_task_id@,
            tasks: self.tasks@.map_values(|v: Json| v@),
        }
    }
}

impl PlanSnapshot {
    /// A snapshot of the given tasks.
    pub fn new(root_task_id: String, tasks: Table<Json>) -> (r: PlanSnapshot)
        ensures
            r@ == (SnapshotView {
                root_task_id: root_task_id@,
                tasks: tasks@.map_values(|v: Json| v@),
            }),
    {
        PlanSnapshot { root_task_id, tasks }
    }

    pub fn root_task_id(&self) -> (r: &str)
        ensures
            r@ == self@.root_task_id,
    {
        self.root_task_id.as_str()
    }

    pub fn tasks(&self) -> (r: &Table<Json>)
        ensures
            r@.map_values(|v: Json| v@) == self@.tasks,
    {
        &self.tasks
    }

    /// Whether two snapshots say the same.
    pub fn same_as(&self, other: &PlanSnapshot) -> (r: bool)
        ensures
            r == (self@ == other@),
    {
        if !same(self.root_task_id.as_str(), other.root_task_id.as_str()) {
            return false;
        }
        let r = holds_all(&self.tasks, &other.tasks) && holds_all(&other.tasks, &self.tasks);
        proof {
            let a = self@.tasks;
            let b = other@.tasks;
            if r {
                assert forall|k: Seq<char>| a.contains_key(k) == b.contains_key(k) by {
                    if a.contains_key(k) {
                        assert(self.tasks@.contains_key(k));
                        assert(other.tasks@.contains_key(k));
                    }
                    if b.contains_key(k) {
                        assert(other.tasks@.contains_key(k));
                        assert(self.tasks@.contains_key(k));
                    }
                }
                assert forall|k: Seq<char>| a.contains_key(k) implies #[trigger] a[k] == b[k] by {
                    assert(self.tasks@.contains_key(k));
                }
                assert(a =~= b);
            } else if a == b {
                assert forall|k: Seq<char>| #[trigger]
                    self.tasks@.contains_key(k) implies other.tasks@.contains_key(k)
                    && other.tasks@[k]@ == self.tasks@[k]@ by {
                    assert(a.contains_key(k));
                    assert(a[k] == b[k]);
                }
                assert forall|k: Seq<char>| #[trigger]
                    other.tasks@.contains_key(k) implies self.tasks@.contains_key(k)
                    && self.tasks@[k]@ == other.tasks@[k]@ by {
                    assert(b.contains_key(k));
                    assert(a[k] == b[k]);
                }
            }
        }
        r
    }
}

/// Whether a table holds every value of another.
fn holds_all(part: &Table<Json>, whole: &Table<Json>) -> (r: bool)
    ensures
        r == forall|k: Seq<char>| #[trigger]
            part@.contains_key(k) ==> whole@.contains_key(k) && whole@[k]@ == part@[k]@,
{
    let mut i: usize = 0;
    while i < part.len()
        invariant
            i <= part.rows().len(),
            forall|j: int|
                0 <= j < i ==> whole@.contains_key((#[trigger] part.rows()[j]).key@)
                    && whole@[part.rows()[j].key@]@ == part.rows()[j].value@,
        decreases part.rows().len() - i,
    {
        let row = part.row(i);
        match whole.get(row.key.as_str()) {
            Some(value) => {
                if !value.same_as(&row.value) {
                    assert(part@.contains_key(row.key@));
                    return false;
                }
            },
            None => {
                assert(part@.contains_key(row.key@));
                return false;
            },
        }
        i += 1;
    }
    true
}

impl Clone for PlanSnapshot {
    fn clone(&self) -> (r: Self)
        ensures
            r@ == self@,
    {
        let mut tasks: Table<Json> = Table::new();
        let ghost all = self.tasks.rows();
        let mut i: usize = 0;
        while i < self.tasks.len()
            invariant
                i <= all.len(),
                all == self.tasks.rows(),
                forall|k: Seq<char>| #[trigger]
                    tasks@.contains_key(k) ==> self.tasks@.contains_key(k) && tasks@[k]@
                        == self.tasks@[k]@,
                forall|j: int| 0 <= j < i ==> tasks@.contains_key((#[trigger] all[j]).key@),
            decreases all.len() - i,
        {
            let row = self.tasks.row(i);
            tasks.insert(row.key.clone(), row.value.clone());
            i += 1;
        }
        let r = PlanSnapshot { root_task_id: self.root_task_id.clone(), tasks };
        assert(r@.tasks =~= self@.tasks);
        r
    }
}

/// The tasks that a root task depends on, as the queue holds them.
#[derive(Debug)]
pub struct ScopedPlan {
    queue: Queue,
    root_task_id: String,
    task_ids: Table<()>,
    snapshot: PlanSnapshot,
}

/// What a plan says.
pub struct PlanView {
    pub queue: QueueView,
    pub root_task_id: Seq<char>,
}

impl View for ScopedPlan {
    type V = PlanView;

    closed spec fn view(&self) -> PlanView {
        PlanView { queue: self.queue@, root_task_id: self.root_task_id@ }
    }
}

impl PlanView {
    /// The plan has a scope.
    pub open spec fn valid(self) -> bool {
        &&& self.queue.tasks.dom().finite()
        &&& self.queue.tasks.contains_key(self.root_task_id)
        &&& graph::scope(graph_of(self.queue.tasks), self.root_task_id) is Ok
    }

    /// The IDs of the tasks of the plan.
    pub open spec fn task_ids(self) -> Set<Seq<char>> {
        graph::scope(graph_of(self.queue.tasks), self.root_task_id)->Ok_0
    }

    /// The task of the plan with an ID.
    pub open spec fn task(self, task_id: Seq<char>) -> Option<TaskView> {
        if self.task_ids().contains(task_id) {
            Some(self.queue.tasks[task_id])
        } else {
            None
        }
    }

    /// What the tasks of the plan say apart from their progress.
    pub open spec fn snapshot(self) -> SnapshotView {
        SnapshotView {
            root_task_id: self.root_task_id,
            tasks: Map::new(
                |id: Seq<char>| self.task_ids().contains(id),
                |id: Seq<char>| self.queue.tasks[id].plan_value(),
            ),
        }
    }

    /// Every blocker of the task is closed.
    pub open spec fn unblocked(self, task: TaskView) -> bool {
        forall|i: int|
            0 <= i < task.blocked_by.len()
                ==> self.queue.tasks[#[trigger] task.blocked_by[i]].stored_status
                == TaskStatus::Closed
    }

    /// The status of a task: a pending task with an open blocker is blocked.
    pub open spec fn status(self, task: TaskView) -> TaskStatus {
        if task.stored_status == TaskStatus::Pending && !self.unblocked(task) {
            TaskStatus::Blocked
        } else {
            task.stored_status
        }
    }

    /// The IDs of the tasks that can be claimed.
    pub open spec fn ready(self) -> Set<Seq<char>> {
        self.task_ids().filter(
            |id: Seq<char>| self.status(self.queue.tasks[id]) == TaskStatus::Pending,
        )
    }

    /// Why a run may not work on the plan because of a task.
    pub open spec fn ownership_fault(self, task_id: Seq<char>, run_id: Seq<char>) -> Option<
        ErrorView,
    > {
        let task = self.queue.tasks[task_id];
        if task.stored_status == TaskStatus::Closed {
            None
        } else {
            match task.owner_run_id() {
                Some(owner) => if owner == run_id {
                    None
                } else {
                    Some(ErrorView::ForeignOwnership { task_id, owner_run_id: owner, run_id })
                },
                None => if task.stored_status == TaskStatus::InProgress {
                    Some(ErrorView::UnownedInProgress { task_id })
                } else {
                    None
                },
            }
        }
    }

    /// Why a run may not work on the plan: the error for the first task that keeps it from that.
    pub open spec fn ownership_error(self, run_id: Seq<char>) -> Option<ErrorView> {
        first_fault(self.task_ids(), |id: Seq<char>| self.ownership_fault(id, run_id))
    }

    /// The plan as a run may work on it, or why it may not.
    pub open spec fn validated(self, run_id: Seq<char>, expected: Option<SnapshotView>) -> Result<
        PlanView,
        ErrorView,
    > {
        if expected is Some && self.snapshot() != expected->0 {
            Err(ErrorView::PlanDrift { root_task_id: self.root_task_id })
        } else {
            match self.ownership_error(run_id) {
                Some(error) => Err(error),
                None => Ok(self),
            }
        }
    }
}

/// The plan for a root task, or why there is none.
pub open spec fn plan_for(queue: QueueView, root: Seq<char>) -> Result<PlanView, ErrorView> {
    if !queue.tasks.contains_key(root) {
        Err(ErrorView::MissingRoot { task_id: root })
    } else {
        match graph::scope(graph_of(queue.tasks), root) {
            Ok(_) => Ok(PlanView { queue, root_task_id: root }),
            Err(defect) => Err(defect_error(defect)),
        }
    }
}

impl Queue {
    /// The plan for a root task: the task with all that it depends on.
    pub fn scope(self, root_task_id: &str) -> (r: Result<ScopedPlan, Error>)
        ensures
            seen(r) == plan_for(self@, root_task_id@),
            r matches Ok(plan) ==> plan@.valid(),
    {
        if !self.tasks.has(root_task_id) {
            return Err(Error::MissingRoot { task_id: root_task_id.to_owned() });
        }
        let mut stack: Vec<String> = Vec::new();
        let mut task_ids: Table<()> = Table::new();
        let ghost g = graph_of(self@.tasks);
        proof {
            rows_hold_the_keys(self.tasks.rows());
            assert(g.dom() =~= self.tasks@.dom());
            assert(self@.tasks.dom() =~= self.tasks@.dom());
            assert(texts(stack@) =~= Seq::empty());
            assert(task_ids@.dom() =~= Set::empty());
        }
        visit(&self, root_task_id, &mut stack, &mut task_ids)?;
        let ghost view = PlanView { queue: self@, root_task_id: root_task_id@ };
        proof {
            graph::scope_is_closed(g, root_task_id@);
        }
        let mut tasks: Table<Json> = Table::new();
        let ghost ids = task_ids.rows();
        let mut i: usize = 0;
        while i < task_ids.len()
            invariant
                i <= ids.len(),
                ids == task_ids.rows(),
                task_ids@.dom() == view.task_ids(),
                view.task_ids().subset_of(self.tasks@.dom()),
                view.queue == self@,
                forall|k: Seq<char>| #[trigger]
                    tasks@.contains_key(k) ==> task_ids@.contains_key(k) && tasks@[k]@
                        == self@.tasks[k].plan_value(),
                forall|j: int| 0 <= j < i ==> tasks@.contains_key((#[trigger] ids[j]).key@),
            decreases ids.len() - i,
        {
            let id = &task_ids.row(i).key;
            assert(view.task_ids().contains(id@));
            let task = self.tasks.get(id.as_str()).unwrap();
            assert(self@.tasks[id@] == task@);
            tasks.insert(id.clone(), task.plan_value());
            i += 1;
        }
        let snapshot = PlanSnapshot { root_task_id: root_task_id.to_owned(), tasks };
        proof {
            assert forall|k: Seq<char>| snapshot@.tasks.contains_key(k)
                == view.snapshot().tasks.contains_key(k) by {
                if view.task_ids().contains(k) {
                    assert(task_ids@.contains_key(k));
                }
            }
            assert(snapshot@.tasks =~= view.snapshot().tasks);
        }
        Ok(ScopedPlan { queue: self, root_task_id: root_task_id.to_owned(), task_ids, snapshot })
    }
}

impl ScopedPlan {
    #[verifier::type_invariant]
    spec fn sound(self) -> bool {
        &&& self@.valid()
        &&& self.task_ids@.dom() == self@.task_ids()
        &&& self.snapshot@ == self@.snapshot()
    }
}

impl ScopedPlan {
    pub fn root_task_id(&self) -> (r: &str)
        ensures
            r@ == self@.root_task_id,
    {
        self.root_task_id.as_str()
    }

    pub fn queue_path(&self) -> (r: &str)
        ensures
            r@ == self@.queue.path,
    {
        self.queue.path()
    }

    /// The IDs of the tasks of the plan, in order.
    pub fn task_ids(&self) -> (r: Vec<String>)
        ensures
            texts(r@) == listed(self@.task_ids()),
            ascending(texts(r@)),
            texts(r@).to_set() == self@.task_ids(),
    {
        proof {
            use_type_invariant(self);
        }
        self.task_ids.key_list()
    }

    /// The task of the plan with an ID.
    pub fn task(&self, task_id: &str) -> (r: Option<&Task>)
        ensures
            shown(r) == self@.task(task_id@),
            self@.valid(),
    {
        proof {
            use_type_invariant(self);
            self.tasks_are_there();
        }
        if self.task_ids.has(task_id) {
            assert(self@.task_ids().contains(task_id@));
            self.queue.task(task_id)
        } else {
            None
        }
    }

    /// The tasks of a plan, and their blockers, are in the queue.
    proof fn tasks_are_there(&self)
        requires
            self@.valid(),
        ensures
            forall|id: Seq<char>| #[trigger]
                self@.task_ids().contains(id) ==> self@.queue.tasks.contains_key(id),
            forall|id: Seq<char>, i: int|
                self@.task_ids().contains(id) && 0 <= i < self@.queue.tasks[id].blocked_by.len()
                    ==> self@.queue.tasks.contains_key(
                    #[trigger] self@.queue.tasks[id].blocked_by[i],
                ),
    {
        let g = graph_of(self@.queue.tasks);
        assert(g.dom() =~= self@.queue.tasks.dom());
        graph::scope_is_closed(g, self@.root_task_id);
        assert forall|id: Seq<char>, i: int|
            self@.task_ids().contains(id) && 0 <= i
                < self@.queue.tasks[id].blocked_by.len() implies self@.queue.tasks.contains_key(
            #[trigger] self@.queue.tasks[id].blocked_by[i],
        ) by {
            assert(g.contains_key(id));
            assert(g[id] == self@.queue.tasks[id].blocked_by);
            assert(graph::blocked_by(g, id, g[id][i]));
        }
    }

    /// The status of a task of the plan.
    fn effective_status(&self, task: &Task) -> (r: TaskStatus)
        requires
            exists|id: Seq<char>| #[trigger]
                self@.task_ids().contains(id) && self@.queue.tasks[id] == task@,
        ensures
            r == self@.status(task@),
    {
        proof {
            use_type_invariant(self);
            self.tasks_are_there();
        }
        if task.stored_status != TaskStatus::Pending {
            return task.stored_status;
        }
        let mut i: usize = 0;
        while i < task.blocked_by.len()
            invariant
                i <= task.blocked_by.len(),
                task@.stored_status == TaskStatus::Pending,
                forall|j: int|
                    0 <= j < task@.blocked_by.len() ==> self@.queue.tasks.contains_key(
                        #[trigger] task@.blocked_by[j],
                    ),
                forall|j: int|
                    0 <= j < i ==> self@.queue.tasks[#[trigger] task@.blocked_by[j]].stored_status
                        == TaskStatus::Closed,
            decreases task.blocked_by.len() - i,
        {
            assert(task@.blocked_by[i as int] == task.blocked_by@[i as int]@);
            let blocker = self.queue.task(task.blocked_by[i].as_str()).unwrap();
            if blocker.stored_status != TaskStatus::Closed {
                assert(self@.queue.tasks[task@.blocked_by[i as int]].stored_status
                    != TaskStatus::Closed);
                return TaskStatus::Blocked;
            }
            i += 1;
        }
        TaskStatus::Pending
    }

    /// The status of the task with an ID.
    pub fn status(&self, task_id: &str) -> (r: Result<TaskStatus, Error>)
        ensures
            match self@.task(task_id@) {
                Some(task) => r matches Ok(status) && status == self@.status(task),
                None => r matches Err(e) && e@ == (ErrorView::TaskOutsideScope {
                    task_id: task_id@,
                    root_task_id: self@.root_task_id,
                }),
            },
    {
        match self.task(task_id) {
            Some(task) => Ok(self.effective_status(task)),
            None => Err(
                Error::TaskOutsideScope {
                    task_id: task_id.to_owned(),
                    root_task_id: self.root_task_id.clone(),
                },
            ),
        }
    }

    /// The IDs of the tasks that can be claimed, in order.
    pub fn ready_task_ids(&self) -> (r: Vec<String>)
        ensures
            texts(r@) == listed(self@.ready()),
            ascending(texts(r@)),
            texts(r@).to_set() == self@.ready(),
    {
        let all = self.task_ids();
        let ghost ids = texts(all@);
        let mut r: Vec<String> = Vec::new();
        let mut i: usize = 0;
        assert(ids.take(0).to_set() =~= Set::empty());
        while i < all.len()
            invariant
                i <= all.len(),
                ids == texts(all@),
                ascending(ids),
                ids.to_set() == self@.task_ids(),
                ascending(texts(r@)),
                forall|k: int|
                    0 <= k < r@.len() ==> self@.ready().contains(#[trigger] texts(r@)[k])
                        && ids.take(i as int).contains(texts(r@)[k]),
                forall|j: int|
                    0 <= j < i && self@.ready().contains(#[trigger] ids[j]) ==> texts(r@).contains(
                        ids[j],
                    ),
            decreases all.len() - i,
        {
            let ghost so_far = texts(r@);
            let ghost id = ids[i as int];
            let task_id = &all[i];
            assert(ids.to_set().contains(id));
            assert(ids.take(i + 1) =~= ids.take(i as int).push(id));
            let task = self.task(task_id.as_str()).unwrap();
            if self.effective_status(task) == TaskStatus::Pending {
                r.push(task_id.clone());
                assert(texts(r@) =~= so_far.push(id));
                assert forall|a: int, b: int| 0 <= a < b < texts(r@).len() implies before(
                    #[trigger] texts(r@)[a],
                    #[trigger] texts(r@)[b],
                ) by {
                    if b == so_far.len() {
                        let j = choose|j: int|
                            0 <= j < i && ids.take(i as int)[j] == so_far[a];
                        assert(before(ids[j], ids[i as int]));
                    } else {
                        assert(before(so_far[a], so_far[b]));
                    }
                }
                assert forall|j: int|
                    0 <= j < i + 1 && self@.ready().contains(#[trigger] ids[j]) implies texts(
                    r@,
                ).contains(ids[j]) by {
                    if j < i {
                        let k = choose|k: int| 0 <= k < so_far.len() && so_far[k] == ids[j];
                        assert(texts(r@)[k] == ids[j]);
                    } else {
                        assert(texts(r@)[so_far.len() as int] == ids[j]);
                    }
                }
                assert forall|k: int| 0 <= k < r@.len() implies self@.ready().contains(
                    #[trigger] texts(r@)[k],
                ) && ids.take(i + 1).contains(texts(r@)[k]) by {
                    if k < so_far.len() {
                        let j = choose|j: int|
                            0 <= j < i && ids.take(i as int)[j] == so_far[k];
                        assert(ids.take(i + 1)[j] == so_far[k]);
                    } else {
                        assert(ids.take(i + 1)[i as int] == id);
                    }
                }
            } else {
                assert forall|k: int| 0 <= k < r@.len() implies ids.take(i + 1).contains(
                    #[trigger] texts(r@)[k],
                ) by {
                    let j = choose|j: int| 0 <= j < i && ids.take(i as int)[j] == so_far[k];
                    assert(ids.take(i + 1)[j] == so_far[k]);
                }
            }
            i += 1;
        }
        proof {
            assert forall|id: Seq<char>| texts(r@).to_set().contains(id) == self@.ready().contains(
                id,
            ) by {
                if self@.ready().contains(id) {
                    assert(ids.to_set().contains(id));
                    let j = choose|j: int| 0 <= j < ids.len() && ids[j] == id;
                    assert(texts(r@).contains(ids[j]));
                }
            }
            assert(texts(r@).to_set() =~= self@.ready());
            ascending_is_listed(texts(r@));
        }
        r
    }

    /// What the tasks of the plan say apart from their progress.
    pub fn snapshot(&self) -> (r: &PlanSnapshot)
        ensures
            r@ == self@.snapshot(),
    {
        proof {
            use_type_invariant(self);
        }
        &self.snapshot
    }

    /// Refuses a plan that is not the expected one.
    pub fn validate_snapshot(&self, expected: &PlanSnapshot) -> (r: Result<(), Error>)
        ensures
            r is Ok <==> self@.snapshot() == expected@,
            r matches Err(e) ==> e@ == (ErrorView::PlanDrift {
                root_task_id: self@.root_task_id,
            }),
    {
        if self.snapshot().same_as(expected) {
            Ok(())
        } else {
            Err(Error::PlanDrift { root_task_id: self.root_task_id.clone() })
        }
    }

    /// Refuses a plan on which another run works, or of which a task is in progress without an
    /// owner.
    pub fn validate_ownership(&self, run_id: &str) -> (r: Result<(), Error>)
        ensures
            match self@.ownership_error(run_id@) {
                None => r is Ok,
                Some(error) => r matches Err(e) && e@ == error,
            },
    {
        let all = self.task_ids();
        let ghost ids = texts(all@);
        let ghost fault = |id: Seq<char>| self@.ownership_fault(id, run_id@);
        let mut i: usize = 0;
        while i < all.len()
            invariant
                i <= all.len(),
                ids == texts(all@),
                ascending(ids),
                ids.to_set() == self@.task_ids(),
                fault == (|id: Seq<char>| self@.ownership_fault(id, run_id@)),
                forall|j: int| 0 <= j < i ==> fault(#[trigger] ids[j]) is None,
            decreases all.len() - i,
        {
            assert(ids.to_set().contains(ids[i as int]));
            let task_id = &all[i];
            let task = self.task(task_id.as_str()).unwrap();
            if task.stored_status != TaskStatus::Closed {
                match task.owner_run_id() {
                    Some(owner) => {
                        if !same(owner, run_id) {
                            proof {
                                first_in_order(ids, fault, i as int);
                            }
                            return Err(
                                Error::ForeignOwnership {
                                    task_id: task_id.clone(),
                                    owner_run_id: owner.to_owned(),
                                    run_id: run_id.to_owned(),
                                },
                            );
                        }
                    },
                    None => {
                        if task.stored_status == TaskStatus::InProgress {
                            proof {
                                first_in_order(ids, fault, i as int);
                            }
                            return Err(Error::UnownedInProgress { task_id: task_id.clone() });
                        }
                    },
                }
            }
            i += 1;
        }
        proof {
            first_in_order(ids, fault, i as int);
        }
        Ok(())
    }
}

// ---------------------------------------------------------------------------------------------
// The SQ command

/// Where the queue is, and the executable that edits it.
#[derive(Debug)]
pub struct SqClient {
    executable: String,
    queue: String,
}

/// The plan for a root task that the lines of a queue file hold, or why there is none.
pub open spec fn plan_from(
    path: Seq<char>,
    lines: Seq<Result<String, String>>,
    root: Seq<char>,
) -> Result<PlanView, ErrorView> {
    match queue_from(path, lines) {
        Err(e) => Err(e),
        Ok(queue) => plan_for(queue, root),
    }
}

/// The plan for a root task that the lines of a queue file hold, as a run may work on it.
pub open spec fn validated_plan_from(
    path: Seq<char>,
    lines: Seq<Result<String, String>>,
    root: Seq<char>,
    run_id: Seq<char>,
    expected: Option<SnapshotView>,
) -> Result<PlanView, ErrorView> {
    match plan_from(path, lines, root) {
        Err(e) => Err(e),
        Ok(plan) => plan.validated(run_id, expected),
    }
}

/// The executable that is configured; an empty name configures none.
pub open spec fn executable_or(configured: Option<Seq<char>>, default: Seq<char>) -> Seq<char> {
    match configured {
        Some(name) => if name.len() > 0 {
            name
        } else {
            default
        },
        None => default,
    }
}

/// The executable that is configured; an empty name configures none.
pub fn configured_executable(configured: Option<String>, default: &str) -> (r: String)
    ensures
        r@ == executable_or(shown(configured), default@),
{
    match configured {
        Some(name) => if name.as_str().is_empty() {
            default.to_owned()
        } else {
            name
        },
        None => default.to_owned(),
    }
}

/// The arguments with which a task is claimed, given the plan as it is now or why it is refused: only
/// a pending task of the plan is claimed.
pub open spec fn claim_request(
    current: Result<PlanView, ErrorView>,
    root_task_id: Seq<char>,
    task_id: Seq<char>,
    queue: Seq<char>,
    run_id: Seq<char>,
) -> Result<Seq<Seq<char>>, ErrorView> {
    match current {
        Err(error) => Err(error),
        Ok(plan) => match plan.task(task_id) {
            None => Err(ErrorView::TaskOutsideScope { task_id, root_task_id }),
            Some(task) => if plan.status(task) != TaskStatus::Pending {
                Err(ErrorView::TaskNotReady { task_id, status: plan.status(task) })
            } else {
                Ok(claim_arguments(task_id, queue, run_id))
            },
        },
    }
}

/// Why an edit of the queue failed, where it did.
pub open spec fn edit_fault(executable: Seq<char>, ran: Result<Finished, String>) -> Option<
    ErrorView,
> {
    match ran {
        Err(source) => Some(ErrorView::StartSq { executable, source: source@ }),
        Ok(output) => if output.success {
            None
        } else {
            Some(
                ErrorView::SqFailed {
                    executable,
                    status: output.code,
                    stderr: trim(output.stderr@),
                },
            )
        },
    }
}

/// The plan after a claim, given the plan that was read back or why it is refused: the claim stands
/// where the task is in progress for the run.
pub open spec fn confirmed_claim(
    read_back: Result<PlanView, ErrorView>,
    task_id: Seq<char>,
    run_id: Seq<char>,
) -> Result<PlanView, ErrorView> {
    match read_back {
        Err(ErrorView::UnownedInProgress { task_id: stray }) if stray == task_id => Err(
            ErrorView::ClaimNotPersisted {
                task_id,
                expected_run_id: run_id,
                actual_status: TaskStatus::InProgress,
                actual_run_id: None,
            },
        ),
        Err(error) => Err(error),
        Ok(plan) => {
            let task = plan.queue.tasks[task_id];
            if task.stored_status == TaskStatus::InProgress && task.owner_run_id() == Some(run_id) {
                Ok(plan)
            } else {
                Err(
                    ErrorView::ClaimNotPersisted {
                        task_id,
                        expected_run_id: run_id,
                        actual_status: task.stored_status,
                        actual_run_id: task.owner_run_id(),
                    },
                )
            }
        },
    }
}

/// The arguments with which a task is claimed for a run.
pub open spec fn claim_arguments(task_id: Seq<char>, queue: Seq<char>, run_id: Seq<char>) -> Seq<
    Seq<char>,
> {
    seq![
        "edit"@,
        task_id,
        "--queue"@,
        queue,
        "--set-status"@,
        "in_progress"@,
        "--merge-metadata"@,
        nested_object_text("agent_orchestrator"@, "run_id"@, run_id),
        "--json"@,
    ]
}

impl SqClient {
    pub closed spec fn executable_name(self) -> Seq<char> {
        self.executable@
    }

    pub closed spec fn queue_file(self) -> Seq<char> {
        self.queue@
    }

    /// A client for the configured executable, which is `sq` where none is configured.
    pub fn configured(queue: String, executable: Option<String>) -> (r: SqClient)
        ensures
            r.queue_file() == queue@,
            r.executable_name() == executable_or(shown(executable), "sq"@),
    {
        SqClient { executable: configured_executable(executable, "sq"), queue }
    }

    pub fn with_executable(queue: String, executable: String) -> (r: SqClient)
        ensures
            r.queue_file() == queue@,
            r.executable_name() == executable@,
    {
        SqClient { executable, queue }
    }

    pub fn executable(&self) -> (r: &str)
        ensures
            r@ == self.executable_name(),
    {
        self.executable.as_str()
    }

    pub fn queue_path(&self) -> (r: &str)
        ensures
            r@ == self.queue_file(),
    {
        self.queue.as_str()
    }

    /// The plan for a root task, from the lines of the queue.
    pub fn plan(&self, root_task_id: &str, lines: &Vec<Result<String, String>>) -> (r: Result<
        ScopedPlan,
        Error,
    >)
        ensures
            seen(r) == plan_from(self.queue_file(), lines@, root_task_id@),
            r matches Ok(plan) ==> plan@.valid() && plan@.queue.well_formed(),
    {
        Queue::read(self.queue.clone(), lines)?.scope(root_task_id)
    }

    /// The plan for a root task as a run may work on it, from the lines of the queue.
    pub fn validated_plan(
        &self,
        root_task_id: &str,
        run_id: &str,
        expected: Option<&PlanSnapshot>,
        lines: &Vec<Result<String, String>>,
    ) -> (r: Result<ScopedPlan, Error>)
        ensures
            seen(r) == validated_plan_from(
                self.queue_file(),
                lines@,
                root_task_id@,
                run_id@,
                shown(expected),
            ),
            r matches Ok(plan) ==> plan@.valid() && plan@.queue.well_formed(),
    {
        let plan = self.plan(root_task_id, lines)?;
        if let Some(expected) = expected {
            plan.validate_snapshot(expected)?;
        }
        plan.validate_ownership(run_id)?;
        Ok(plan)
    }

    /// The arguments of the command that claims a task for a run, where the lines of the queue
    /// still hold the plan, it may be worked on, and the task is ready.
    pub fn claim(
        &self,
        plan: &ScopedPlan,
        task_id: &str,
        run_id: &str,
        lines: &Vec<Result<String, String>>,
    ) -> (r: Result<Vec<String>, Error>)
        ensures
            match claim_request(
                validated_plan_from(
                    self.queue_file(),
                    lines@,
                    plan@.root_task_id,
                    run_id@,
                    Some(plan@.snapshot()),
                ),
                plan@.root_task_id,
                task_id@,
                self.queue_file(),
                run_id@,
            ) {
                Ok(wanted) => r matches Ok(arguments) && texts(arguments@) == wanted,
                Err(error) => r matches Err(e) && e@ == error,
            },
            r matches Ok(arguments) ==> reads_as(
                arguments@[7]@,
                nested_object("agent_orchestrator"@, "run_id"@, run_id@),
            ),
    {
        let current = self.validated_plan(
            plan.root_task_id(),
            run_id,
            Some(plan.snapshot()),
            lines,
        )?;
        let status = current.status(task_id)?;
        if status != TaskStatus::Pending {
            return Err(Error::TaskNotReady { task_id: task_id.to_owned(), status });
        }
        let ownership = write_nested("agent_orchestrator", "run_id", run_id);
        let arguments = vec![
            "edit".to_owned(),
            task_id.to_owned(),
            "--queue".to_owned(),
            self.queue.clone(),
            "--set-status".to_owned(),
            "in_progress".to_owned(),
            "--merge-metadata".to_owned(),
            ownership,
            "--json".to_owned(),
        ];
        assert(texts(arguments@) =~= claim_arguments(task_id@, self.queue_file(), run_id@));
        Ok(arguments)
    }

    /// Refuses the outcome of a command that could not be started or did not succeed.
    pub fn check_edit(&self, ran: &Result<Finished, String>) -> (r: Result<(), Error>)
        ensures
            match edit_fault(self.executable_name(), *ran) {
                None => r is Ok,
                Some(error) => r matches Err(e) && e@ == error,
            },
    {
        match ran {
            Err(source) => Err(
                Error::StartSq { executable: self.executable.clone(), source: source.clone() },
            ),
            Ok(output) => if output.success {
                Ok(())
            } else {
                Err(
                    Error::SqFailed {
                        executable: self.executable.clone(),
                        status: output.code,
                        stderr: trimmed(output.stderr.as_str()),
                    },
                )
            },
        }
    }

    /// The plan after a claim, where the lines of the queue hold the claim.
    pub fn confirm_claim(
        &self,
        plan: &ScopedPlan,
        task_id: &str,
        run_id: &str,
        lines: &Vec<Result<String, String>>,
    ) -> (r: Result<ScopedPlan, Error>)
        requires
            plan@.task(task_id@) is Some,
        ensures
            seen(r) == confirmed_claim(
                validated_plan_from(
                    self.queue_file(),
                    lines@,
                    plan@.root_task_id,
                    run_id@,
                    Some(plan@.snapshot()),
                ),
                task_id@,
                run_id@,
            ),
            r matches Ok(p) ==> p@.valid() && p@.queue.well_formed() && p@.snapshot()
                == plan@.snapshot() && p@.task_ids() == plan@.task_ids(),
    {
        let claimed = match self.validated_plan(
            plan.root_task_id(),
            run_id,
            Some(plan.snapshot()),
            lines,
        ) {
            Ok(claimed) => claimed,
            Err(Error::UnownedInProgress { task_id: stray }) => {
                if same(stray.as_str(), task_id) {
                    return Err(
                        Error::ClaimNotPersisted {
                            task_id: stray,
                            expected_run_id: run_id.to_owned(),
                            actual_status: TaskStatus::InProgress,
                            actual_run_id: None,
                        },
                    );
                }
                return Err(Error::UnownedInProgress { task_id: stray });
            },
            Err(error) => {
                return Err(error);
            },
        };
        proof {
            same_snapshot_same_tasks(plan@, claimed@);
        }
        let task = claimed.task(task_id).unwrap();
        let owner = task.owner_run_id();
        let owned = match owner {
            Some(owner) => same(owner, run_id),
            None => false,
        };
        if task.stored_status != TaskStatus::InProgress || !owned {
            return Err(
                Error::ClaimNotPersisted {
                    task_id: task_id.to_owned(),
                    expected_run_id: run_id.to_owned(),
                    actual_status: task.stored_status,
                    actual_run_id: match owner {
                        Some(owner) => Some(owner.to_owned()),
                        None => None,
                    },
                },
            );
        }
        Ok(claimed)
    }
}

/// Plans with the same snapshot hold the same tasks.
pub proof fn same_snapshot_same_tasks(a: PlanView, b: PlanView)
    requires
        a.snapshot() == b.snapshot(),
    ensures
        a.task_ids() == b.task_ids(),
        a.root_task_id == b.root_task_id,
{
    assert forall|id: Seq<char>| a.task_ids().contains(id) == b.task_ids().contains(id) by {
        assert(a.snapshot().tasks.contains_key(id) == a.task_ids().contains(id));
        assert(b.snapshot().tasks.contains_key(id) == b.task_ids().contains(id));
    }
    assert(a.task_ids() =~= b.task_ids());
}

/// A queue in one of the directories in which one is searched for, and whether it is a file.
#[derive(Debug)]
pub struct QueueCandidate {
    pub path: String,
    pub is_file: bool,
}

/// The first candidate that is a file.
pub open spec fn first_file(candidates: Seq<QueueCandidate>) -> Option<Seq<char>>
    decreases candidates.len(),
{
    if candidates.len() == 0 {
        None
    } else if candidates[0].is_file {
        Some(candidates[0].path@)
    } else {
        first_file(candidates.drop_first())
    }
}

/// The queue that is used: the given one, else the configured one, else the first that is found in
/// a directory, else the one in the directory where the search begins.
pub open spec fn queue_path_for(
    explicit: Option<Seq<char>>,
    configured: Option<Seq<char>>,
    search_root: Seq<char>,
    candidates: Seq<QueueCandidate>,
) -> Seq<char> {
    match explicit {
        Some(path) => path,
        None => if configured is Some && configured->0.len() > 0 {
            configured->0
        } else {
            match first_file(candidates) {
                Some(path) => path,
                None => below(search_root, ".sift/issues.jsonl"@),
            }
        },
    }
}

/// The queue in a directory in which one is searched for.
pub fn queue_in(directory: &str) -> (r: String)
    ensures
        r@ == below(directory@, ".sift/issues.jsonl"@),
{
    path_below(directory, ".sift/issues.jsonl")
}

/// Chooses the queue. The candidates are those in the directory where the search begins and in the
/// directories above it, the nearest first.
pub fn resolve_queue_path(
    explicit: Option<&str>,
    configured: Option<&str>,
    search_root: &str,
    candidates: &Vec<QueueCandidate>,
) -> (r: String)
    ensures
        r@ == queue_path_for(shown(explicit), shown(configured), search_root@, candidates@),
{
    if let Some(path) = explicit {
        return path.to_owned();
    }
    if let Some(path) = configured {
        if !path.is_empty() {
            return path.to_owned();
        }
    }
    let mut i: usize = 0;
    assert(candidates@.skip(0) =~= candidates@);
    while i < candidates.len()
        invariant
            i <= candidates.len(),
            first_file(candidates@) == first_file(candidates@.skip(i as int)),
            explicit is None,
            configured matches Some(path) ==> path@.len() == 0,
        decreases candidates.len() - i,
    {
        assert(candidates@.skip(i as int).drop_first() =~= candidates@.skip(i + 1));
        if candidates[i].is_file {
            return candidates[i].path.clone();
        }
        i += 1;
    }
    queue_in(search_root)
}

// ---------------------------------------------------------------------------------------------
// Laws

/// Every task of a queue stands under its own ID, which is not empty.
pub proof fn tasks_stand_under_their_ids(
    path: Seq<char>,
    lines: Seq<Result<Seq<char>, Seq<char>>>,
    n: nat,
)
    requires
        tasks_on(path, lines, n) is Ok,
    ensures
        tasks_on(path, lines, n)->Ok_0.dom().finite(),
        forall|id: Seq<char>| #[trigger]
            tasks_on(path, lines, n)->Ok_0.contains_key(id) ==> tasks_on(
                path,
                lines,
                n,
            )->Ok_0[id].id == id && id.len() > 0,
    decreases n,
{
    if n > 0 {
        tasks_stand_under_their_ids(path, lines, (n - 1) as nat);
    }
}

/// A ready task is stored as pending, and every blocker of it is a closed task of the plan.
pub proof fn ready_tasks_wait_for_nothing(plan: PlanView, task_id: Seq<char>)
    requires
        plan.valid(),
        plan.ready().contains(task_id),
    ensures
        plan.task(task_id) matches Some(task) && task.stored_status == TaskStatus::Pending
            && forall|i: int|
            0 <= i < task.blocked_by.len() ==> (plan.task(#[trigger] task.blocked_by[i]) matches Some(
                blocker,
            ) && blocker.stored_status == TaskStatus::Closed),
{
    let g = graph_of(plan.queue.tasks);
    let task = plan.queue.tasks[task_id];
    assert(g.dom() =~= plan.queue.tasks.dom());
    graph::scope_is_closed(g, plan.root_task_id);
    assert forall|i: int| 0 <= i < task.blocked_by.len() implies (plan.task(
        #[trigger] task.blocked_by[i],
    ) matches Some(blocker) && blocker.stored_status == TaskStatus::Closed) by {
        assert(graph::blocked_by(g, task_id, g[task_id][i]));
    }
}

/// Work on a plan never stalls: while every task is stored as pending or closed and not all of
/// them are closed, one of them is ready.
pub proof fn some_task_is_ready(plan: PlanView)
    requires
        plan.valid(),
        forall|id: Seq<char>| #[trigger]
            plan.task_ids().contains(id) ==> plan.queue.tasks[id].stored_status
                == TaskStatus::Pending || plan.queue.tasks[id].stored_status == TaskStatus::Closed,
        exists|id: Seq<char>| #[trigger]
            plan.task_ids().contains(id) && plan.queue.tasks[id].stored_status
                != TaskStatus::Closed,
    ensures
        exists|id: Seq<char>| plan.ready().contains(id),
{
    let g = graph_of(plan.queue.tasks);
    assert(g.dom() =~= plan.queue.tasks.dom());
    let open = plan.task_ids().filter(
        |id: Seq<char>| plan.queue.tasks[id].stored_status != TaskStatus::Closed,
    );
    let some = choose|id: Seq<char>| #[trigger]
        plan.task_ids().contains(id) && plan.queue.tasks[id].stored_status != TaskStatus::Closed;
    assert(open.contains(some));
    graph::some_open_task_is_unblocked(g, plan.root_task_id, open);
    graph::scope_is_closed(g, plan.root_task_id);
    let next = choose|t: Seq<char>| #[trigger] open.contains(t) && !graph::held_up(g, open, t);
    let task = plan.queue.tasks[next];
    assert forall|i: int| 0 <= i < task.blocked_by.len() implies plan.queue.tasks[
    #[trigger] task.blocked_by[i]].stored_status == TaskStatus::Closed by {
        let b = task.blocked_by[i];
        assert(g[next][i] == b);
        assert(graph::blocked_by(g, next, b));
        assert(!open.contains(b));
        assert(plan.task_ids().contains(b));
    }
    assert(plan.ready().contains(next));
}

/// Where a run may work on a plan, it owns every task that is in progress, and no other run owns a
/// task that is not closed.
pub proof fn validated_plans_are_owned(plan: PlanView, run_id: Seq<char>, task_id: Seq<char>)
    requires
        plan.valid(),
        plan.ownership_error(run_id) is None,
        plan.task_ids().contains(task_id),
    ensures
        plan.queue.tasks[task_id].stored_status == TaskStatus::InProgress
            ==> plan.queue.tasks[task_id].owner_run_id() == Some(run_id),
        plan.queue.tasks[task_id].stored_status != TaskStatus::Closed
            && plan.queue.tasks[task_id].owner_run_id() is Some
            ==> plan.queue.tasks[task_id].owner_run_id() == Some(run_id),
{
    let g = graph_of(plan.queue.tasks);
    assert(g.dom() =~= plan.queue.tasks.dom());
    graph::scope_is_closed(g, plan.root_task_id);
    vstd::set_lib::lemma_len_subset(plan.task_ids(), g.dom());
    let fault = |id: Seq<char>| plan.ownership_fault(id, run_id);
    if fault(task_id) is Some {
        first_fault_exists(plan.task_ids(), fault, task_id);
    }
}

/// A claim is read back: a task whose metadata holds what a claim merges into it is owned by the
/// run of the claim.
pub proof fn merged_claims_are_read_back(task: TaskView, run_id: Seq<char>)
    requires
        field_in(task.raw.field("metadata"@), "agent_orchestrator"@) == nested_object(
            "agent_orchestrator"@,
            "run_id"@,
            run_id,
        ).field("agent_orchestrator"@),
    ensures
        task.owner_run_id() == Some(run_id),
{
    let claim = nested_object("agent_orchestrator"@, "run_id"@, run_id);
    let held = seq![MemberView { name: "run_id"@, value: JsonView::Text(run_id) }];
    assert(member(held, "run_id"@) == Some(JsonView::Text(run_id)));
    assert(claim.field("agent_orchestrator"@) == Some(JsonView::Object(held)));
}

} // verus!
