//! Herdr: the workspaces that workers run in, the workers themselves, and what their state means.
use vstd::prelude::*;
use vstd::utf8::encode_utf8;
use crate::command::{failure_detail, failure_text, Finished};
use crate::hash::{absorb, absorb_all, hash_continues, hash_of, BASIS};
use crate::json::{field_in, json_of_bytes, read_bytes, text_in, Json, JsonView};
use crate::outcome::{seen, shown};
use crate::sq::{configured_executable, executable_or};
use crate::text::{blank, hex, hex_digit, is_blank, same, string_of, texts, to_hex};

verus! {

/// The environment variable that names the Herdr executable.
pub const HERDR_EXECUTABLE_ENV: &'static str = "AGENT_ORCHESTRATOR_HERDR";

/// The environment variable that names the Herdr session.
pub const HERDR_SESSION_ENV: &'static str = "HERDR_SESSION";

/// The worktree that Herdr is to create.
#[derive(Debug, Clone, Copy)]
pub struct WorktreeSpec<'a> {
    pub repo: &'a str,
    pub branch: &'a str,
    pub base: &'a str,
    pub path: &'a str,
    pub task_label: &'a str,
}

/// The workspace that Herdr created, and its pane.
#[derive(Debug)]
pub struct WorkerWorkspace {
    pub workspace_id: String,
    pub pane_id: String,
}

/// A worker that runs in a pane.
#[derive(Debug)]
pub struct Worker {
    pub name: String,
    pub workspace_id: String,
    pub pane_id: String,
}

/// What a workspace says.
pub struct WorkspaceView {
    pub workspace_id: Seq<char>,
    pub pane_id: Seq<char>,
}

/// What a worker says.
pub struct WorkerView {
    pub name: Seq<char>,
    pub workspace_id: Seq<char>,
    pub pane_id: Seq<char>,
}

impl View for WorkerWorkspace {
    type V = WorkspaceView;

    open spec fn view(&self) -> WorkspaceView {
        WorkspaceView { workspace_id: self.workspace_id@, pane_id: self.pane_id@ }
    }
}

impl View for Worker {
    type V = WorkerView;

    open spec fn view(&self) -> WorkerView {
        WorkerView {
            name: self.name@,
            workspace_id: self.workspace_id@,
            pane_id: self.pane_id@,
        }
    }
}

/// The state of an agent in its pane.
#[derive(Debug, Clone, Copy, PartialEq, Eq, Structural)]
pub enum AgentStatus {
    Working,
    Idle,
    Done,
    Blocked,
    Unknown,
}

/// What the state of a worker means for its task.
#[derive(Debug, Clone, Copy, PartialEq, Eq, Structural)]
pub enum WorkerDisposition {
    Active,
    ReportPresent,
    Stop(WorkerStop),
}

/// Why a worker is not waited for any longer.
#[derive(Debug, Clone, Copy, PartialEq, Eq, Structural)]
pub enum WorkerStop {
    SettledWithoutReport(AgentStatus),
    Blocked,
}

/// The state that a word names.
pub open spec fn agent_status_named(word: Seq<char>) -> Option<AgentStatus> {
    if word == "working"@ {
        Some(AgentStatus::Working)
    } else if word == "idle"@ {
        Some(AgentStatus::Idle)
    } else if word == "done"@ {
        Some(AgentStatus::Done)
    } else if word == "blocked"@ {
        Some(AgentStatus::Blocked)
    } else if word == "unknown"@ {
        Some(AgentStatus::Unknown)
    } else {
        None
    }
}

impl AgentStatus {
    /// Reads the word for a state.
    pub fn parse(value: &str) -> (r: Option<AgentStatus>)
        ensures
            r == agent_status_named(value@),
    {
        if same(value, "working") {
            Some(AgentStatus::Working)
        } else if same(value, "idle") {
            Some(AgentStatus::Idle)
        } else if same(value, "done") {
            Some(AgentStatus::Done)
        } else if same(value, "blocked") {
            Some(AgentStatus::Blocked)
        } else if same(value, "unknown") {
            Some(AgentStatus::Unknown)
        } else {
            None
        }
    }

    /// The name of a state.
    pub open spec fn title(self) -> Seq<char> {
        match self {
            AgentStatus::Working => "Working"@,
            AgentStatus::Idle => "Idle"@,
            AgentStatus::Done => "Done"@,
            AgentStatus::Blocked => "Blocked"@,
            AgentStatus::Unknown => "Unknown"@,
        }
    }

    /// The name of a state.
    pub fn name(&self) -> (r: &'static str)
        ensures
            r@ == self.title(),
    {
        match self {
            AgentStatus::Working => "Working",
            AgentStatus::Idle => "Idle",
            AgentStatus::Done => "Done",
            AgentStatus::Blocked => "Blocked",
            AgentStatus::Unknown => "Unknown",
        }
    }
}

/// What the state of a worker means for its task.
pub open spec fn disposition_of(status: AgentStatus, report_present: bool) -> WorkerDisposition {
    if report_present {
        WorkerDisposition::ReportPresent
    } else {
        match status {
            AgentStatus::Working => WorkerDisposition::Active,
            AgentStatus::Unknown => WorkerDisposition::Active,
            AgentStatus::Idle => WorkerDisposition::Stop(WorkerStop::SettledWithoutReport(status)),
            AgentStatus::Done => WorkerDisposition::Stop(WorkerStop::SettledWithoutReport(status)),
            AgentStatus::Blocked => WorkerDisposition::Stop(WorkerStop::Blocked),
        }
    }
}

/// What the state of a worker means for its task: a report settles it; without one a worker that
/// works, or whose state is not known, is active, and any other has stopped.
pub fn reconcile_worker(status: AgentStatus, structured_report_present: bool) -> (r:
    WorkerDisposition)
    ensures
        r == disposition_of(status, structured_report_present),
{
    if structured_report_present {
        return WorkerDisposition::ReportPresent;
    }
    match status {
        AgentStatus::Working | AgentStatus::Unknown => WorkerDisposition::Active,
        AgentStatus::Idle | AgentStatus::Done => {
            WorkerDisposition::Stop(WorkerStop::SettledWithoutReport(status))
        },
        AgentStatus::Blocked => WorkerDisposition::Stop(WorkerStop::Blocked),
    }
}

// ---------------------------------------------------------------------------------------------
// Names of workers

/// The character of a worker name for a byte of a task ID.
pub open spec fn name_char(byte: u8) -> char {
    if 97 <= byte <= 122 || 48 <= byte <= 57 || byte == 45 || byte == 95 {
        byte as char
    } else if 65 <= byte <= 90 {
        (byte + 32) as u8 as char
    } else {
        '-'
    }
}

/// A character that separates the words of a name.
pub open spec fn is_separator(c: char) -> bool {
    c == '-' || c == '_'
}

/// The first part of a name after one more byte of the task ID: a separator counts only behind
/// another character, and twelve characters are enough.
pub open spec fn name_with(name: Seq<char>, byte: u8) -> Seq<char> {
    let c = name_char(byte);
    if name.len() >= 12 || is_separator(c) && (name.len() == 0 || is_separator(name.last())) {
        name
    } else {
        name.push(c)
    }
}

/// The first part of the name for the bytes of a task ID.
pub open spec fn name_start(bytes: Seq<u8>) -> Seq<char>
    decreases bytes.len(),
{
    if bytes.len() == 0 {
        Seq::empty()
    } else {
        name_with(name_start(bytes.drop_last()), bytes.last())
    }
}

/// A name without the separators at its end.
pub open spec fn unseparated(name: Seq<char>) -> Seq<char>
    decreases name.len(),
{
    if name.len() > 0 && is_separator(name.last()) {
        unseparated(name.drop_last())
    } else {
        name
    }
}

/// The readable part of the name of a worker.
pub open spec fn readable_part(bytes: Seq<u8>) -> Seq<char> {
    let name = unseparated(name_start(bytes));
    if name.len() == 0 {
        "task"@
    } else {
        name
    }
}

/// The name of the worker for a task of a run.
pub open spec fn name_of_worker(run_id: Seq<char>, task_id: Seq<char>) -> Seq<char> {
    "ao-"@ + readable_part(encode_utf8(task_id)) + "-"@ + hex(
        hash_of(encode_utf8(run_id) + seq![0u8] + encode_utf8(task_id)) as nat,
        16,
    )
}

/// Once twelve characters are there, no more bytes count.
proof fn name_start_is_full(bytes: Seq<u8>, n: int)
    requires
        0 <= n <= bytes.len(),
        name_start(bytes.take(n)).len() >= 12,
    ensures
        name_start(bytes) == name_start(bytes.take(n)),
    decreases bytes.len(),
{
    if n < bytes.len() {
        assert(bytes.drop_last().take(n) =~= bytes.take(n));
        name_start_is_full(bytes.drop_last(), n);
    } else {
        assert(bytes.take(n) =~= bytes);
    }
}

/// The character of a worker name for a byte of a task ID.
fn name_character(byte: u8) -> (r: char)
    ensures
        r == name_char(byte),
{
    if 97 <= byte && byte <= 122 || 48 <= byte && byte <= 57 || byte == 45 || byte == 95 {
        byte as char
    } else if 65 <= byte && byte <= 90 {
        (byte + 32) as char
    } else {
        '-'
    }
}

/// The readable part of the name of a worker.
fn readable_name(task_id: &str) -> (r: String)
    ensures
        r@ == readable_part(encode_utf8(task_id@)),
{
    let bytes = task_id.as_bytes();
    let ghost all = encode_utf8(task_id@);
    let mut readable: Vec<char> = Vec::new();
    let mut i: usize = 0;
    assert(all.take(0) =~= Seq::<u8>::empty());
    while i < bytes.len() && readable.len() < 12
        invariant
            i <= bytes.len(),
            all == bytes@,
            readable@ == name_start(all.take(i as int)),
        decreases bytes.len() - i,
    {
        assert(all.take(i + 1).drop_last() =~= all.take(i as int));
        let c = name_character(bytes[i]);
        let separator = c == '-' || c == '_';
        let n = readable.len();
        if !(separator && (n == 0 || readable[n - 1] == '-' || readable[n - 1] == '_')) {
            readable.push(c);
        }
        i += 1;
    }
    proof {
        if i < bytes.len() {
            name_start_is_full(all, i as int);
        } else {
            assert(all.take(i as int) =~= all);
        }
    }
    let mut n: usize = readable.len();
    assert(readable@.take(n as int) =~= readable@);
    while n > 0 && (readable[n - 1] == '-' || readable[n - 1] == '_')
        invariant
            n <= readable.len(),
            unseparated(readable@) == unseparated(readable@.take(n as int)),
        decreases n,
    {
        assert(readable@.take(n as int).drop_last() =~= readable@.take(n - 1));
        n -= 1;
    }
    if n == 0 {
        "task".to_owned()
    } else {
        let r = string_of(&readable, 0, n);
        assert(r@ =~= readable@.take(n as int));
        r
    }
}

/// The name of the worker for a task of a run: readable, and different for each of them as far as
/// a hash tells them apart.
pub fn worker_name(run_id: &str, task_id: &str) -> (r: String)
    ensures
        r@ == name_of_worker(run_id@, task_id@),
        r@.len() <= 32,
        valid_worker_name(r@),
{
    let readable = readable_name(task_id);
    let hash: u64 = absorb_all(BASIS, run_id.as_bytes());
    let hash: u64 = absorb(hash, 0);
    let hash: u64 = absorb_all(hash, task_id.as_bytes());
    proof {
        let a = encode_utf8(run_id@);
        let b = encode_utf8(task_id@);
        hash_continues(BASIS, a, seq![0u8]);
        hash_continues(BASIS, a + seq![0u8], b);
        worker_names_are_valid(run_id@, task_id@);
    }
    let mut name = "ao-".to_owned();
    name.append(readable.as_str());
    name.append("-");
    name.append(to_hex(hash, 16).as_str());
    name
}

/// A character that Herdr takes in the name of an agent.
pub open spec fn valid_name_char(c: char) -> bool {
    'a' <= c <= 'z' || '0' <= c <= '9' || c == '-' || c == '_'
}

/// A name that Herdr takes for an agent: it starts with a letter.
pub open spec fn valid_worker_name(name: Seq<char>) -> bool {
    &&& name.len() > 0
    &&& 'a' <= name[0] <= 'z'
    &&& forall|i: int| 0 <= i < name.len() ==> valid_name_char(#[trigger] name[i])
}

/// Herdr takes the name of every worker, whatever the IDs of its run and task are.
pub proof fn worker_names_are_valid(run_id: Seq<char>, task_id: Seq<char>)
    ensures
        name_of_worker(run_id, task_id).len() <= 32,
        valid_worker_name(name_of_worker(run_id, task_id)),
{
    let bytes = encode_utf8(task_id);
    let hash = hash_of(encode_utf8(run_id) + seq![0u8] + bytes) as nat;
    reveal_strlit("ao-");
    reveal_strlit("-");
    reveal_strlit("task");
    name_starts_are_valid(bytes);
    unseparated_is_shorter(name_start(bytes));
    hex_is_valid(hash, 16);
    let name = name_of_worker(run_id, task_id);
    let readable = readable_part(bytes);
    let digits = hex(hash, 16);
    assert forall|i: int| 0 <= i < name.len() implies valid_name_char(#[trigger] name[i]) by {
        if i < 3 {
            assert(name[i] == "ao-"@[i]);
        } else if i < 3 + readable.len() {
            assert(name[i] == readable[i - 3]);
        } else if i == 3 + readable.len() {
            assert(name[i] == '-');
        } else {
            assert(name[i] == digits[i - 4 - readable.len()]);
        }
    }
    assert(name[0] == 'a');
}

proof fn name_starts_are_valid(bytes: Seq<u8>)
    ensures
        name_start(bytes).len() <= 12,
        forall|i: int|
            0 <= i < name_start(bytes).len() ==> valid_name_char(#[trigger] name_start(bytes)[i]),
    decreases bytes.len(),
{
    if bytes.len() > 0 {
        name_starts_are_valid(bytes.drop_last());
        assert(valid_name_char(name_char(bytes.last())));
    }
}

proof fn unseparated_is_shorter(name: Seq<char>)
    ensures
        unseparated(name).len() <= name.len(),
        forall|i: int|
            0 <= i < unseparated(name).len() ==> #[trigger] unseparated(name)[i] == name[i],
    decreases name.len(),
{
    if name.len() > 0 && is_separator(name.last()) {
        unseparated_is_shorter(name.drop_last());
    }
}

proof fn hex_is_valid(n: nat, width: nat)
    ensures
        hex(n, width).len() == width,
        forall|i: int| 0 <= i < width ==> valid_name_char(#[trigger] hex(n, width)[i]),
    decreases width,
{
    if width > 0 {
        hex_is_valid(n / 16, (width - 1) as nat);
        assert(valid_name_char(hex_digit(n % 16)));
    }
}

// ---------------------------------------------------------------------------------------------
// Errors

/// Why Herdr does not do as asked.
#[derive(Debug)]
pub enum Error {
    Start { executable: String, session: String, operation: &'static str, source: String },
    SessionUnavailable { session: String, detail: String },
    CommandFailed { operation: &'static str, status: String, detail: String },
    InvalidJson { operation: &'static str, source: String },
    UnexpectedResponse { operation: &'static str, detail: String },
    MissingHandoffReceipt,
}

/// What an error says.
pub enum ErrorView {
    Start {
        executable: Seq<char>,
        session: Seq<char>,
        operation: Seq<char>,
        source: Seq<char>,
    },
    SessionUnavailable { session: Seq<char>, detail: Seq<char> },
    CommandFailed { operation: Seq<char>, status: Seq<char>, detail: Seq<char> },
    InvalidJson { operation: Seq<char>, source: Seq<char> },
    UnexpectedResponse { operation: Seq<char>, detail: Seq<char> },
    MissingHandoffReceipt,
}

impl View for Error {
    type V = ErrorView;

    open spec fn view(&self) -> ErrorView {
        match *self {
            Error::Start { executable, session, operation, source } => ErrorView::Start {
                executable: executable@,
                session: session@,
                operation: operation@,
                source: source@,
            },
            Error::SessionUnavailable { session, detail } => ErrorView::SessionUnavailable {
                session: session@,
                detail: detail@,
            },
            Error::CommandFailed { operation, status, detail } => ErrorView::CommandFailed {
                operation: operation@,
                status: status@,
                detail: detail@,
            },
            Error::InvalidJson { operation, source } => ErrorView::InvalidJson {
                operation: operation@,
                source: source@,
            },
            Error::UnexpectedResponse { operation, detail } => ErrorView::UnexpectedResponse {
                operation: operation@,
                detail: detail@,
            },
            Error::MissingHandoffReceipt => ErrorView::MissingHandoffReceipt,
        }
    }
}

impl ErrorView {
    /// The message for an error.
    pub open spec fn message(self) -> Seq<char> {
        match self {
            ErrorView::Start { executable, session, operation, source } =>
                "Herdr is required for `finish`: cannot start Herdr executable `"@ + executable
                + "` for session `"@ + session + "` while "@ + operation + ": "@ + source,
            ErrorView::SessionUnavailable { session, detail } => "Herdr session `"@ + session
                + "` is unavailable: "@ + detail,
            ErrorView::CommandFailed { operation, status, detail } => "Herdr failed while "@
                + operation + " ("@ + status + "): "@ + detail,
            ErrorView::InvalidJson { operation, source } => "Herdr returned invalid JSON while "@
                + operation + ": "@ + source,
            ErrorView::UnexpectedResponse { operation, detail } =>
                "Herdr returned an unexpected response while "@ + operation + ": "@ + detail,
            ErrorView::MissingHandoffReceipt =>
                "cannot prompt OMP worker before a durable AgentMail handoff receipt exists"@,
        }
    }
}

impl Error {
    /// The message for an error.
    pub fn message(&self) -> (r: String)
        ensures
            r@ == self@.message(),
    {
        match self {
            Error::Start { executable, session, operation, source } => {
                let mut m =
                    "Herdr is required for `finish`: cannot start Herdr executable `".to_owned();
                m.append(executable.as_str());
                m.append("` for session `");
                m.append(session.as_str());
                m.append("` while ");
                m.append(operation);
                m.append(": ");
                m.append(source.as_str());
                m
            },
            Error::SessionUnavailable { session, detail } => {
                let mut m = "Herdr session `".to_owned();
                m.append(session.as_str());
                m.append("` is unavailable: ");
                m.append(detail.as_str());
                m
            },
            Error::CommandFailed { operation, status, detail } => {
                let mut m = "Herdr failed while ".to_owned();
                m.append(operation);
                m.append(" (");
                m.append(status.as_str());
                m.append("): ");
                m.append(detail.as_str());
                m
            },
            Error::InvalidJson { operation, source } => {
                let mut m = "Herdr returned invalid JSON while ".to_owned();
                m.append(operation);
                m.append(": ");
                m.append(source.as_str());
                m
            },
            Error::UnexpectedResponse { operation, detail } => {
                let mut m = "Herdr returned an unexpected response while ".to_owned();
                m.append(operation);
                m.append(": ");
                m.append(detail.as_str());
                m
            },
            Error::MissingHandoffReceipt => {
                "cannot prompt OMP worker before a durable AgentMail handoff receipt exists".to_owned()
            },
        }
    }
}

// ---------------------------------------------------------------------------------------------
// Replies

/// The state of the Herdr server.
#[derive(Debug, Clone, Copy)]
pub struct ServerStatus {
    pub running: bool,
    pub compatible: Option<bool>,
}

/// An agent as Herdr describes it.
#[derive(Debug)]
pub struct AgentResponse {
    pub name: Option<String>,
    pub workspace_id: String,
    pub pane_id: String,
    pub agent_status: String,
}

/// The type of a reply, where it has none a word for that.
pub open spec fn response_type(response: JsonView) -> Seq<char> {
    match text_in(field_in(response.field("result"@), "type"@)) {
        Some(t) => t,
        None => "<missing>"@,
    }
}

/// Why a reply is refused for its type, where it is.
pub open spec fn type_fault(
    response: JsonView,
    operation: Seq<char>,
    expected: Seq<char>,
) -> Option<ErrorView> {
    if response_type(response) == expected {
        None
    } else {
        Some(
            ErrorView::UnexpectedResponse {
                operation,
                detail: "returned result type `"@ + response_type(response) + "`, expected `"@
                    + expected + "`"@,
            },
        )
    }
}

/// Refuses a reply that is not of the expected type.
pub fn expect_response_type(response: &Json, operation: &'static str, expected: &str) -> (r: Result<
    (),
    Error,
>)
    ensures
        match type_fault(response@, operation@, expected@) {
            None => r is Ok,
            Some(error) => r matches Err(e) && e@ == error,
        },
{
    let found = match response.field("result") {
        Some(result) => match result.field("type") {
            Some(kind) => kind.text(),
            None => None,
        },
        None => None,
    };
    let actual = match found {
        Some(text) => text,
        None => "<missing>",
    };
    if same(actual, expected) {
        Ok(())
    } else {
        let mut detail = "returned result type `".to_owned();
        detail.append(actual);
        detail.append("`, expected `");
        detail.append(expected);
        detail.append("`");
        Err(Error::UnexpectedResponse { operation, detail })
    }
}

/// The text at a place in the result of a reply, or why it is refused.
pub open spec fn response_text(
    response: JsonView,
    part: Seq<char>,
    name: Seq<char>,
    operation: Seq<char>,
) -> Result<Seq<char>, ErrorView> {
    let found = text_in(field_in(field_in(response.field("result"@), part), name));
    if found is Some && found->0.len() > 0 {
        Ok(found->0)
    } else {
        Err(
            ErrorView::UnexpectedResponse {
                operation,
                detail: "missing non-empty `/result/"@ + part + "/"@ + name + "`"@,
            },
        )
    }
}

/// The text at a place in the result of a reply.
pub fn response_string(
    response: &Json,
    part: &str,
    name: &str,
    operation: &'static str,
) -> (r: Result<String, Error>)
    ensures
        seen(r) == response_text(response@, part@, name@, operation@),
{
    let found = match response.field("result") {
        Some(result) => match result.field(part) {
            Some(part) => match part.field(name) {
                Some(value) => value.text(),
                None => None,
            },
            None => None,
        },
        None => None,
    };
    if let Some(text) = found {
        if !text.is_empty() {
            return Ok(text.to_owned());
        }
    }
    let mut detail = "missing non-empty `/result/".to_owned();
    detail.append(part);
    detail.append("/");
    detail.append(name);
    detail.append("`");
    Err(Error::UnexpectedResponse { operation, detail })
}

/// The workspace that a reply tells of, or why the reply is refused.
pub open spec fn created_workspace(response: JsonView) -> Result<WorkspaceView, ErrorView> {
    let operation = "creating Herdr worktree"@;
    let workspace_id = response_text(response, "workspace"@, "workspace_id"@, operation);
    let pane_id = response_text(response, "root_pane"@, "pane_id"@, operation);
    match type_fault(response, operation, "worktree_created"@) {
        Some(error) => Err(error),
        None => match workspace_id {
            Err(error) => Err(error),
            Ok(workspace_id) => match pane_id {
                Err(error) => Err(error),
                Ok(pane_id) => Ok(WorkspaceView { workspace_id, pane_id }),
            },
        },
    }
}

/// The workspace that a reply tells of.
pub fn workspace_in(response: &Json) -> (r: Result<WorkerWorkspace, Error>)
    ensures
        seen(r) == created_workspace(response@),
{
    let operation = "creating Herdr worktree";
    expect_response_type(response, operation, "worktree_created")?;
    let workspace_id = response_string(response, "workspace", "workspace_id", operation)?;
    let pane_id = response_string(response, "root_pane", "pane_id", operation)?;
    Ok(WorkerWorkspace { workspace_id, pane_id })
}

/// The agent that a reply tells of, or why the reply is refused.
pub open spec fn agent_of(response: JsonView, operation: Seq<char>, expected: Seq<char>) -> Result<
    JsonView,
    ErrorView,
> {
    match type_fault(response, operation, expected) {
        Some(error) => Err(error),
        None => match field_in(response.field("result"@), "agent"@) {
            Some(agent) => Ok(agent),
            None => Err(
                ErrorView::UnexpectedResponse { operation, detail: "missing `result.agent`"@ },
            ),
        },
    }
}

/// The agent that a reply tells of.
pub fn agent_in<'a>(response: &'a Json, operation: &'static str, expected: &str) -> (r: Result<
    &'a Json,
    Error,
>)
    ensures
        seen(r) == agent_of(response@, operation@, expected@),
{
    expect_response_type(response, operation, expected)?;
    let agent = match response.field("result") {
        Some(result) => result.field("agent"),
        None => None,
    };
    match agent {
        Some(agent) => Ok(agent),
        None => Err(
            Error::UnexpectedResponse { operation, detail: "missing `result.agent`".to_owned() },
        ),
    }
}

/// Why an agent is not the expected one, where it is not.
pub open spec fn agent_fault(
    agent: AgentResponse,
    expected: WorkerView,
    operation: Seq<char>,
) -> Option<ErrorView> {
    if agent_status_named(agent.agent_status@) is None {
        Some(
            ErrorView::UnexpectedResponse {
                operation,
                detail: "unsupported agent state "@ + agent.agent_status@,
            },
        )
    } else if shown(agent.name) != Some(expected.name) {
        Some(
            ErrorView::UnexpectedResponse {
                operation,
                detail: "returned agent name `"@ + (match shown(agent.name) {
                    Some(name) => name,
                    None => "<missing>"@,
                }) + "`, expected `"@ + expected.name + "`"@,
            },
        )
    } else if agent.workspace_id@ != expected.workspace_id || agent.pane_id@ != expected.pane_id {
        Some(
            ErrorView::UnexpectedResponse {
                operation,
                detail: "returned workspace/pane `"@ + agent.workspace_id@ + "/"@ + agent.pane_id@
                    + "`, expected `"@ + expected.workspace_id + "/"@ + expected.pane_id + "`"@,
            },
        )
    } else {
        None
    }
}

/// The state of an agent, where it is the expected one.
pub fn validate_agent(
    agent: &AgentResponse,
    expected_name: &str,
    expected_workspace_id: &str,
    expected_pane_id: &str,
    operation: &'static str,
) -> (r: Result<AgentStatus, Error>)
    ensures
        ({
            let expected = WorkerView {
                name: expected_name@,
                workspace_id: expected_workspace_id@,
                pane_id: expected_pane_id@,
            };
            match agent_fault(*agent, expected, operation@) {
                None => r == Ok::<AgentStatus, Error>(
                    agent_status_named(agent.agent_status@)->0,
                ),
                Some(error) => r matches Err(e) && e@ == error,
            }
        }),
{
    let status = match AgentStatus::parse(agent.agent_status.as_str()) {
        Some(status) => status,
        None => {
            let mut detail = "unsupported agent state ".to_owned();
            detail.append(agent.agent_status.as_str());
            return Err(Error::UnexpectedResponse { operation, detail });
        },
    };
    let (named, name) = match &agent.name {
        Some(name) => (same(name.as_str(), expected_name), name.as_str()),
        None => (false, "<missing>"),
    };
    if !named {
        let mut detail = "returned agent name `".to_owned();
        detail.append(name);
        detail.append("`, expected `");
        detail.append(expected_name);
        detail.append("`");
        return Err(Error::UnexpectedResponse { operation, detail });
    }
    if !same(agent.workspace_id.as_str(), expected_workspace_id) || !same(
        agent.pane_id.as_str(),
        expected_pane_id,
    ) {
        let mut detail = "returned workspace/pane `".to_owned();
        detail.append(agent.workspace_id.as_str());
        detail.append("/");
        detail.append(agent.pane_id.as_str());
        detail.append("`, expected `");
        detail.append(expected_workspace_id);
        detail.append("/");
        detail.append(expected_pane_id);
        detail.append("`");
        return Err(Error::UnexpectedResponse { operation, detail });
    }
    Ok(status)
}

// ---------------------------------------------------------------------------------------------
// The Herdr command

/// The arguments that ask for the state of the server of a session.
pub open spec fn preflight_arguments(session: Seq<char>) -> Seq<Seq<char>> {
    seq![
        "--session"@,
        session,
        "status"@,
        "server"@,
        "--json"@,
    ]
}

/// The arguments that create a worktree with its workspace.
pub open spec fn create_arguments(session: Seq<char>, spec: WorktreeSpec) -> Seq<Seq<char>> {
    seq![
        "--session"@,
        session,
        "worktree"@,
        "create"@,
        "--cwd"@,
        spec.repo@,
        "--branch"@,
        spec.branch@,
        "--base"@,
        spec.base@,
        "--path"@,
        spec.path@,
        "--label"@,
        spec.task_label@,
        "--no-focus"@,
    ]
}

/// The arguments that close a workspace.
pub open spec fn close_arguments(session: Seq<char>, workspace_id: Seq<char>) -> Seq<Seq<char>> {
    seq![
        "--session"@,
        session,
        "workspace"@,
        "close"@,
        workspace_id,
    ]
}

/// The arguments that prompt a worker.
pub open spec fn prompt_arguments(
    session: Seq<char>,
    worker: WorkerView,
    prompt: Seq<char>,
) -> Seq<Seq<char>> {
    seq![
        "--session"@,
        session,
        "agent"@,
        "prompt"@,
        worker.name,
        prompt,
    ]
}

/// The arguments that ask for the status of a worker.
pub open spec fn status_arguments(session: Seq<char>, worker: WorkerView) -> Seq<Seq<char>> {
    seq![
        "--session"@,
        session,
        "agent"@,
        "get"@,
        worker.name,
    ]
}

/// The arguments that start a worker in its pane, with a model where one is given.
pub open spec fn start_arguments(
    session: Seq<char>,
    workspace: WorkspaceView,
    run_id: Seq<char>,
    task_id: Seq<char>,
    model: Option<Seq<char>>,
) -> Seq<Seq<char>> {
    seq![
        "--session"@,
        session,
        "agent"@,
        "start"@,
        name_of_worker(run_id, task_id),
        "--kind"@,
        "omp"@,
        "--pane"@,
        workspace.pane_id,
    ] + (match model {
        Some(model) => seq!["--"@, "--model"@, model],
        None => Seq::empty(),
    })
}

/// What the server of a session wrote when it was asked for its state, or why it is unavailable.
pub open spec fn preflight_of(client: HerdrClient, ran: Result<Finished, String>) -> Result<
    Seq<u8>,
    ErrorView,
> {
    match ran {
        Err(source) => Err(
            ErrorView::Start {
                executable: client.executable_name(),
                session: client.session_name(),
                operation: "preflighting Herdr"@,
                source: source@,
            },
        ),
        Ok(output) => if output.success {
            Ok(output.stdout@)
        } else {
            Err(
                ErrorView::SessionUnavailable {
                    session: client.session_name(),
                    detail: failure_text(output, "process exited with "@),
                },
            )
        },
    }
}

/// The arguments that prompt a worker, which is not done before its handoff has a receipt.
pub open spec fn prompt_request(
    session: Seq<char>,
    worker: WorkerView,
    receipt: Seq<char>,
    prompt: Seq<char>,
) -> Result<Seq<Seq<char>>, ErrorView> {
    if blank(receipt) {
        Err(ErrorView::MissingHandoffReceipt)
    } else {
        Ok(prompt_arguments(session, worker, prompt))
    }
}

/// The worker that was started in a workspace, or why the agent in the reply is not it.
pub open spec fn started_worker(
    workspace: WorkspaceView,
    run_id: Seq<char>,
    task_id: Seq<char>,
    agent: AgentResponse,
) -> Result<WorkerView, ErrorView> {
    let worker = WorkerView {
        name: name_of_worker(run_id, task_id),
        workspace_id: workspace.workspace_id,
        pane_id: workspace.pane_id,
    };
    match agent_fault(agent, worker, "starting OMP worker"@) {
        None => Ok(worker),
        Some(error) => Err(error),
    }
}

/// Why the server of a session cannot be worked with, where it cannot.
pub open spec fn server_fault(session: Seq<char>, status: ServerStatus) -> Option<ErrorView> {
    if !status.running {
        Some(ErrorView::SessionUnavailable { session, detail: "server is not running"@ })
    } else if status.compatible == Some(false) {
        Some(
            ErrorView::SessionUnavailable { session, detail: "server protocol is incompatible"@ },
        )
    } else {
        None
    }
}

/// The Herdr command and the session that it works in.
#[derive(Debug)]
pub struct HerdrClient {
    executable: String,
    session: String,
}

/// What a command wrote that was run while doing something, or why it is refused.
pub open spec fn output_of(
    client: HerdrClient,
    operation: Seq<char>,
    ran: Result<Finished, String>,
) -> Result<Seq<u8>, ErrorView> {
    match ran {
        Err(source) => Err(
            ErrorView::Start {
                executable: client.executable_name(),
                session: client.session_name(),
                operation,
                source: source@,
            },
        ),
        Ok(output) => if output.success {
            Ok(output.stdout@)
        } else {
            Err(
                ErrorView::CommandFailed {
                    operation,
                    status: output.status@,
                    detail: failure_text(output, "process exited with "@),
                },
            )
        },
    }
}

/// The reply of a command that was run while doing something, or why it is refused.
pub open spec fn reply_of(
    client: HerdrClient,
    operation: Seq<char>,
    ran: Result<Finished, String>,
) -> Result<JsonView, ErrorView> {
    match output_of(client, operation, ran) {
        Err(error) => Err(error),
        Ok(bytes) => match json_of_bytes(bytes) {
            Ok(value) => Ok(value),
            Err(source) => Err(ErrorView::InvalidJson { operation, source }),
        },
    }
}

impl HerdrClient {
    pub closed spec fn executable_name(self) -> Seq<char> {
        self.executable@
    }

    pub closed spec fn session_name(self) -> Seq<char> {
        self.session@
    }

    /// A client for the configured executable and session, which are `herdr` and `default` where
    /// none are configured.
    pub fn configured(executable: Option<String>, session: Option<String>) -> (r: HerdrClient)
        ensures
            r.executable_name() == executable_or(shown(executable), "herdr"@),
            r.session_name() == executable_or(shown(session), "default"@),
    {
        HerdrClient {
            executable: configured_executable(executable, "herdr"),
            session: configured_executable(session, "default"),
        }
    }

    pub fn with_executable(executable: String, session: String) -> (r: HerdrClient)
        ensures
            r.executable_name() == executable@,
            r.session_name() == session@,
    {
        HerdrClient { executable, session }
    }

    pub fn executable(&self) -> (r: &str)
        ensures
            r@ == self.executable_name(),
    {
        self.executable.as_str()
    }

    pub fn session(&self) -> (r: &str)
        ensures
            r@ == self.session_name(),
    {
        self.session.as_str()
    }

    /// The arguments that ask for the state of the server.
    pub fn preflight(&self) -> (r: Vec<String>)
        ensures
            texts(r@) == preflight_arguments(self.session_name()),
    {
        let r = vec![
            "--session".to_owned(),
            self.session.clone(),
            "status".to_owned(),
            "server".to_owned(),
            "--json".to_owned(),
        ];
        assert(texts(r@) =~= preflight_arguments(self.session_name()));
        r
    }

    /// Refuses the outcome of a preflight that could not be started or did not succeed.
    pub fn check_preflight(&self, ran: Result<Finished, String>) -> (r: Result<Vec<u8>, Error>)
        ensures
            match preflight_of(*self, ran) {
                Ok(written) => r matches Ok(bytes) && bytes@ == written,
                Err(error) => r matches Err(e) && e@ == error,
            },
            r matches Ok(bytes) ==> ran matches Ok(output) && bytes == output.stdout,
    {
        match ran {
            Err(source) => Err(
                Error::Start {
                    executable: self.executable.clone(),
                    session: self.session.clone(),
                    operation: "preflighting Herdr",
                    source,
                },
            ),
            Ok(output) => if output.success {
                Ok(output.stdout)
            } else {
                Err(
                    Error::SessionUnavailable {
                        session: self.session.clone(),
                        detail: failure_detail(&output, "process exited with "),
                    },
                )
            },
        }
    }

    /// Refuses a server that is not running or speaks another protocol.
    pub fn check_server(&self, status: ServerStatus) -> (r: Result<(), Error>)
        ensures
            match server_fault(self.session_name(), status) {
                None => r is Ok,
                Some(error) => r matches Err(e) && e@ == error,
            },
    {
        if !status.running {
            return Err(
                Error::SessionUnavailable {
                    session: self.session.clone(),
                    detail: "server is not running".to_owned(),
                },
            );
        }
        if let Some(false) = status.compatible {
            return Err(
                Error::SessionUnavailable {
                    session: self.session.clone(),
                    detail: "server protocol is incompatible".to_owned(),
                },
            );
        }
        Ok(())
    }

    /// What a command wrote that was run while doing something.
    pub fn output(&self, operation: &'static str, ran: Result<Finished, String>) -> (r: Result<
        Vec<u8>,
        Error,
    >)
        ensures
            seen(r) == output_of(*self, operation@, ran),
    {
        match ran {
            Err(source) => Err(
                Error::Start {
                    executable: self.executable.clone(),
                    session: self.session.clone(),
                    operation,
                    source,
                },
            ),
            Ok(output) => if output.success {
                Ok(output.stdout)
            } else {
                let detail = failure_detail(&output, "process exited with ");
                Err(Error::CommandFailed { operation, status: output.status, detail })
            },
        }
    }

    /// The reply of a command that was run while doing something.
    pub fn reply(&self, operation: &'static str, ran: Result<Finished, String>) -> (r: Result<
        Json,
        Error,
    >)
        ensures
            seen(r) == reply_of(*self, operation@, ran),
    {
        let stdout = self.output(operation, ran)?;
        match read_bytes(stdout.as_slice()) {
            Ok(value) => Ok(value),
            Err(source) => Err(Error::InvalidJson { operation, source }),
        }
    }

    /// The arguments that create a worktree.
    pub fn create_worktree(&self, spec: WorktreeSpec) -> (r: Vec<String>)
        ensures
            texts(r@) == create_arguments(self.session_name(), spec),
    {
        let r = vec![
            "--session".to_owned(),
            self.session.clone(),
            "worktree".to_owned(),
            "create".to_owned(),
            "--cwd".to_owned(),
            spec.repo.to_owned(),
            "--branch".to_owned(),
            spec.branch.to_owned(),
            "--base".to_owned(),
            spec.base.to_owned(),
            "--path".to_owned(),
            spec.path.to_owned(),
            "--label".to_owned(),
            spec.task_label.to_owned(),
            "--no-focus".to_owned(),
        ];
        assert(texts(r@) =~= create_arguments(self.session_name(), spec));
        r
    }

    /// The workspace of a worktree that was created.
    pub fn worktree_created(&self, ran: Result<Finished, String>) -> (r: Result<
        WorkerWorkspace,
        Error,
    >)
        ensures
            seen(r) == (match reply_of(*self, "creating Herdr worktree"@, ran) {
                Ok(response) => created_workspace(response),
                Err(error) => Err(error),
            }),
    {
        let response = self.reply("creating Herdr worktree", ran)?;
        workspace_in(&response)
    }

    /// The arguments that close a workspace.
    pub fn close_workspace(&self, workspace_id: &str) -> (r: Vec<String>)
        ensures
            texts(r@) == close_arguments(self.session_name(), workspace_id@),
    {
        let r = vec![
            "--session".to_owned(),
            self.session.clone(),
            "workspace".to_owned(),
            "close".to_owned(),
            workspace_id.to_owned(),
        ];
        assert(texts(r@) =~= close_arguments(self.session_name(), workspace_id@));
        r
    }

    /// Refuses the outcome of closing a workspace that Herdr did not confirm.
    pub fn workspace_closed(&self, ran: Result<Finished, String>) -> (r: Result<(), Error>)
        ensures
            match reply_of(*self, "closing Herdr workspace"@, ran) {
                Err(error) => r matches Err(e) && e@ == error,
                Ok(response) => match type_fault(response, "closing Herdr workspace"@, "ok"@) {
                    None => r is Ok,
                    Some(error) => r matches Err(e) && e@ == error,
                },
            },
    {
        let response = self.reply("closing Herdr workspace", ran)?;
        expect_response_type(&response, "closing Herdr workspace", "ok")
    }

    /// The arguments that start a worker in the pane of a workspace.
    pub fn start_omp(
        &self,
        workspace: &WorkerWorkspace,
        run_id: &str,
        task_id: &str,
        model: Option<&str>,
    ) -> (r: Vec<String>)
        ensures
            texts(r@) == start_arguments(
                self.session_name(),
                workspace@,
                run_id@,
                task_id@,
                shown(model),
            ),
    {
        let mut r = vec![
            "--session".to_owned(),
            self.session.clone(),
            "agent".to_owned(),
            "start".to_owned(),
            worker_name(run_id, task_id),
            "--kind".to_owned(),
            "omp".to_owned(),
            "--pane".to_owned(),
            workspace.pane_id.clone(),
        ];
        let ghost start = seq![
            "--session"@,
            self.session_name(),
            "agent"@,
            "start"@,
            name_of_worker(run_id@, task_id@),
            "--kind"@,
            "omp"@,
            "--pane"@,
            workspace.pane_id@,
        ];
        assert(texts(r@) =~= start);
        match model {
            Some(model) => {
                r.push("--".to_owned());
                r.push("--model".to_owned());
                r.push(model.to_owned());
                assert(texts(r@) =~= start + seq!["--"@, "--model"@, model@]);
            },
            None => {
                assert(start + Seq::<Seq<char>>::empty() =~= start);
            },
        }
        r
    }

    /// The agent that the reply of a command tells of.
    pub fn agent_reply(
        &self,
        operation: &'static str,
        expected: &str,
        ran: Result<Finished, String>,
    ) -> (r: Result<Json, Error>)
        ensures
            seen(r) == (match reply_of(*self, operation@, ran) {
                Ok(response) => agent_of(response, operation@, expected@),
                Err(error) => Err(error),
            }),
    {
        let response = self.reply(operation, ran)?;
        let agent = agent_in(&response, operation, expected)?;
        Ok(agent.clone())
    }

    /// The worker that was started, where the agent that Herdr tells of is that worker.
    pub fn omp_started(
        &self,
        workspace: &WorkerWorkspace,
        run_id: &str,
        task_id: &str,
        agent: &AgentResponse,
    ) -> (r: Result<Worker, Error>)
        ensures
            seen(r) == started_worker(workspace@, run_id@, task_id@, *agent),
    {
        let name = worker_name(run_id, task_id);
        validate_agent(
            agent,
            name.as_str(),
            workspace.workspace_id.as_str(),
            workspace.pane_id.as_str(),
            "starting OMP worker",
        )?;
        Ok(
            Worker {
                name,
                workspace_id: workspace.workspace_id.clone(),
                pane_id: workspace.pane_id.clone(),
            },
        )
    }

    /// The arguments that prompt a worker, once its handoff has a receipt.
    pub fn prompt_after_handoff(&self, worker: &Worker, handoff_receipt: &str, prompt: &str) -> (r:
        Result<Vec<String>, Error>)
        ensures
            match prompt_request(self.session_name(), worker@, handoff_receipt@, prompt@) {
                Ok(wanted) => r matches Ok(arguments) && texts(arguments@) == wanted,
                Err(error) => r matches Err(e) && e@ == error,
            },
    {
        if is_blank(handoff_receipt) {
            return Err(Error::MissingHandoffReceipt);
        }
        let r = vec![
            "--session".to_owned(),
            self.session.clone(),
            "agent".to_owned(),
            "prompt".to_owned(),
            worker.name.clone(),
            prompt.to_owned(),
        ];
        assert(texts(r@) =~= prompt_arguments(self.session_name(), worker@, prompt@));
        Ok(r)
    }

    /// Refuses the answer to a prompt that is not that of the worker.
    pub fn prompted(&self, worker: &Worker, agent: &AgentResponse) -> (r: Result<(), Error>)
        ensures
            match agent_fault(*agent, worker@, "prompting OMP worker"@) {
                None => r is Ok,
                Some(error) => r matches Err(e) && e@ == error,
            },
    {
        validate_agent(
            agent,
            worker.name.as_str(),
            worker.workspace_id.as_str(),
            worker.pane_id.as_str(),
            "prompting OMP worker",
        )?;
        Ok(())
    }

    /// The arguments that ask for the state of a worker.
    pub fn status(&self, worker: &Worker) -> (r: Vec<String>)
        ensures
            texts(r@) == status_arguments(self.session_name(), worker@),
    {
        let r = vec![
            "--session".to_owned(),
            self.session.clone(),
            "agent".to_owned(),
            "get".to_owned(),
            worker.name.clone(),
        ];
        assert(texts(r@) =~= status_arguments(self.session_name(), worker@));
        r
    }

    /// The state of a worker, where the agent that Herdr tells of is that worker.
    pub fn status_of(&self, worker: &Worker, agent: &AgentResponse) -> (r: Result<
        AgentStatus,
        Error,
    >)
        ensures
            match agent_fault(*agent, worker@, "reading OMP worker"@) {
                None => r == Ok::<AgentStatus, Error>(
                    agent_status_named(agent.agent_status@)->0,
                ),
                Some(error) => r matches Err(e) && e@ == error,
            },
    {
        validate_agent(
            agent,
            worker.name.as_str(),
            worker.workspace_id.as_str(),
            worker.pane_id.as_str(),
            "reading OMP worker",
        )
    }
}

} // verus!
