//! AgentMail: the handoff that a worker gets, and the report that it sends back.
use vstd::prelude::*;
use crate::command::{failure_detail, failure_text, Finished};
use crate::identity::{Identity, IdentityView};
use crate::outcome::{seen, shown};
use crate::sq::{configured_executable, executable_or, TaskStatus};
use crate::text::{
    blank, chars_of, copy_texts, decimal, equal_ignoring_case, find, find_from, is_blank, join,
    joined, line_content, lines, same, same_ignoring_case, string_of, texts, to_decimal, trim,
    trim_bounds, trimmed,
};

verus! {

/// The environment variable that names the AgentMail executable.
pub const AGENT_MAIL_EXECUTABLE_ENV: &'static str = "AGENT_ORCHESTRATOR_AGENT_MAIL";

/// What a worker is told about its task.
#[derive(Debug, Clone, Copy)]
pub struct Handoff<'a> {
    pub run_id: &'a str,
    pub task_id: &'a str,
    pub title: &'a str,
    pub description: &'a str,
    pub queue: &'a str,
    pub worktree: &'a str,
    pub branch: &'a str,
    pub dependencies: &'a Vec<String>,
    pub acceptance_criteria: &'a Vec<String>,
    pub validation_checks: &'a Vec<String>,
    pub orchestrator: &'a Identity,
    pub worker: &'a Identity,
}

/// What a handoff says.
pub struct HandoffView {
    pub run_id: Seq<char>,
    pub task_id: Seq<char>,
    pub title: Seq<char>,
    pub description: Seq<char>,
    pub queue: Seq<char>,
    pub worktree: Seq<char>,
    pub branch: Seq<char>,
    pub dependencies: Seq<Seq<char>>,
    pub acceptance_criteria: Seq<Seq<char>>,
    pub validation_checks: Seq<Seq<char>>,
    pub orchestrator: IdentityView,
    pub worker: IdentityView,
}

impl<'a> View for Handoff<'a> {
    type V = HandoffView;

    open spec fn view(&self) -> HandoffView {
        HandoffView {
            run_id: self.run_id@,
            task_id: self.task_id@,
            title: self.title@,
            description: self.description@,
            queue: self.queue@,
            worktree: self.worktree@,
            branch: self.branch@,
            dependencies: texts(self.dependencies@),
            acceptance_criteria: texts(self.acceptance_criteria@),
            validation_checks: texts(self.validation_checks@),
            orchestrator: self.orchestrator@,
            worker: self.worker@,
        }
    }
}

/// What AgentMail confirms of a message that was sent.
#[derive(Debug)]
pub struct MailReceipt {
    pub id: String,
    pub recipient: String,
    pub sender: String,
    pub subject: String,
    pub timestamp: String,
    pub mailbox: String,
    pub state: String,
}

/// An unread message as AgentMail lists it.
#[derive(Debug)]
pub struct MailHeader {
    pub id: String,
    pub sender: String,
    pub subject: String,
}

/// How a worker says that its task ended.
#[derive(Debug, Clone, Copy, PartialEq, Eq, Structural)]
pub enum ReportStatus {
    Completed,
    Blocked,
    Failed,
}

/// What a report means for its task.
#[derive(Debug, Clone, Copy, PartialEq, Eq, Structural)]
pub enum ReportDisposition {
    Completed,
    Blocked,
    Failed,
}

impl ReportStatus {
    /// The name of a status.
    pub open spec fn title(self) -> Seq<char> {
        match self {
            ReportStatus::Completed => "Completed"@,
            ReportStatus::Blocked => "Blocked"@,
            ReportStatus::Failed => "Failed"@,
        }
    }

    /// The name of a status.
    pub fn name(&self) -> (r: &'static str)
        ensures
            r@ == self.title(),
    {
        match self {
            ReportStatus::Completed => "Completed",
            ReportStatus::Blocked => "Blocked",
            ReportStatus::Failed => "Failed",
        }
    }
}

/// The report of a worker on its task.
#[derive(Debug)]
pub struct WorkerReport {
    pub task_id: String,
    pub run_id: String,
    pub status: ReportStatus,
    pub commit: Option<String>,
    pub artifact: Option<String>,
    pub evidence: Vec<String>,
    pub summary: Option<String>,
}

/// What a report says.
pub struct ReportView {
    pub task_id: Seq<char>,
    pub run_id: Seq<char>,
    pub status: ReportStatus,
    pub commit: Option<Seq<char>>,
    pub artifact: Option<Seq<char>>,
    pub evidence: Seq<Seq<char>>,
    pub summary: Option<Seq<char>>,
}

impl View for WorkerReport {
    type V = ReportView;

    open spec fn view(&self) -> ReportView {
        ReportView {
            task_id: self.task_id@,
            run_id: self.run_id@,
            status: self.status,
            commit: shown(self.commit),
            artifact: shown(self.artifact),
            evidence: texts(self.evidence@),
            summary: shown(self.summary),
        }
    }
}

impl Clone for WorkerReport {
    fn clone(&self) -> (r: Self)
        ensures
            r@ == self@,
    {
        WorkerReport {
            task_id: self.task_id.clone(),
            run_id: self.run_id.clone(),
            status: self.status,
            commit: self.commit.clone(),
            artifact: self.artifact.clone(),
            evidence: copy_texts(&self.evidence),
            summary: self.summary.clone(),
        }
    }
}

/// Why mail is refused.
#[derive(Debug)]
#[allow(inconsistent_fields)]
pub enum Error {
    Start { executable: String, operation: &'static str, source: String },
    CommandFailed { operation: &'static str, status: String, detail: String },
    InvalidJson { operation: &'static str, output: String, source: String },
    InvalidUtf8 { operation: &'static str, source: String },
    InvalidReceipt { reason: String },
    InvalidMailHeader { reason: String },
    MultipleReports { task_id: String, run_id: String, count: usize },
    InvalidReportJson { message_id: String, source: String },
    ReportCorrelation {
        task_id: String,
        run_id: String,
        expected_task_id: String,
        expected_run_id: String,
    },
    CompletedWithoutDeliverable,
    CompletedWithoutEvidence,
    TerminalReportWithoutSummary { status: ReportStatus },
    SqStatusMismatch { task_id: String, report_status: ReportStatus, sq_status: TaskStatus },
}

/// What an error says.
#[allow(inconsistent_fields)]
pub enum ErrorView {
    Start { executable: Seq<char>, operation: Seq<char>, source: Seq<char> },
    CommandFailed { operation: Seq<char>, status: Seq<char>, detail: Seq<char> },
    InvalidJson { operation: Seq<char>, output: Seq<char>, source: Seq<char> },
    InvalidUtf8 { operation: Seq<char>, source: Seq<char> },
    InvalidReceipt { reason: Seq<char> },
    InvalidMailHeader { reason: Seq<char> },
    MultipleReports { task_id: Seq<char>, run_id: Seq<char>, count: nat },
    InvalidReportJson { message_id: Seq<char>, source: Seq<char> },
    ReportCorrelation {
        task_id: Seq<char>,
        run_id: Seq<char>,
        expected_task_id: Seq<char>,
        expected_run_id: Seq<char>,
    },
    CompletedWithoutDeliverable,
    CompletedWithoutEvidence,
    TerminalReportWithoutSummary { status: ReportStatus },
    SqStatusMismatch { task_id: Seq<char>, report_status: ReportStatus, sq_status: TaskStatus },
}

impl View for Error {
    type V = ErrorView;

    open spec fn view(&self) -> ErrorView {
        match *self {
            Error::Start { executable, operation, source } => ErrorView::Start {
                executable: executable@,
                operation: operation@,
                source: source@,
            },
            Error::CommandFailed { operation, status, detail } => ErrorView::CommandFailed {
                operation: operation@,
                status: status@,
                detail: detail@,
            },
            Error::InvalidJson { operation, output, source } => ErrorView::InvalidJson {
                operation: operation@,
                output: output@,
                source: source@,
            },
            Error::InvalidUtf8 { operation, source } => ErrorView::InvalidUtf8 {
                operation: operation@,
                source: source@,
            },
            Error::InvalidReceipt { reason } => ErrorView::InvalidReceipt { reason: reason@ },
            Error::InvalidMailHeader { reason } => ErrorView::InvalidMailHeader { reason: reason@ },
            Error::MultipleReports { task_id, run_id, count } => ErrorView::MultipleReports {
                task_id: task_id@,
                run_id: run_id@,
                count: count as nat,
            },
            Error::InvalidReportJson { message_id, source } => ErrorView::InvalidReportJson {
                message_id: message_id@,
                source: source@,
            },
            Error::ReportCorrelation { task_id, run_id, expected_task_id, expected_run_id } =>
                ErrorView::ReportCorrelation {
                task_id: task_id@,
                run_id: run_id@,
                expected_task_id: expected_task_id@,
                expected_run_id: expected_run_id@,
            },
            Error::CompletedWithoutDeliverable => ErrorView::CompletedWithoutDeliverable,
            Error::CompletedWithoutEvidence => ErrorView::CompletedWithoutEvidence,
            Error::TerminalReportWithoutSummary { status } =>
                ErrorView::TerminalReportWithoutSummary { status },
            Error::SqStatusMismatch { task_id, report_status, sq_status } =>
                ErrorView::SqStatusMismatch { task_id: task_id@, report_status, sq_status },
        }
    }
}

impl ErrorView {
    /// The message for an error.
    pub open spec fn message(self) -> Seq<char> {
        match self {
            ErrorView::Start { executable, operation, source } =>
                "cannot start AgentMail executable `"@ + executable + "` while "@ + operation
                + ": "@ + source,
            ErrorView::CommandFailed { operation, status, detail } => "AgentMail failed while "@
                + operation + " ("@ + status + "): "@ + detail,
            ErrorView::InvalidJson { operation, output, source } =>
                "AgentMail returned invalid JSON while "@ + operation + ": "@ + output,
            ErrorView::InvalidUtf8 { operation, source } =>
                "AgentMail returned non-UTF-8 output while "@ + operation,
            ErrorView::InvalidReceipt { reason } =>
                "AgentMail returned an invalid handoff receipt: "@ + reason,
            ErrorView::InvalidMailHeader { reason } =>
                "AgentMail returned an invalid report envelope: "@ + reason,
            ErrorView::MultipleReports { task_id, run_id, count } =>
                "multiple unread AgentMail reports match task `"@ + task_id + "` run `"@ + run_id
                + "`: found "@ + decimal(count),
            ErrorView::InvalidReportJson { message_id, source } => "AgentMail report `"@
                + message_id + "` body is not valid report JSON"@,
            ErrorView::ReportCorrelation { task_id, run_id, expected_task_id, expected_run_id } =>
                "worker report belongs to task `"@ + task_id + "` run `"@ + run_id
                + "`, expected task `"@ + expected_task_id + "` run `"@ + expected_run_id + "`"@,
            ErrorView::CompletedWithoutDeliverable =>
                "completed worker report must include a commit or artifact"@,
            ErrorView::CompletedWithoutEvidence =>
                "completed worker report must include non-empty validation evidence"@,
            ErrorView::TerminalReportWithoutSummary { status } => status.title()
                + " worker report must include a non-empty summary"@,
            ErrorView::SqStatusMismatch { task_id, report_status, sq_status } =>
                "worker reported task `"@ + task_id + "` "@ + report_status.title()
                + " but SQ status is `"@ + sq_status.word() + "`"@,
        }
    }
}

impl Error {
    /// The message for an error.
    pub fn message(&self) -> (r: String)
        ensures
            r@ == self@.message(),
    {
        match self {
            Error::Start { executable, operation, source } => {
                let mut m = "cannot start AgentMail executable `".to_owned();
                m.append(executable.as_str());
                m.append("` while ");
                m.append(operation);
                m.append(": ");
                m.append(source.as_str());
                m
            },
            Error::CommandFailed { operation, status, detail } => {
                let mut m = "AgentMail failed while ".to_owned();
                m.append(operation);
                m.append(" (");
                m.append(status.as_str());
                m.append("): ");
                m.append(detail.as_str());
                m
            },
            Error::InvalidJson { operation, output, source } => {
                let mut m = "AgentMail returned invalid JSON while ".to_owned();
                m.append(operation);
                m.append(": ");
                m.append(output.as_str());
                m
            },
            Error::InvalidUtf8 { operation, source } => {
                let mut m = "AgentMail returned non-UTF-8 output while ".to_owned();
                m.append(operation);
                m
            },
            Error::InvalidReceipt { reason } => {
                let mut m = "AgentMail returned an invalid handoff receipt: ".to_owned();
                m.append(reason.as_str());
                m
            },
            Error::InvalidMailHeader { reason } => {
                let mut m = "AgentMail returned an invalid report envelope: ".to_owned();
                m.append(reason.as_str());
                m
            },
            Error::MultipleReports { task_id, run_id, count } => {
                let mut m = "multiple unread AgentMail reports match task `".to_owned();
                m.append(task_id.as_str());
                m.append("` run `");
                m.append(run_id.as_str());
                m.append("`: found ");
                m.append(to_decimal(*count as u64).as_str());
                m
            },
            Error::InvalidReportJson { message_id, source } => {
                let mut m = "AgentMail report `".to_owned();
                m.append(message_id.as_str());
                m.append("` body is not valid report JSON");
                m
            },
            Error::ReportCorrelation { task_id, run_id, expected_task_id, expected_run_id } => {
                let mut m = "worker report belongs to task `".to_owned();
                m.append(task_id.as_str());
                m.append("` run `");
                m.append(run_id.as_str());
                m.append("`, expected task `");
                m.append(expected_task_id.as_str());
                m.append("` run `");
                m.append(expected_run_id.as_str());
                m.append("`");
                m
            },
            Error::CompletedWithoutDeliverable => {
                "completed worker report must include a commit or artifact".to_owned()
            },
            Error::CompletedWithoutEvidence => {
                "completed worker report must include non-empty validation evidence".to_owned()
            },
            Error::TerminalReportWithoutSummary { status } => {
                let mut m = status.name().to_owned();
                m.append(" worker report must include a non-empty summary");
                m
            },
            Error::SqStatusMismatch { task_id, report_status, sq_status } => {
                let mut m = "worker reported task `".to_owned();
                m.append(task_id.as_str());
                m.append("` ");
                m.append(report_status.name());
                m.append(" but SQ status is `");
                m.append(sq_status.as_str());
                m.append("`");
                m
            },
        }
    }
}

// ---------------------------------------------------------------------------------------------
// Reports

/// A text that is there and not blank.
pub open spec fn written(value: Option<Seq<char>>) -> bool {
    value is Some && !blank(value->0)
}

/// Whether a text is there and not blank.
fn nonempty(value: &Option<String>) -> (r: bool)
    ensures
        r == written(shown(*value)),
{
    match value {
        Some(text) => !is_blank(text.as_str()),
        None => false,
    }
}

/// One of the texts is not blank.
pub open spec fn some_written(values: Seq<Seq<char>>) -> bool {
    exists|i: int| 0 <= i < values.len() && !blank(#[trigger] values[i])
}

impl ReportView {
    /// Why a report is refused, where it is.
    pub open spec fn fault(self, task_id: Seq<char>, run_id: Seq<char>) -> Option<ErrorView> {
        if self.task_id != task_id || self.run_id != run_id {
            Some(
                ErrorView::ReportCorrelation {
                    task_id: self.task_id,
                    run_id: self.run_id,
                    expected_task_id: task_id,
                    expected_run_id: run_id,
                },
            )
        } else if self.status == ReportStatus::Completed {
            if !written(self.commit) && !written(self.artifact) {
                Some(ErrorView::CompletedWithoutDeliverable)
            } else if !some_written(self.evidence) {
                Some(ErrorView::CompletedWithoutEvidence)
            } else {
                None
            }
        } else if !written(self.summary) {
            Some(ErrorView::TerminalReportWithoutSummary { status: self.status })
        } else {
            None
        }
    }
}

impl WorkerReport {
    /// Refuses a report on another task or run, and one without what its status calls for.
    pub fn validate(&self, expected_task_id: &str, expected_run_id: &str) -> (r: Result<(), Error>)
        ensures
            match self@.fault(expected_task_id@, expected_run_id@) {
                None => r is Ok,
                Some(error) => r matches Err(e) && e@ == error,
            },
    {
        if !same(self.task_id.as_str(), expected_task_id) || !same(
            self.run_id.as_str(),
            expected_run_id,
        ) {
            return Err(
                Error::ReportCorrelation {
                    task_id: self.task_id.clone(),
                    run_id: self.run_id.clone(),
                    expected_task_id: expected_task_id.to_owned(),
                    expected_run_id: expected_run_id.to_owned(),
                },
            );
        }
        match self.status {
            ReportStatus::Completed => {
                if !nonempty(&self.commit) && !nonempty(&self.artifact) {
                    return Err(Error::CompletedWithoutDeliverable);
                }
                let mut i: usize = 0;
                while i < self.evidence.len()
                    invariant
                        i <= self.evidence.len(),
                        forall|j: int|
                            0 <= j < i ==> blank(#[trigger] texts(self.evidence@)[j]),
                        self.status == ReportStatus::Completed,
                        self@.task_id == expected_task_id@,
                        self@.run_id == expected_run_id@,
                        written(self@.commit) || written(self@.artifact),
                    decreases self.evidence.len() - i,
                {
                    if !is_blank(self.evidence[i].as_str()) {
                        assert(!blank(texts(self.evidence@)[i as int]));
                        return Ok(());
                    }
                    i += 1;
                }
                Err(Error::CompletedWithoutEvidence)
            },
            ReportStatus::Blocked | ReportStatus::Failed => {
                if !nonempty(&self.summary) {
                    return Err(Error::TerminalReportWithoutSummary { status: self.status });
                }
                Ok(())
            },
        }
    }
}

/// What a report means for a task with a status, or why the two disagree.
pub open spec fn reconciled(task_status: TaskStatus, report: ReportView) -> Result<
    ReportDisposition,
    ErrorView,
> {
    if (report.status == ReportStatus::Completed) != (task_status == TaskStatus::Closed) {
        Err(
            ErrorView::SqStatusMismatch {
                task_id: report.task_id,
                report_status: report.status,
                sq_status: task_status,
            },
        )
    } else {
        Ok(
            match report.status {
                ReportStatus::Completed => ReportDisposition::Completed,
                ReportStatus::Blocked => ReportDisposition::Blocked,
                ReportStatus::Failed => ReportDisposition::Failed,
            },
        )
    }
}

/// What a report means for a task: a task is completed exactly when it is reported as completed
/// and closed in the queue.
pub fn reconcile_report(task_status: &TaskStatus, report: &WorkerReport) -> (r: Result<
    ReportDisposition,
    Error,
>)
    ensures
        match reconciled(*task_status, report@) {
            Ok(disposition) => r == Ok::<ReportDisposition, Error>(disposition),
            Err(error) => r matches Err(e) && e@ == error,
        },
{
    let closed = *task_status == TaskStatus::Closed;
    match report.status {
        ReportStatus::Completed if closed => Ok(ReportDisposition::Completed),
        ReportStatus::Blocked if !closed => Ok(ReportDisposition::Blocked),
        ReportStatus::Failed if !closed => Ok(ReportDisposition::Failed),
        _ => Err(
            Error::SqStatusMismatch {
                task_id: report.task_id.clone(),
                report_status: report.status,
                sq_status: *task_status,
            },
        ),
    }
}

// ---------------------------------------------------------------------------------------------
// Handoffs

/// The subject of the handoff for a task of a run.
pub open spec fn handoff_title(task_id: Seq<char>, run_id: Seq<char>) -> Seq<char> {
    "agent-orchestrator handoff "@ + task_id + " "@ + run_id
}

/// The subject of the report on a task of a run.
pub open spec fn report_title(task_id: Seq<char>, run_id: Seq<char>) -> Seq<char> {
    "agent-orchestrator report "@ + task_id + " "@ + run_id
}

/// The subject of the handoff for a task of a run.
pub fn handoff_subject(task_id: &str, run_id: &str) -> (r: String)
    ensures
        r@ == handoff_title(task_id@, run_id@),
{
    let mut m = "agent-orchestrator handoff ".to_owned();
    m.append(task_id);
    m.append(" ");
    m.append(run_id);
    m
}

/// The subject of the report on a task of a run.
pub fn report_subject(task_id: &str, run_id: &str) -> (r: String)
    ensures
        r@ == report_title(task_id@, run_id@),
{
    let mut m = "agent-orchestrator report ".to_owned();
    m.append(task_id);
    m.append(" ");
    m.append(run_id);
    m
}

/// Texts in a row, or a word for none.
pub open spec fn listed(values: Seq<Seq<char>>) -> Seq<char> {
    if values.len() == 0 {
        "none"@
    } else {
        joined(values, ", "@)
    }
}

/// Texts in a row, or a word for none.
fn list_or_none(values: &Vec<String>) -> (r: String)
    ensures
        r@ == listed(texts(values@)),
{
    if values.len() == 0 {
        "none".to_owned()
    } else {
        join(values, ", ")
    }
}

/// Texts with their numbers.
pub open spec fn with_numbers(values: Seq<Seq<char>>) -> Seq<Seq<char>> {
    values.map(|i: int, v: Seq<char>| decimal((i + 1) as nat) + ". "@ + v)
}

/// Numbered lines, or one that asks for a report on what was done instead.
pub open spec fn numbered_list(values: Seq<Seq<char>>) -> Seq<char> {
    if values.len() == 0 {
        "1. None declared; report the focused command or scenario you used."@
    } else {
        joined(with_numbers(values), "\n"@)
    }
}

/// Numbered lines, or one that asks for a report on what was done instead.
fn numbered(values: &Vec<String>) -> (r: String)
    ensures
        r@ == numbered_list(texts(values@)),
{
    if values.len() == 0 {
        return "1. None declared; report the focused command or scenario you used.".to_owned();
    }
    let ghost goal = with_numbers(texts(values@));
    let mut numbered_lines: Vec<String> = Vec::new();
    let mut i: usize = 0;
    while i < values.len()
        invariant
            i <= values.len(),
            goal == with_numbers(texts(values@)),
            texts(numbered_lines@) == goal.take(i as int),
        decreases values.len() - i,
    {
        let ghost so_far = numbered_lines@;
        let mut line = to_decimal(i as u64 + 1);
        line.append(". ");
        line.append(values[i].as_str());
        numbered_lines.push(line);
        assert(texts(numbered_lines@) =~= texts(so_far).push(goal[i as int]));
        i += 1;
        assert(goal.take(i as int) =~= goal.take(i - 1).push(goal[i - 1]));
    }
    assert(goal.take(i as int) =~= goal);
    join(&numbered_lines, "\n")
}

/// Who works with whom.
pub open spec fn who_works_text(h: HandoffView) -> Seq<char> {
    "You are the worker for an agent-orchestrator run.\n\n"@
        + "Orchestrator: "@
        + h.orchestrator.name
        + " ("@
        + h.orchestrator.slug
        + ")"@
        + "\n"@
        + "Worker: "@
        + h.worker.name
        + " ("@
        + h.worker.slug
        + ")"@
        + "\n"@
}

/// Who works with whom.
fn who_works(handoff: &Handoff) -> (r: String)
    ensures
        r@ == who_works_text(handoff@),
{
    let mut m = "You are the worker for an agent-orchestrator run.\n\n".to_owned();
    m.append("Orchestrator: ");
    m.append(handoff.orchestrator.name.as_str());
    m.append(" (");
    m.append(handoff.orchestrator.slug.as_str());
    m.append(")");
    m.append("\n");
    m.append("Worker: ");
    m.append(handoff.worker.name.as_str());
    m.append(" (");
    m.append(handoff.worker.slug.as_str());
    m.append(")");
    m.append("\n");
    m
}

/// What is worked on, and where.
pub open spec fn what_and_where_text(h: HandoffView) -> Seq<char> {
    "Run ID: "@
        + h.run_id
        + "\n"@
        + "Task ID: "@
        + h.task_id
        + "\n"@
        + "Task: "@
        + h.title
        + "\n"@
        + "Description: "@
        + h.description
        + "\n"@
        + "Canonical SQ queue: "@
        + h.queue
        + "\n"@
        + "Worktree: "@
        + h.worktree
        + "\n"@
        + "Branch: "@
        + h.branch
        + "\n"@
        + "Dependencies: "@
        + listed(h.dependencies)
        + "\n\n"@
}

/// What is worked on, and where.
fn what_and_where(handoff: &Handoff) -> (r: String)
    ensures
        r@ == what_and_where_text(handoff@),
{
    let mut m = "Run ID: ".to_owned();
    m.append(handoff.run_id);
    m.append("\n");
    m.append("Task ID: ");
    m.append(handoff.task_id);
    m.append("\n");
    m.append("Task: ");
    m.append(handoff.title);
    m.append("\n");
    m.append("Description: ");
    m.append(handoff.description);
    m.append("\n");
    m.append("Canonical SQ queue: ");
    m.append(handoff.queue);
    m.append("\n");
    m.append("Worktree: ");
    m.append(handoff.worktree);
    m.append("\n");
    m.append("Branch: ");
    m.append(handoff.branch);
    m.append("\n");
    m.append("Dependencies: ");
    m.append(list_or_none(handoff.dependencies).as_str());
    m.append("\n\n");
    m
}

/// What is expected.
pub open spec fn what_is_expected_text(h: HandoffView) -> Seq<char> {
    "Acceptance criteria:\n"@
        + numbered_list(h.acceptance_criteria)
        + "\n\n"@
        + "Validation expectations:\n"@
        + numbered_list(h.validation_checks)
        + "\n\n"@
}

/// What is expected.
fn what_is_expected(handoff: &Handoff) -> (r: String)
    ensures
        r@ == what_is_expected_text(handoff@),
{
    let mut m = "Acceptance criteria:\n".to_owned();
    m.append(numbered(handoff.acceptance_criteria).as_str());
    m.append("\n\n");
    m.append("Validation expectations:\n");
    m.append(numbered(handoff.validation_checks).as_str());
    m.append("\n\n");
    m
}

/// What the worker may touch.
pub open spec fn what_is_touched_text(h: HandoffView) -> Seq<char> {
    "Update only task "@
        + h.task_id
        + " in the canonical SQ queue. "@
        + "Do not take ownership of other tasks, merge branches, delete worktrees, or silently retry failed work. "@
        + "Send decisions and blockers to "@
        + h.orchestrator.slug
        + " with AgentMail.\n\n"@
}

/// What the worker may touch.
fn what_is_touched(handoff: &Handoff) -> (r: String)
    ensures
        r@ == what_is_touched_text(handoff@),
{
    let mut m = "Update only task ".to_owned();
    m.append(handoff.task_id);
    m.append(" in the canonical SQ queue. ");
    m.append("Do not take ownership of other tasks, merge branches, delete worktrees, or silently retry failed work. ");
    m.append("Send decisions and blockers to ");
    m.append(handoff.orchestrator.slug.as_str());
    m.append(" with AgentMail.\n\n");
    m
}

/// How the worker reports, and to whom.
pub open spec fn how_to_report_text(h: HandoffView) -> Seq<char> {
    "When finished, first produce and validate the reported commit or durable artifact, then update SQ. Then "@
        + "send an AgentMail message to "@
        + h.orchestrator.slug
        + " with subject `"@
        + report_title(h.task_id, h.run_id)
        + "`"@
        + " and a JSON-only body matching:\n"@
        + "{\"task_id\":\""@
        + h.task_id
        + "\",\"run_id\":\""@
        + h.run_id
        + "\","@
        + "\"status\":\"completed|blocked|failed\",\"commit\":\"COMMIT_OR_NULL\",\"artifact\":\"ARTIFACT_OR_NULL\",\"evidence\":[\"COMMAND: RESULT\"],\"summary\":\"BLOCKER_OR_FAILURE_OR_NULL\"}\n"@
        + "A completed report requires a commit or artifact and non-empty validation evidence. Blocked or failed reports require a non-empty summary. Pane exit alone is not completion.\n"@
}

/// How the worker reports, and to whom.
fn how_to_report(handoff: &Handoff) -> (r: String)
    ensures
        r@ == how_to_report_text(handoff@),
{
    let mut m = "When finished, first produce and validate the reported commit or durable artifact, then update SQ. Then ".to_owned();
    m.append("send an AgentMail message to ");
    m.append(handoff.orchestrator.slug.as_str());
    m.append(" with subject `");
    m.append(report_subject(handoff.task_id, handoff.run_id).as_str());
    m.append("`");
    m.append(" and a JSON-only body matching:\n");
    m.append("{\"task_id\":\"");
    m.append(handoff.task_id);
    m.append("\",\"run_id\":\"");
    m.append(handoff.run_id);
    m.append("\",");
    m.append("\"status\":\"completed|blocked|failed\",\"commit\":\"COMMIT_OR_NULL\",\"artifact\":\"ARTIFACT_OR_NULL\",\"evidence\":[\"COMMAND: RESULT\"],\"summary\":\"BLOCKER_OR_FAILURE_OR_NULL\"}\n");
    m.append("A completed report requires a commit or artifact and non-empty validation evidence. Blocked or failed reports require a non-empty summary. Pane exit alone is not completion.\n");
    m
}

/// The text of a handoff.
pub open spec fn handoff_text(h: HandoffView) -> Seq<char> {
    who_works_text(h) + what_and_where_text(h) + what_is_expected_text(h) + what_is_touched_text(h)
        + how_to_report_text(h)
}

/// The text of a handoff: who works with whom, on what and where, what is expected, what the worker
/// may touch, and how it reports.
pub fn handoff_body(handoff: &Handoff) -> (r: String)
    ensures
        r@ == handoff_text(handoff@),
{
    let mut m = who_works(handoff);
    m.append(what_and_where(handoff).as_str());
    m.append(what_is_expected(handoff).as_str());
    m.append(what_is_touched(handoff).as_str());
    m.append(how_to_report(handoff).as_str());
    m
}

// ---------------------------------------------------------------------------------------------
// Messages

/// The value that a line gives a header, where it gives it one.
pub open spec fn header_value(line: Seq<char>, name: Seq<char>) -> Option<Seq<char>> {
    match find_from(line, seq![':'], 0) {
        None => None,
        Some(n) => {
            let value = trim(line.skip(n + 1));
            if same_ignoring_case(line.take(n), name) && value.len() > 0 {
                Some(value)
            } else {
                None
            }
        },
    }
}

/// The first value that one of the lines before the first blank one gives a header.
pub open spec fn header_in(message_lines: Seq<Seq<char>>, name: Seq<char>) -> Option<Seq<char>>
    decreases message_lines.len(),
{
    if message_lines.len() == 0 || blank(message_lines[0]) {
        None
    } else {
        match header_value(message_lines[0], name) {
            Some(value) => Some(value),
            None => header_in(message_lines.drop_first(), name),
        }
    }
}

/// The body of a message: what follows its first empty line.
pub open spec fn body_of(message: Seq<char>) -> Seq<char> {
    match find_from(message, "\r\n\r\n"@, 0) {
        Some(n) => trim(message.skip(n + 4)),
        None => match find_from(message, "\n\n"@, 0) {
            Some(n) => trim(message.skip(n + 2)),
            None => trim(message),
        },
    }
}

/// The sender is named as an agent is.
pub open spec fn sent_by(sender: Seq<char>, identity: IdentityView) -> bool {
    sender == identity.slug || sender == identity.name
}

/// Whether the sender is named as an agent is.
fn sender_matches(sender: &str, identity: &Identity) -> (r: bool)
    ensures
        r == sent_by(sender@, identity@),
{
    same(sender, identity.slug.as_str()) || same(sender, identity.name.as_str())
}

/// The value that a line gives a header.
fn line_header(line: &Vec<char>, name: &Vec<char>) -> (r: Option<String>)
    ensures
        shown(r) == header_value(line@, name@),
{
    let colon = vec![':'];
    assert(colon@ =~= seq![':']);
    match find(line, &colon, 0) {
        None => None,
        Some(n) => {
            let mut field: Vec<char> = Vec::new();
            let mut i: usize = 0;
            while i < n
                invariant
                    i <= n < line.len(),
                    field@ == line@.take(i as int),
                decreases n - i,
            {
                field.push(line[i]);
                i += 1;
                assert(field@ =~= line@.take(i as int));
            }
            let (from, to) = trim_bounds(line, n + 1, line.len());
            assert(line@.subrange(n + 1, line@.len() as int) =~= line@.skip(n + 1));
            if equal_ignoring_case(&field, name) && from < to {
                Some(string_of(line, from, to))
            } else {
                None
            }
        },
    }
}

/// The first value that a line before the first blank one gives a header.
pub fn message_header(message: &str, name: &str) -> (r: Option<String>)
    ensures
        shown(r) == header_in(lines(message@), name@),
{
    let chars = chars_of(message);
    let wanted = chars_of(name);
    let feed = vec!['\n'];
    assert(feed@ =~= seq!['\n']);
    let mut from: usize = 0;
    assert(chars@.skip(0) =~= chars@);
    while from < chars.len()
        invariant
            from <= chars.len(),
            chars@ == message@,
            wanted@ == name@,
            feed@ == seq!['\n'],
            header_in(lines(message@), name@) == header_in(lines(chars@.skip(from as int)), name@),
        decreases chars.len() - from,
    {
        let ghost rest = chars@.skip(from as int);
        proof {
            crate::text::find_is_first(chars@, feed@, from as int);
            crate::text::find_is_first(rest, feed@, 0);
            crate::text::find_in_the_rest(chars@, feed@, from as int);
        }
        let next = find(&chars, &feed, from);
        let (end, after) = match next {
            Some(n) => (
                if n > from && chars[n - 1] == '\r' {
                    n - 1
                } else {
                    n
                },
                n + 1,
            ),
            None => (chars.len(), chars.len()),
        };
        let mut line: Vec<char> = Vec::new();
        let mut i: usize = from;
        while i < end
            invariant
                from <= i <= end <= chars.len(),
                line@ == chars@.subrange(from as int, i as int),
            decreases end - i,
        {
            line.push(chars[i]);
            i += 1;
            assert(line@ =~= chars@.subrange(from as int, i as int));
        }
        proof {
            match next {
                Some(n) => {
                    let k = n - from;
                    assert(rest.take(k) =~= chars@.subrange(from as int, n as int));
                    assert(line_content(rest.take(k)) =~= line@);
                    assert(rest.skip(k + 1) =~= chars@.skip(after as int));
                    assert(lines(rest) == seq![line@] + lines(chars@.skip(after as int)));
                },
                None => {
                    assert(line@ =~= rest);
                    assert(lines(rest) == seq![line@]);
                    assert(lines(rest) =~= seq![line@] + lines(chars@.skip(after as int)));
                },
            }
            assert(lines(rest)[0] == line@);
            assert(lines(rest).drop_first() =~= lines(chars@.skip(after as int)));
        }
        let (start, stop) = trim_bounds(&line, 0, line.len());
        assert(line@.subrange(0, line@.len() as int) =~= line@);
        proof {
            crate::text::blank_iff_trims_to_nothing(line@);
        }
        if start == stop {
            return None;
        }
        let value = line_header(&line, &wanted);
        if value.is_some() {
            return value;
        }
        from = after;
    }
    assert(chars@.skip(from as int) =~= Seq::<char>::empty());
    None
}

/// The body of a message.
pub fn message_body(message: &str) -> (r: String)
    ensures
        r@ == body_of(message@),
{
    let chars = chars_of(message);
    let start: usize = match find(&chars, &chars_of("\r\n\r\n"), 0) {
        Some(n) => {
            proof {
                reveal_strlit("\r\n\r\n");
                assert(n + 4 <= chars.len());
            }
            n + 4
        },
        None => match find(&chars, &chars_of("\n\n"), 0) {
            Some(n) => {
                proof {
                    reveal_strlit("\n\n");
                    assert(n + 2 <= chars.len());
                }
                n + 2
            },
            None => 0,
        },
    };
    assert(chars@.subrange(start as int, chars@.len() as int) =~= chars@.skip(start as int));
    assert(chars@.skip(0) =~= chars@);
    let (from, to) = trim_bounds(&chars, start, chars.len());
    string_of(&chars, from, to)
}

/// Why the headers of a message are refused, where they are.
pub open spec fn header_fault(
    message: Seq<char>,
    id: Seq<char>,
    worker: IdentityView,
    subject: Seq<char>,
) -> Option<ErrorView> {
    let from = header_in(lines(message), "From"@);
    let about = header_in(lines(message), "Subject"@);
    let message_id = header_in(lines(message), "Message-ID"@);
    if from is None {
        Some(ErrorView::InvalidMailHeader { reason: "message is missing `From`"@ })
    } else if !sent_by(from->0, worker) {
        Some(
            ErrorView::InvalidMailHeader {
                reason: "sender `"@ + from->0 + "`, expected `"@ + worker.slug + "`"@,
            },
        )
    } else if about is None {
        Some(ErrorView::InvalidMailHeader { reason: "message is missing `Subject`"@ })
    } else if about->0 != subject {
        Some(
            ErrorView::InvalidMailHeader {
                reason: "subject `"@ + about->0 + "`, expected `"@ + subject + "`"@,
            },
        )
    } else if message_id is Some && message_id->0 != id {
        Some(
            ErrorView::InvalidMailHeader {
                reason: "message ID `"@ + message_id->0 + "`, expected `"@ + id + "`"@,
            },
        )
    } else {
        None
    }
}

/// A reason of the form that what was found is not what was expected.
fn not_as_expected(what: &str, found: &str, expected: &str) -> (r: String)
    ensures
        r@ == what@ + found@ + "`, expected `"@ + expected@ + "`"@,
{
    let mut reason = what.to_owned();
    reason.append(found);
    reason.append("`, expected `");
    reason.append(expected);
    reason.append("`");
    reason
}

/// Refuses a message that is not the one that was announced.
fn validate_message_headers(
    message: &str,
    expected_id: &str,
    worker: &Identity,
    expected_subject: &str,
) -> (r: Result<(), Error>)
    ensures
        match header_fault(message@, expected_id@, worker@, expected_subject@) {
            None => r is Ok,
            Some(error) => r matches Err(e) && e@ == error,
        },
{
    let from = match message_header(message, "From") {
        Some(from) => from,
        None => {
            return Err(
                Error::InvalidMailHeader { reason: "message is missing `From`".to_owned() },
            );
        },
    };
    if !sender_matches(from.as_str(), worker) {
        let reason = not_as_expected("sender `", from.as_str(), worker.slug.as_str());
        return Err(Error::InvalidMailHeader { reason });
    }
    let subject = match message_header(message, "Subject") {
        Some(subject) => subject,
        None => {
            return Err(
                Error::InvalidMailHeader { reason: "message is missing `Subject`".to_owned() },
            );
        },
    };
    if !same(subject.as_str(), expected_subject) {
        let reason = not_as_expected("subject `", subject.as_str(), expected_subject);
        return Err(Error::InvalidMailHeader { reason });
    }
    if let Some(message_id) = message_header(message, "Message-ID") {
        if !same(message_id.as_str(), expected_id) {
            let reason = not_as_expected("message ID `", message_id.as_str(), expected_id);
            return Err(Error::InvalidMailHeader { reason });
        }
    }
    Ok(())
}

/// Why a receipt is refused, where it is.
pub open spec fn receipt_fault(receipt: MailReceipt, handoff: HandoffView) -> Option<ErrorView> {
    let subject = handoff_title(handoff.task_id, handoff.run_id);
    if blank(receipt.id@) {
        Some(ErrorView::InvalidReceipt { reason: "missing non-empty `id`"@ })
    } else if receipt.recipient@ != handoff.worker.slug {
        Some(
            ErrorView::InvalidReceipt {
                reason: "recipient `"@ + receipt.recipient@ + "`, expected `"@ + handoff.worker.slug
                    + "`"@,
            },
        )
    } else if !sent_by(receipt.sender@, handoff.orchestrator) {
        Some(
            ErrorView::InvalidReceipt {
                reason: "sender `"@ + receipt.sender@ + "`, expected `"@ + handoff.orchestrator.slug
                    + "`"@,
            },
        )
    } else if receipt.subject@ != subject {
        Some(
            ErrorView::InvalidReceipt {
                reason: "subject `"@ + receipt.subject@ + "`, expected `"@ + subject + "`"@,
            },
        )
    } else if receipt.state@ != "delivered"@ {
        Some(
            ErrorView::InvalidReceipt {
                reason: "state `"@ + receipt.state@ + "`, expected `delivered`"@,
            },
        )
    } else {
        None
    }
}

/// Refuses a receipt that is not that of the handoff.
pub fn validate_receipt(receipt: &MailReceipt, handoff: &Handoff) -> (r: Result<(), Error>)
    ensures
        match receipt_fault(*receipt, handoff@) {
            None => r is Ok,
            Some(error) => r matches Err(e) && e@ == error,
        },
{
    let subject = handoff_subject(handoff.task_id, handoff.run_id);
    if is_blank(receipt.id.as_str()) {
        return Err(Error::InvalidReceipt { reason: "missing non-empty `id`".to_owned() });
    }
    if !same(receipt.recipient.as_str(), handoff.worker.slug.as_str()) {
        let reason = not_as_expected(
            "recipient `",
            receipt.recipient.as_str(),
            handoff.worker.slug.as_str(),
        );
        return Err(Error::InvalidReceipt { reason });
    }
    if !sender_matches(receipt.sender.as_str(), handoff.orchestrator) {
        let reason = not_as_expected(
            "sender `",
            receipt.sender.as_str(),
            handoff.orchestrator.slug.as_str(),
        );
        return Err(Error::InvalidReceipt { reason });
    }
    if !same(receipt.subject.as_str(), subject.as_str()) {
        let reason = not_as_expected("subject `", receipt.subject.as_str(), subject.as_str());
        return Err(Error::InvalidReceipt { reason });
    }
    if !same(receipt.state.as_str(), "delivered") {
        let mut reason = "state `".to_owned();
        reason.append(receipt.state.as_str());
        reason.append("`, expected `delivered`");
        return Err(Error::InvalidReceipt { reason });
    }
    Ok(())
}

// ---------------------------------------------------------------------------------------------
// The AgentMail command

/// The AgentMail command.
#[derive(Debug)]
pub struct AgentMailClient {
    executable: String,
}

/// The arguments that send a handoff.
pub open spec fn send_arguments(h: HandoffView) -> Seq<Seq<char>> {
    seq![
        "send"@,
        "--to"@,
        h.worker.slug,
        "--from"@,
        h.orchestrator.slug,
        "--reply-to"@,
        h.orchestrator.slug,
        "--subject"@,
        handoff_title(h.task_id, h.run_id),
        "--body"@,
        handoff_text(h),
        "--json"@,
    ]
}

/// The arguments that list the unread mail of the orchestrator.
pub open spec fn scan_arguments(orchestrator: IdentityView) -> Seq<Seq<char>> {
    seq!["scan"@, "--to"@, orchestrator.slug, "--json"@]
}

/// The arguments that read a message and leave it unread.
pub open spec fn peek_arguments(message_id: Seq<char>) -> Seq<Seq<char>> {
    seq!["read"@, message_id, "--peek"@]
}

/// The arguments that mark a message as read.
pub open spec fn read_arguments(message_id: Seq<char>) -> Seq<Seq<char>> {
    seq!["read"@, message_id]
}

/// The arguments that mark a message as read, unless its ID is blank.
pub open spec fn mark_request(message_id: Seq<char>) -> Result<Seq<Seq<char>>, ErrorView> {
    if blank(message_id) {
        Err(
            ErrorView::InvalidMailHeader { reason: "cannot mark an empty message ID as read"@ },
        )
    } else {
        Ok(read_arguments(message_id))
    }
}

/// What an AgentMail command wrote, or why it is refused.
pub open spec fn output_of(
    executable: Seq<char>,
    operation: Seq<char>,
    ran: Result<Finished, String>,
) -> Result<Seq<u8>, ErrorView> {
    match ran {
        Err(source) => Err(ErrorView::Start { executable, operation, source: source@ }),
        Ok(output) => if output.success {
            Ok(output.stdout@)
        } else {
            Err(
                ErrorView::CommandFailed {
                    operation,
                    status: output.status@,
                    detail: failure_text(output, "process exited with "@),
                },
            )
        },
    }
}

/// The message is announced as the report on a task of a run.
pub open spec fn announces_report(
    header: MailHeader,
    worker: IdentityView,
    task_id: Seq<char>,
    run_id: Seq<char>,
) -> bool {
    sent_by(header.sender@, worker) && header.subject@ == report_title(task_id, run_id)
}

/// The IDs of the messages that are announced as the report on a task of a run, in their order.
pub open spec fn reports_announced(
    headers: Seq<MailHeader>,
    worker: IdentityView,
    task_id: Seq<char>,
    run_id: Seq<char>,
) -> Seq<Seq<char>>
    decreases headers.len(),
{
    if headers.len() == 0 {
        Seq::empty()
    } else {
        let before = reports_announced(headers.drop_last(), worker, task_id, run_id);
        if announces_report(headers.last(), worker, task_id, run_id) {
            before.push(headers.last().id@)
        } else {
            before
        }
    }
}

/// The message that is read as the report on a task of a run, where there is one.
pub open spec fn report_announced(
    headers: Seq<MailHeader>,
    worker: IdentityView,
    task_id: Seq<char>,
    run_id: Seq<char>,
) -> Result<Option<Seq<char>>, ErrorView> {
    let ids = reports_announced(headers, worker, task_id, run_id);
    if ids.len() == 0 {
        Ok(None)
    } else if ids.len() > 1 {
        Err(ErrorView::MultipleReports { task_id, run_id, count: ids.len() })
    } else if blank(ids[0]) {
        Err(
            ErrorView::InvalidMailHeader {
                reason: "matching report has an empty message ID"@,
            },
        )
    } else {
        Ok(Some(ids[0]))
    }
}

impl AgentMailClient {
    pub closed spec fn executable_name(self) -> Seq<char> {
        self.executable@
    }

    /// A client for the configured executable, which is `agent-mail` where none is configured.
    pub fn configured(executable: Option<String>) -> (r: AgentMailClient)
        ensures
            r.executable_name() == executable_or(shown(executable), "agent-mail"@),
    {
        AgentMailClient { executable: configured_executable(executable, "agent-mail") }
    }

    pub fn with_executable(executable: String) -> (r: AgentMailClient)
        ensures
            r.executable_name() == executable@,
    {
        AgentMailClient { executable }
    }

    pub fn executable(&self) -> (r: &str)
        ensures
            r@ == self.executable_name(),
    {
        self.executable.as_str()
    }

    /// What a command wrote that was run while doing something.
    pub fn output(&self, operation: &'static str, ran: Result<Finished, String>) -> (r: Result<
        Vec<u8>,
        Error,
    >)
        ensures
            match output_of(self.executable_name(), operation@, ran) {
                Ok(written) => r matches Ok(bytes) && bytes@ == written,
                Err(error) => r matches Err(e) && e@ == error,
            },
            r matches Ok(bytes) ==> ran matches Ok(output) && bytes == output.stdout,
    {
        match ran {
            Err(source) => Err(
                Error::Start { executable: self.executable.clone(), operation, source },
            ),
            Ok(output) => if output.success {
                Ok(output.stdout)
            } else {
                let detail = failure_detail(&output, "process exited with ");
                Err(Error::CommandFailed { operation, status: output.status, detail })
            },
        }
    }

    /// The error for output that is not what was asked for.
    pub fn invalid_json(&self, operation: &'static str, output: &str, source: String) -> (r: Error)
        ensures
            r@ == (ErrorView::InvalidJson {
                operation: operation@,
                output: trim(output@),
                source: source@,
            }),
    {
        Error::InvalidJson { operation, output: trimmed(output), source }
    }

    /// The arguments that send a handoff.
    pub fn send_handoff(&self, handoff: &Handoff) -> (r: Vec<String>)
        ensures
            texts(r@) == send_arguments(handoff@),
    {
        let r = vec![
            "send".to_owned(),
            "--to".to_owned(),
            handoff.worker.slug.clone(),
            "--from".to_owned(),
            handoff.orchestrator.slug.clone(),
            "--reply-to".to_owned(),
            handoff.orchestrator.slug.clone(),
            "--subject".to_owned(),
            handoff_subject(handoff.task_id, handoff.run_id),
            "--body".to_owned(),
            handoff_body(handoff),
            "--json".to_owned(),
        ];
        assert(texts(r@) =~= send_arguments(handoff@));
        r
    }

    /// The arguments that list the unread mail of the orchestrator.
    pub fn scan_report(&self, orchestrator: &Identity) -> (r: Vec<String>)
        ensures
            texts(r@) == scan_arguments(orchestrator@),
    {
        let r = vec![
            "scan".to_owned(),
            "--to".to_owned(),
            orchestrator.slug.clone(),
            "--json".to_owned(),
        ];
        assert(texts(r@) =~= scan_arguments(orchestrator@));
        r
    }

    /// The message among the unread ones that is to be read as the report on a task of a run.
    pub fn select_report(
        &self,
        headers: &Vec<MailHeader>,
        worker: &Identity,
        task_id: &str,
        run_id: &str,
    ) -> (r: Result<Option<String>, Error>)
        ensures
            match report_announced(headers@, worker@, task_id@, run_id@) {
                Ok(found) => r matches Ok(id) && shown(id) == found,
                Err(error) => r matches Err(e) && e@ == error,
            },
    {
        let subject = report_subject(task_id, run_id);
        let mut ids: Vec<String> = Vec::new();
        let mut i: usize = 0;
        assert(headers@.take(0) =~= Seq::<MailHeader>::empty());
        assert(texts(ids@) =~= Seq::<Seq<char>>::empty());
        while i < headers.len()
            invariant
                i <= headers.len(),
                subject@ == report_title(task_id@, run_id@),
                texts(ids@) == reports_announced(
                    headers@.take(i as int),
                    worker@,
                    task_id@,
                    run_id@,
                ),
            decreases headers.len() - i,
        {
            let ghost so_far = texts(ids@);
            assert(headers@.take(i + 1).drop_last() =~= headers@.take(i as int));
            let header = &headers[i];
            if sender_matches(header.sender.as_str(), worker) && same(
                header.subject.as_str(),
                subject.as_str(),
            ) {
                ids.push(header.id.clone());
                assert(texts(ids@) =~= so_far.push(header.id@));
            }
            i += 1;
        }
        assert(headers@.take(i as int) =~= headers@);
        let count = ids.len();
        if count == 0 {
            return Ok(None);
        }
        if count > 1 {
            return Err(
                Error::MultipleReports {
                    task_id: task_id.to_owned(),
                    run_id: run_id.to_owned(),
                    count,
                },
            );
        }
        let id = ids[0].clone();
        assert(texts(ids@)[0] == id@);
        if is_blank(id.as_str()) {
            return Err(
                Error::InvalidMailHeader {
                    reason: "matching report has an empty message ID".to_owned(),
                },
            );
        }
        Ok(Some(id))
    }

    /// The arguments that read a message and leave it unread.
    pub fn peek(&self, message_id: &str) -> (r: Vec<String>)
        ensures
            texts(r@) == peek_arguments(message_id@),
    {
        let r = vec!["read".to_owned(), message_id.to_owned(), "--peek".to_owned()];
        assert(texts(r@) =~= peek_arguments(message_id@));
        r
    }

    /// The body of a message, where the message is the one that was announced as the report on a
    /// task of a run.
    pub fn report_body(
        &self,
        message: &str,
        message_id: &str,
        worker: &Identity,
        task_id: &str,
        run_id: &str,
    ) -> (r: Result<String, Error>)
        ensures
            seen(r) == (match header_fault(
                message@,
                message_id@,
                worker@,
                report_title(task_id@, run_id@),
            ) {
                None => Ok(body_of(message@)),
                Some(error) => Err(error),
            }),
    {
        let subject = report_subject(task_id, run_id);
        validate_message_headers(message, message_id, worker, subject.as_str())?;
        Ok(message_body(message))
    }

    /// The arguments that mark a message as read.
    pub fn mark_read(&self, message_id: &str) -> (r: Result<Vec<String>, Error>)
        ensures
            match mark_request(message_id@) {
                Ok(wanted) => r matches Ok(arguments) && texts(arguments@) == wanted,
                Err(error) => r matches Err(e) && e@ == error,
            },
    {
        if is_blank(message_id) {
            return Err(
                Error::InvalidMailHeader {
                    reason: "cannot mark an empty message ID as read".to_owned(),
                },
            );
        }
        let r = vec!["read".to_owned(), message_id.to_owned()];
        assert(texts(r@) =~= read_arguments(message_id@));
        Ok(r)
    }
}

// ---------------------------------------------------------------------------------------------
// Laws

/// An accepted report of completion names a deliverable and evidence; any other accepted report
/// has a summary.
pub proof fn accepted_reports_are_complete(
    report: ReportView,
    task_id: Seq<char>,
    run_id: Seq<char>,
)
    requires
        report.fault(task_id, run_id) is None,
    ensures
        report.task_id == task_id,
        report.run_id == run_id,
        report.status == ReportStatus::Completed ==> (written(report.commit) || written(
            report.artifact,
        )) && some_written(report.evidence),
        report.status != ReportStatus::Completed ==> written(report.summary),
{
}

/// A report settles a task exactly when the queue agrees with it: a completed task is closed there,
/// any other is not.
pub proof fn reports_never_overrule_the_queue(status: TaskStatus, report: ReportView)
    ensures
        reconciled(status, report) is Ok <==> (report.status == ReportStatus::Completed <==> status
            == TaskStatus::Closed),
        reconciled(status, report) == Ok::<ReportDisposition, ErrorView>(
            ReportDisposition::Completed,
        ) <==> report.status == ReportStatus::Completed && status == TaskStatus::Closed,
{
}

} // verus!
