//! Finishing a root task: what is asked for, what comes of it, and why it stops.
use vstd::prelude::*;
use crate::herdr;
use crate::herdr::{AgentStatus, WorkerStop};
use crate::identity;
use crate::mail;
use crate::mail::ReportStatus;
use crate::outcome::{seen, shown};
use crate::paths::{below, path_below};
use crate::run::{Run, RunView};
use crate::runtime;
use crate::runtime::{LedgerView, RecordView, RunLedger, RuntimeStage};
use crate::sq;
use crate::sq::{PlanView, ScopedPlan, TaskStatus, TaskView};
use crate::table::{ascending, first_fault, first_in_order, listed};
use crate::text::{decimal, texts, to_decimal};
use crate::worktree;

verus! {

// ---------------------------------------------------------------------------------------------
// Errors

/// Why a run stops.
#[derive(Debug)]
#[allow(inconsistent_fields)]
pub enum Error {
    Sq(sq::Error),
    Herdr(herdr::Error),
    Identity(identity::Error),
    Mail(mail::Error),
    Runtime(runtime::Error),
    Worktree(worktree::Error),
    InvalidInterval { option: &'static str },
    CurrentDirectory { source: String },
    Canonicalize { kind: &'static str, path: String, source: String },
    CreateDirectory { kind: &'static str, path: String, source: String },
    OrchestratorMismatch { expected: String, actual: String },
    UnownedInProgress { task_id: String },
    MissingRuntime { task_id: String, owner: Option<String> },
    CompletedRuntimeReopened { task_id: String },
    RuntimeTaskReset { task_id: String },
    LostWorker { task_id: String, detail: String },
    ReplacedWorker { task_id: String, expected: String, actual: String },
    LeaseExpired { task_id: String, deadline: u64 },
    SettledWithoutReport { task_id: String, status: AgentStatus },
    WorkerBlocked { task_id: String },
    WorkerReported { task_id: String, status: ReportStatus, summary: String },
    RetainedTerminalReport { task_id: String, status: ReportStatus },
}

/// What an error says.
#[allow(inconsistent_fields)]
pub enum ErrorView {
    Sq(sq::ErrorView),
    Herdr(herdr::ErrorView),
    Identity(identity::ErrorView),
    Mail(mail::ErrorView),
    Runtime(runtime::ErrorView),
    Worktree(worktree::ErrorView),
    InvalidInterval { option: Seq<char> },
    CurrentDirectory { source: Seq<char> },
    Canonicalize { kind: Seq<char>, path: Seq<char>, source: Seq<char> },
    CreateDirectory { kind: Seq<char>, path: Seq<char>, source: Seq<char> },
    OrchestratorMismatch { expected: Seq<char>, actual: Seq<char> },
    UnownedInProgress { task_id: Seq<char> },
    MissingRuntime { task_id: Seq<char>, owner: Option<Seq<char>> },
    CompletedRuntimeReopened { task_id: Seq<char> },
    RuntimeTaskReset { task_id: Seq<char> },
    LostWorker { task_id: Seq<char>, detail: Seq<char> },
    ReplacedWorker { task_id: Seq<char>, expected: Seq<char>, actual: Seq<char> },
    LeaseExpired { task_id: Seq<char>, deadline: u64 },
    SettledWithoutReport { task_id: Seq<char>, status: AgentStatus },
    WorkerBlocked { task_id: Seq<char> },
    WorkerReported { task_id: Seq<char>, status: ReportStatus, summary: Seq<char> },
    RetainedTerminalReport { task_id: Seq<char>, status: ReportStatus },
}

impl View for Error {
    type V = ErrorView;

    open spec fn view(&self) -> ErrorView {
        match *self {
            Error::Sq(error) => ErrorView::Sq(error@),
            Error::Herdr(error) => ErrorView::Herdr(error@),
            Error::Identity(error) => ErrorView::Identity(error@),
            Error::Mail(error) => ErrorView::Mail(error@),
            Error::Runtime(error) => ErrorView::Runtime(error@),
            Error::Worktree(error) => ErrorView::Worktree(error@),
            Error::InvalidInterval { option } => ErrorView::InvalidInterval {
                option: option@,
            },
            Error::CurrentDirectory { source } => ErrorView::CurrentDirectory {
                source: source@,
            },
            Error::Canonicalize { kind, path, source } => ErrorView::Canonicalize {
                kind: kind@,
                path: path@,
                source: source@,
            },
            Error::CreateDirectory { kind, path, source } => ErrorView::CreateDirectory {
                kind: kind@,
                path: path@,
                source: source@,
            },
            Error::OrchestratorMismatch { expected, actual } => ErrorView::OrchestratorMismatch {
                expected: expected@,
                actual: actual@,
            },
            Error::UnownedInProgress { task_id } => ErrorView::UnownedInProgress {
                task_id: task_id@,
            },
            Error::MissingRuntime { task_id, owner } => ErrorView::MissingRuntime {
                task_id: task_id@,
                owner: shown(owner),
            },
            Error::CompletedRuntimeReopened { task_id } => ErrorView::CompletedRuntimeReopened {
                task_id: task_id@,
            },
            Error::RuntimeTaskReset { task_id } => ErrorView::RuntimeTaskReset {
                task_id: task_id@,
            },
            Error::LostWorker { task_id, detail } => ErrorView::LostWorker {
                task_id: task_id@,
                detail: detail@,
            },
            Error::ReplacedWorker { task_id, expected, actual } => ErrorView::ReplacedWorker {
                task_id: task_id@,
                expected: expected@,
                actual: actual@,
            },
            Error::LeaseExpired { task_id, deadline } => ErrorView::LeaseExpired {
                task_id: task_id@,
                deadline,
            },
            Error::SettledWithoutReport { task_id, status } => ErrorView::SettledWithoutReport {
                task_id: task_id@,
                status,
            },
            Error::WorkerBlocked { task_id } => ErrorView::WorkerBlocked {
                task_id: task_id@,
            },
            Error::WorkerReported { task_id, status, summary } => ErrorView::WorkerReported {
                task_id: task_id@,
                status,
                summary: summary@,
            },
            Error::RetainedTerminalReport { task_id, status } => ErrorView::RetainedTerminalReport {
                task_id: task_id@,
                status,
            },
        }
    }
}

/// An owner, where there is none a word for that.
pub open spec fn owner_text(owner: Option<Seq<char>>) -> Seq<char> {
    match owner {
        Some(owner) => owner,
        None => "<missing>"@,
    }
}

impl ErrorView {
    /// The message for an error.
    pub open spec fn message(self) -> Seq<char> {
        match self {
            ErrorView::Sq(error) => error.message(),
            ErrorView::Herdr(error) => error.message(),
            ErrorView::Identity(error) => error.message(),
            ErrorView::Mail(error) => error.message(),
            ErrorView::Runtime(error) => error.message(),
            ErrorView::Worktree(error) => error.message(),
            ErrorView::InvalidInterval { option } => option
                + " must be greater than zero"@,
            ErrorView::CurrentDirectory { source } => "cannot determine current directory: "@
                + source,
            ErrorView::Canonicalize { kind, path, source } => "cannot canonicalize "@
                + kind
                + " `"@
                + path
                + "`: "@
                + source,
            ErrorView::CreateDirectory { kind, path, source } => "cannot create "@
                + kind
                + " `"@
                + path
                + "`: "@
                + source,
            ErrorView::OrchestratorMismatch { expected, actual } =>
                "retained run belongs to orchestrator `"@
                + expected
                + "`, not `"@
                + actual
                + "`"@,
            ErrorView::UnownedInProgress { task_id } => "SQ task `"@
                + task_id
                + "` is in_progress without agent_orchestrator.run_id ownership; refusing to steal it"@,
            ErrorView::MissingRuntime { task_id, owner } => "SQ task `"@
                + task_id
                + "` is in_progress for run `"@
                + owner_text(owner)
                + "` without a retained runtime; refusing interrupted provisioning"@,
            ErrorView::CompletedRuntimeReopened { task_id } => "completed runtime task `"@
                + task_id
                + "` is no longer closed in SQ"@,
            ErrorView::RuntimeTaskReset { task_id } => "retained runtime task `"@
                + task_id
                + "` was reset to pending; refusing to retry it"@,
            ErrorView::LostWorker { task_id, detail } => "worker for task `"@
                + task_id
                + "` is lost: "@
                + detail,
            ErrorView::ReplacedWorker { task_id, expected, actual } => "worker for task `"@
                + task_id
                + "` changed from `"@
                + expected
                + "` to `"@
                + actual
                + "`; refusing replacement"@,
            ErrorView::LeaseExpired { task_id, deadline } => "worker lease for task `"@
                + task_id
                + "` expired at Unix time "@
                + decimal(deadline as nat),
            ErrorView::SettledWithoutReport { task_id, status } => "worker for task `"@
                + task_id
                + "` settled without a structured AgentMail report: its pane is `"@
                + status.title()
                + "`"@,
            ErrorView::WorkerBlocked { task_id } => "worker for task `"@
                + task_id
                + "` is blocked without a matching AgentMail report"@,
            ErrorView::WorkerReported { task_id, status, summary } => "worker reported task `"@
                + task_id
                + "` "@
                + status.title()
                + ": "@
                + summary,
            ErrorView::RetainedTerminalReport { task_id, status } =>
                "retained worker report for task `"@
                + task_id
                + "` is "@
                + status.title()
                + "; refusing a silent retry"@,
        }
    }
}

impl Error {
    /// The message for an error.
    pub fn message(&self) -> (r: String)
        ensures
            r@ == self@.message(),
    {
        match self {
            Error::Sq(error) => error.message(),
            Error::Herdr(error) => error.message(),
            Error::Identity(error) => error.message(),
            Error::Mail(error) => error.message(),
            Error::Runtime(error) => error.message(),
            Error::Worktree(error) => error.message(),
            Error::InvalidInterval { option } => {
                let mut m = (*option).to_owned();
                m.append(" must be greater than zero");
                m
            },
            Error::CurrentDirectory { source } => {
                let mut m = "cannot determine current directory: ".to_owned();
                m.append(source.as_str());
                m
            },
            Error::Canonicalize { kind, path, source } => {
                let mut m = "cannot canonicalize ".to_owned();
                m.append(kind);
                m.append(" `");
                m.append(path.as_str());
                m.append("`: ");
                m.append(source.as_str());
                m
            },
            Error::CreateDirectory { kind, path, source } => {
                let mut m = "cannot create ".to_owned();
                m.append(kind);
                m.append(" `");
                m.append(path.as_str());
                m.append("`: ");
                m.append(source.as_str());
                m
            },
            Error::OrchestratorMismatch { expected, actual } => {
                let mut m = "retained run belongs to orchestrator `".to_owned();
                m.append(expected.as_str());
                m.append("`, not `");
                m.append(actual.as_str());
                m.append("`");
                m
            },
            Error::UnownedInProgress { task_id } => {
                let mut m = "SQ task `".to_owned();
                m.append(task_id.as_str());
                m.append("` is in_progress without agent_orchestrator.run_id ownership; refusing to steal it");
                m
            },
            Error::MissingRuntime { task_id, owner } => {
                let mut m = "SQ task `".to_owned();
                m.append(task_id.as_str());
                m.append("` is in_progress for run `");
                match owner {
                    Some(owner) => m.append(owner.as_str()),
                    None => m.append("<missing>"),
                }
                m.append("` without a retained runtime; refusing interrupted provisioning");
                m
            },
            Error::CompletedRuntimeReopened { task_id } => {
                let mut m = "completed runtime task `".to_owned();
                m.append(task_id.as_str());
                m.append("` is no longer closed in SQ");
                m
            },
            Error::RuntimeTaskReset { task_id } => {
                let mut m = "retained runtime task `".to_owned();
                m.append(task_id.as_str());
                m.append("` was reset to pending; refusing to retry it");
                m
            },
            Error::LostWorker { task_id, detail } => {
                let mut m = "worker for task `".to_owned();
                m.append(task_id.as_str());
                m.append("` is lost: ");
                m.append(detail.as_str());
                m
            },
            Error::ReplacedWorker { task_id, expected, actual } => {
                let mut m = "worker for task `".to_owned();
                m.append(task_id.as_str());
                m.append("` changed from `");
                m.append(expected.as_str());
                m.append("` to `");
                m.append(actual.as_str());
                m.append("`; refusing replacement");
                m
            },
            Error::LeaseExpired { task_id, deadline } => {
                let mut m = "worker lease for task `".to_owned();
                m.append(task_id.as_str());
                m.append("` expired at Unix time ");
                m.append(to_decimal(*deadline).as_str());
                m
            },
            Error::SettledWithoutReport { task_id, status } => {
                let mut m = "worker for task `".to_owned();
                m.append(task_id.as_str());
                m.append("` settled without a structured AgentMail report: its pane is `");
                m.append(status.name());
                m.append("`");
                m
            },
            Error::WorkerBlocked { task_id } => {
                let mut m = "worker for task `".to_owned();
                m.append(task_id.as_str());
                m.append("` is blocked without a matching AgentMail report");
                m
            },
            Error::WorkerReported { task_id, status, summary } => {
                let mut m = "worker reported task `".to_owned();
                m.append(task_id.as_str());
                m.append("` ");
                m.append(status.name());
                m.append(": ");
                m.append(summary.as_str());
                m
            },
            Error::RetainedTerminalReport { task_id, status } => {
                let mut m = "retained worker report for task `".to_owned();
                m.append(task_id.as_str());
                m.append("` is ");
                m.append(status.name());
                m.append("; refusing a silent retry");
                m
            },
        }
    }
}

// ---------------------------------------------------------------------------------------------
// Options and output

/// What is asked for.
#[derive(Debug)]
pub struct FinishOptions {
    pub root_task_id: String,
    pub queue: Option<String>,
    pub model: Option<String>,
    pub repo: String,
    pub state_dir: Option<String>,
    pub worktree_root: Option<String>,
    pub once: bool,
    pub poll_seconds: u64,
    pub lease_seconds: u64,
}

/// What options say.
pub struct OptionsView {
    pub root_task_id: Seq<char>,
    pub queue: Option<Seq<char>>,
    pub model: Option<Seq<char>>,
    pub repo: Seq<char>,
    pub state_dir: Option<Seq<char>>,
    pub worktree_root: Option<Seq<char>>,
    pub once: bool,
    pub poll_seconds: u64,
    pub lease_seconds: u64,
}

impl View for FinishOptions {
    type V = OptionsView;

    open spec fn view(&self) -> OptionsView {
        OptionsView {
            root_task_id: self.root_task_id@,
            queue: shown(self.queue),
            model: shown(self.model),
            repo: self.repo@,
            state_dir: shown(self.state_dir),
            worktree_root: shown(self.worktree_root),
            once: self.once,
            poll_seconds: self.poll_seconds,
            lease_seconds: self.lease_seconds,
        }
    }
}

impl OptionsView {
    /// Why the options are refused, where they are.
    pub open spec fn fault(self) -> Option<ErrorView> {
        if self.poll_seconds == 0 {
            Some(ErrorView::InvalidInterval { option: "--poll-seconds"@ })
        } else if self.lease_seconds == 0 {
            Some(ErrorView::InvalidInterval { option: "--lease-seconds"@ })
        } else {
            None
        }
    }
}

impl FinishOptions {
    /// Refuses intervals of no seconds.
    pub fn validate(&self) -> (r: Result<(), Error>)
        ensures
            match self@.fault() {
                None => r is Ok,
                Some(error) => r matches Err(e) && e@ == error,
            },
    {
        if self.poll_seconds == 0 {
            return Err(Error::InvalidInterval { option: "--poll-seconds" });
        }
        if self.lease_seconds == 0 {
            return Err(Error::InvalidInterval { option: "--lease-seconds" });
        }
        Ok(())
    }
}

/// How a run stands.
#[derive(Debug, Clone, Copy, PartialEq, Eq, Structural)]
pub enum FinishStatus {
    Complete,
    Active,
}

impl View for FinishStatus {
    type V = FinishStatus;

    open spec fn view(&self) -> FinishStatus {
        *self
    }
}

/// How one task of a run stands.
#[derive(Debug)]
pub struct RuntimeSummary {
    pub task_id: String,
    pub stage: RuntimeStage,
    pub branch: String,
    pub worktree: String,
    pub worker: Option<String>,
}

/// What a summary says.
pub struct SummaryView {
    pub task_id: Seq<char>,
    pub stage: RuntimeStage,
    pub branch: Seq<char>,
    pub worktree: Seq<char>,
    pub worker: Option<Seq<char>>,
}

impl View for RuntimeSummary {
    type V = SummaryView;

    open spec fn view(&self) -> SummaryView {
        SummaryView {
            task_id: self.task_id@,
            stage: self.stage,
            branch: self.branch@,
            worktree: self.worktree@,
            worker: shown(self.worker),
        }
    }
}

/// How a run and its tasks stand. A root that was closed without a run has no run.
#[derive(Debug)]
pub struct FinishOutput {
    pub status: FinishStatus,
    pub run_id: Option<String>,
    pub root_task_id: String,
    pub runtimes: Vec<RuntimeSummary>,
}

/// What an output says.
pub struct OutputView {
    pub status: FinishStatus,
    pub run_id: Option<Seq<char>>,
    pub root_task_id: Seq<char>,
    pub runtimes: Seq<SummaryView>,
}

impl View for FinishOutput {
    type V = OutputView;

    open spec fn view(&self) -> OutputView {
        OutputView {
            status: self.status,
            run_id: shown(self.run_id),
            root_task_id: self.root_task_id@,
            runtimes: self.runtimes@.map_values(|s: RuntimeSummary| s@),
        }
    }
}

/// The summary of a runtime.
pub open spec fn summary_of(record: RecordView) -> SummaryView {
    SummaryView {
        task_id: record.task_id,
        stage: record.stage,
        branch: record.worktree.branch,
        worktree: record.worktree.path,
        worker: record.worker_name,
    }
}

/// The output for a run: its tasks in their order.
pub open spec fn output_for(ledger: LedgerView, status: FinishStatus) -> OutputView {
    OutputView {
        status,
        run_id: Some(ledger.run_id),
        root_task_id: ledger.root_task_id,
        runtimes: listed(ledger.runtimes.dom()).map_values(
            |id: Seq<char>| summary_of(ledger.runtimes[id]),
        ),
    }
}

/// The output for a run.
pub fn output(ledger: &RunLedger, status: FinishStatus) -> (r: FinishOutput)
    ensures
        r@ == output_for(ledger@, status),
{
    let keys = ledger.runtimes.key_list();
    let ghost ids = listed(ledger@.runtimes.dom());
    assert(ledger@.runtimes.dom() =~= ledger.runtimes@.dom());
    let ghost goal = output_for(ledger@, status).runtimes;
    let mut runtimes: Vec<RuntimeSummary> = Vec::new();
    let mut i: usize = 0;
    while i < keys.len()
        invariant
            i <= keys.len(),
            ids == texts(keys@),
            ids == listed(ledger@.runtimes.dom()),
            ids.to_set() == ledger@.runtimes.dom(),
            goal == ids.map_values(|id: Seq<char>| summary_of(ledger@.runtimes[id])),
            runtimes@.map_values(|s: RuntimeSummary| s@) == goal.take(i as int),
        decreases keys.len() - i,
    {
        let ghost so_far = runtimes@.map_values(|s: RuntimeSummary| s@);
        assert(ids.to_set().contains(ids[i as int]));
        let record = ledger.runtimes.get(keys[i].as_str()).unwrap();
        runtimes.push(
            RuntimeSummary {
                task_id: record.task_id.clone(),
                stage: record.stage,
                branch: record.worktree.branch.clone(),
                worktree: record.worktree.path.clone(),
                worker: record.worker_name.clone(),
            },
        );
        assert(record@ == ledger@.runtimes[ids[i as int]]);
        assert(runtimes@.map_values(|s: RuntimeSummary| s@) =~= so_far.push(goal[i as int]));
        i += 1;
        assert(goal.take(i as int) =~= goal.take(i - 1).push(goal[i - 1]));
    }
    assert(goal.take(i as int) =~= goal);
    FinishOutput {
        status,
        run_id: Some(ledger.run_id.clone()),
        root_task_id: ledger.root_task_id.clone(),
        runtimes,
    }
}

// ---------------------------------------------------------------------------------------------
// Judgements on a plan

/// Why a run stops for a plan that it may not work on.
pub open spec fn refusal(error: sq::ErrorView) -> ErrorView {
    match error {
        sq::ErrorView::UnownedInProgress { task_id } => ErrorView::UnownedInProgress { task_id },
        error => ErrorView::Sq(error),
    }
}

/// Why a run stops for a plan that it may not work on.
pub fn plan_refused(error: sq::Error) -> (r: Error)
    ensures
        r@ == refusal(error@),
{
    match error {
        sq::Error::UnownedInProgress { task_id } => Error::UnownedInProgress { task_id },
        error => Error::Sq(error),
    }
}

/// Why a task in progress cannot be part of a run that did not claim it.
pub open spec fn stray(task: TaskView, task_id: Seq<char>) -> ErrorView {
    match task.owner_run_id() {
        Some(owner) => ErrorView::MissingRuntime { task_id, owner: Some(owner) },
        None => ErrorView::UnownedInProgress { task_id },
    }
}

/// Why a task is refused that is in progress without a runtime, where it is.
pub open spec fn orphan_fault(plan: PlanView, ledger: LedgerView, task_id: Seq<char>) -> Option<
    ErrorView,
> {
    let task = plan.queue.tasks[task_id];
    if task.stored_status == TaskStatus::InProgress && !ledger.runtimes.contains_key(task_id) {
        Some(stray(task, task_id))
    } else {
        None
    }
}

/// Why a plan is refused for a task that is in progress without a runtime, where it is.
pub open spec fn orphan_error(plan: PlanView, ledger: LedgerView) -> Option<ErrorView> {
    first_fault(plan.task_ids(), |id: Seq<char>| orphan_fault(plan, ledger, id))
}

/// Why a task is refused that is in progress before there is a run, where it is.
pub open spec fn fresh_fault(plan: PlanView, task_id: Seq<char>) -> Option<ErrorView> {
    let task = plan.queue.tasks[task_id];
    if task.stored_status == TaskStatus::InProgress {
        Some(stray(task, task_id))
    } else {
        None
    }
}

/// Why a plan is refused for a task that is in progress before there is a run, where it is.
pub open spec fn fresh_error(plan: PlanView) -> Option<ErrorView> {
    first_fault(plan.task_ids(), |id: Seq<char>| fresh_fault(plan, id))
}

/// The error for a task that is in progress without a runtime.
fn stray_error(task: &sq::Task, task_id: &String) -> (r: Error)
    ensures
        r@ == stray(task@, task_id@),
{
    match task.owner_run_id() {
        Some(owner) => Error::MissingRuntime {
            task_id: task_id.clone(),
            owner: Some(owner.to_owned()),
        },
        None => Error::UnownedInProgress { task_id: task_id.clone() },
    }
}

/// Refuses a plan with a task that is in progress before there is a run.
pub fn reject_fresh_in_progress(plan: &ScopedPlan) -> (r: Result<(), Error>)
    ensures
        match fresh_error(plan@) {
            None => r is Ok,
            Some(error) => r matches Err(e) && e@ == error,
        },
{
    let all = plan.task_ids();
    let ghost ids = texts(all@);
    let ghost fault = |id: Seq<char>| fresh_fault(plan@, id);
    let mut i: usize = 0;
    while i < all.len()
        invariant
            i <= all.len(),
            ids == texts(all@),
            ascending(ids),
            ids.to_set() == plan@.task_ids(),
            fault == (|id: Seq<char>| fresh_fault(plan@, id)),
            forall|j: int| 0 <= j < i ==> fault(#[trigger] ids[j]) is None,
        decreases all.len() - i,
    {
        assert(ids.to_set().contains(ids[i as int]));
        let task = plan.task(all[i].as_str()).unwrap();
        if task.stored_status() == TaskStatus::InProgress {
            proof {
                first_in_order(ids, fault, i as int);
            }
            return Err(stray_error(task, &all[i]));
        }
        i += 1;
    }
    proof {
        first_in_order(ids, fault, i as int);
    }
    Ok(())
}

/// Refuses a plan with a task that is in progress without a runtime.
pub fn reject_orphaned_in_progress(plan: &ScopedPlan, ledger: &RunLedger) -> (r: Result<(), Error>)
    ensures
        match orphan_error(plan@, ledger@) {
            None => r is Ok,
            Some(error) => r matches Err(e) && e@ == error,
        },
{
    let all = plan.task_ids();
    let ghost ids = texts(all@);
    let ghost fault = |id: Seq<char>| orphan_fault(plan@, ledger@, id);
    let mut i: usize = 0;
    while i < all.len()
        invariant
            i <= all.len(),
            ids == texts(all@),
            ascending(ids),
            ids.to_set() == plan@.task_ids(),
            fault == (|id: Seq<char>| orphan_fault(plan@, ledger@, id)),
            forall|j: int| 0 <= j < i ==> fault(#[trigger] ids[j]) is None,
        decreases all.len() - i,
    {
        assert(ids.to_set().contains(ids[i as int]));
        let task = plan.task(all[i].as_str()).unwrap();
        if task.stored_status() == TaskStatus::InProgress && !ledger.runtimes.has(all[i].as_str()) {
            proof {
                first_in_order(ids, fault, i as int);
            }
            return Err(stray_error(task, &all[i]));
        }
        i += 1;
    }
    proof {
        first_in_order(ids, fault, i as int);
    }
    Ok(())
}

/// The root is closed and every task that the run claimed is completed.
pub open spec fn completed(plan: PlanView, ledger: LedgerView) -> bool {
    plan.queue.tasks[plan.root_task_id].stored_status == TaskStatus::Closed && ledger.complete()
}

/// Whether the root is closed.
pub fn root_closed(plan: &ScopedPlan) -> (r: bool)
    ensures
        r == (plan@.queue.tasks[plan@.root_task_id].stored_status == TaskStatus::Closed),
{
    let root = plan.task(plan.root_task_id());
    proof {
        let g = sq::graph_of(plan@.queue.tasks);
        assert(g.dom() =~= plan@.queue.tasks.dom());
        crate::graph::scope_is_closed(g, plan@.root_task_id);
    }
    root.unwrap().stored_status() == TaskStatus::Closed
}

/// Whether the root is closed and every task that the run claimed is completed.
pub fn completion_ready(plan: &ScopedPlan, ledger: &RunLedger) -> (r: bool)
    ensures
        r == completed(plan@, ledger@),
{
    root_closed(plan) && ledger.is_complete()
}

/// Why a run stops for a worker that is not waited for any longer.
pub open spec fn stop_error(task_id: Seq<char>, reason: WorkerStop) -> ErrorView {
    match reason {
        WorkerStop::SettledWithoutReport(status) => ErrorView::SettledWithoutReport {
            task_id,
            status,
        },
        WorkerStop::Blocked => ErrorView::WorkerBlocked { task_id },
    }
}

/// Why a run stops for a worker that is not waited for any longer.
pub fn worker_stop_error(task_id: String, reason: WorkerStop) -> (r: Error)
    ensures
        r@ == stop_error(task_id@, reason),
{
    match reason {
        WorkerStop::SettledWithoutReport(status) => Error::SettledWithoutReport { task_id, status },
        WorkerStop::Blocked => Error::WorkerBlocked { task_id },
    }
}

// ---------------------------------------------------------------------------------------------
// Paths

/// A path with what the system says of it: the directory above it, and its last part.
#[derive(Debug)]
pub struct Place {
    pub path: String,
    pub parent: Option<String>,
    pub name: Option<String>,
}

/// What a place says.
pub struct PlaceView {
    pub path: Seq<char>,
    pub parent: Option<Seq<char>>,
    pub name: Option<Seq<char>>,
}

impl View for Place {
    type V = PlaceView;

    open spec fn view(&self) -> PlaceView {
        PlaceView { path: self.path@, parent: shown(self.parent), name: shown(self.name) }
    }
}

/// The paths of a run.
#[derive(Debug)]
pub struct ResolvedPaths {
    pub queue: String,
    pub repo: String,
    pub state_dir: String,
    pub worktree_root: String,
}

/// What the paths of a run say.
pub struct PathsView {
    pub queue: Seq<char>,
    pub repo: Seq<char>,
    pub state_dir: Seq<char>,
    pub worktree_root: Seq<char>,
}

impl View for ResolvedPaths {
    type V = PathsView;

    open spec fn view(&self) -> PathsView {
        PathsView {
            queue: self.queue@,
            repo: self.repo@,
            state_dir: self.state_dir@,
            worktree_root: self.worktree_root@,
        }
    }
}

impl PlaceView {
    /// The directory beside which something is put: the one above, where there is one.
    pub open spec fn surroundings(self) -> Seq<char> {
        match self.parent {
            Some(parent) => parent,
            None => self.path,
        }
    }
}

/// The directory of the worktrees: the given one, else the one in which the repository is.
pub open spec fn worktree_root_for(explicit: Option<Seq<char>>, repo: PlaceView) -> Seq<char> {
    match explicit {
        Some(path) => path,
        None => repo.surroundings(),
    }
}

/// The directory of the ledgers: the given one, else one beside the repository with its name.
pub open spec fn state_dir_for(explicit: Option<Seq<char>>, repo: PlaceView) -> Seq<char> {
    match explicit {
        Some(path) => path,
        None => below(
            below(repo.surroundings(), ".agent-orchestrator"@),
            match repo.name {
                Some(name) => name,
                None => Seq::empty(),
            },
        ),
    }
}

/// A path made absolute, or why it cannot be.
pub open spec fn absolute_path(
    path: Seq<char>,
    is_absolute: bool,
    current_directory: Result<Seq<char>, Seq<char>>,
) -> Result<Seq<char>, ErrorView> {
    if is_absolute {
        Ok(path)
    } else {
        match current_directory {
            Ok(directory) => Ok(below(directory, path)),
            Err(source) => Err(ErrorView::CurrentDirectory { source }),
        }
    }
}

impl Place {
    fn surrounding_directory(&self) -> (r: &str)
        ensures
            r@ == self@.surroundings(),
    {
        match &self.parent {
            Some(parent) => parent.as_str(),
            None => self.path.as_str(),
        }
    }
}

/// The directory of the worktrees.
pub fn choose_worktree_root(explicit: &Option<String>, repo: &Place) -> (r: String)
    ensures
        r@ == worktree_root_for(shown(*explicit), repo@),
{
    match explicit {
        Some(path) => path.clone(),
        None => repo.surrounding_directory().to_owned(),
    }
}

/// The directory of the ledgers.
pub fn choose_state_dir(explicit: &Option<String>, repo: &Place) -> (r: String)
    ensures
        r@ == state_dir_for(shown(*explicit), repo@),
{
    match explicit {
        Some(path) => path.clone(),
        None => {
            let directory = path_below(repo.surrounding_directory(), ".agent-orchestrator");
            let name = match &repo.name {
                Some(name) => name.as_str(),
                None => {
                    proof {
                        reveal_strlit("");
                        assert(""@ =~= Seq::<char>::empty());
                    }
                    ""
                },
            };
            path_below(directory.as_str(), name)
        },
    }
}

/// A path made absolute.
pub fn absolute(path: String, is_absolute: bool, current_directory: Result<String, String>) -> (r:
    Result<String, Error>)
    ensures
        seen(r) == absolute_path(path@, is_absolute, seen(current_directory)),
{
    if is_absolute {
        return Ok(path);
    }
    match current_directory {
        Ok(directory) => Ok(path_below(directory.as_str(), path.as_str())),
        Err(source) => Err(Error::CurrentDirectory { source }),
    }
}

/// Begins to finish a root task.
pub fn execute(options: FinishOptions) -> (r: Run)
    ensures
        r@ == RunView::begin(options@),
{
    Run::begin(options)
}

} // verus!
