//! The runtime ledger: what is retained of a run, from the claim of a task to its settled report.
use vstd::prelude::*;
use vstd::utf8::encode_utf8;
use crate::hash::{absorb_all, absorb_number, hash_continues, hash_of, little_endian, BASIS};
use crate::herdr::{Worker, WorkerView, WorkerWorkspace, WorkspaceView};
use crate::identity::{Identity, IdentityView};
use crate::mail::{ReportStatus, ReportView, WorkerReport};
use crate::outcome::{seen, shown};
use crate::paths::{below, path_below};
use crate::sq::{PlanSnapshot, SnapshotView};
use crate::table::{
    ascending, first_fault, first_fault_exists, first_in_order, values_seen, values_seen_insert,
    Table,
};
use crate::text::{
    blank, decimal, hex, is_blank, same, texts, to_decimal, to_hex,
};
use crate::worktree::{is_safe_in_path, safe_in_path, WorktreePlan, WorktreeView};

verus! {

/// The version of the ledger.
pub const LEDGER_VERSION: u32 = 1;

/// How far a task is.
#[derive(Debug, Clone, Copy, PartialEq, Eq, Structural)]
pub enum RuntimeStage {
    Claimed,
    WorktreeCreated,
    QueueLinked,
    WorkerStarted,
    WorkerIdentified,
    HandoffSent,
    Active,
    ReportReceived,
    Completed,
    Blocked,
    Failed,
}

impl RuntimeStage {
    /// The name of a stage.
    pub open spec fn title(self) -> Seq<char> {
        match self {
            RuntimeStage::Claimed => "Claimed"@,
            RuntimeStage::WorktreeCreated => "WorktreeCreated"@,
            RuntimeStage::QueueLinked => "QueueLinked"@,
            RuntimeStage::WorkerStarted => "WorkerStarted"@,
            RuntimeStage::WorkerIdentified => "WorkerIdentified"@,
            RuntimeStage::HandoffSent => "HandoffSent"@,
            RuntimeStage::Active => "Active"@,
            RuntimeStage::ReportReceived => "ReportReceived"@,
            RuntimeStage::Completed => "Completed"@,
            RuntimeStage::Blocked => "Blocked"@,
            RuntimeStage::Failed => "Failed"@,
        }
    }

    /// The name of a stage.
    pub fn name(&self) -> (r: &'static str)
        ensures
            r@ == self.title(),
    {
        match self {
            RuntimeStage::Claimed => "Claimed",
            RuntimeStage::WorktreeCreated => "WorktreeCreated",
            RuntimeStage::QueueLinked => "QueueLinked",
            RuntimeStage::WorkerStarted => "WorkerStarted",
            RuntimeStage::WorkerIdentified => "WorkerIdentified",
            RuntimeStage::HandoffSent => "HandoffSent",
            RuntimeStage::Active => "Active",
            RuntimeStage::ReportReceived => "ReportReceived",
            RuntimeStage::Completed => "Completed",
            RuntimeStage::Blocked => "Blocked",
            RuntimeStage::Failed => "Failed",
        }
    }

    /// A worker was handed the task, so that its runtime can be taken up again.
    pub open spec fn reconcilable(self) -> bool {
        self is Active || self is ReportReceived || self is Completed || self is Blocked
            || self is Failed
    }

    /// Whether a worker was handed the task, so that its runtime can be taken up again.
    pub fn is_reconcilable(self) -> (r: bool)
        ensures
            r == self.reconcilable(),
    {
        matches!(
            self,
            RuntimeStage::Active | RuntimeStage::ReportReceived | RuntimeStage::Completed
            | RuntimeStage::Blocked | RuntimeStage::Failed
        )
    }

    /// Whether the task is completed.
    pub fn is_complete(self) -> (r: bool)
        ensures
            r == (self is Completed),
    {
        self == RuntimeStage::Completed
    }
}

// ---------------------------------------------------------------------------------------------
// Errors

/// Why a run cannot be resumed, or its ledger cannot be kept.
#[derive(Debug)]
#[allow(inconsistent_fields)]
pub enum Error {
    InvalidStateComponent { value: String },
    CreateStateDirectory { path: String, source: String },
    OpenLock { path: String, source: String },
    LockBusy { path: String, source: String },
    ReadLedger { path: String, source: String },
    InvalidLedger { path: String, source: String },
    SerializeLedger { source: String },
    WriteLedger { path: String, source: String },
    UnsupportedVersion { actual: u32, expected: u32 },
    LedgerMismatch { field: &'static str, expected: String, actual: String },
    InterruptedProvisioning { task_id: String, stage: RuntimeStage },
    WrongStage { task_id: String, expected: RuntimeStage, actual: RuntimeStage },
    MissingHandle { task_id: String, field: &'static str },
    HandleMismatch { task_id: String, detail: String },
    Clock { source: String },
}

/// What an error says.
#[allow(inconsistent_fields)]
pub enum ErrorView {
    InvalidStateComponent { value: Seq<char> },
    CreateStateDirectory { path: Seq<char>, source: Seq<char> },
    OpenLock { path: Seq<char>, source: Seq<char> },
    LockBusy { path: Seq<char>, source: Seq<char> },
    ReadLedger { path: Seq<char>, source: Seq<char> },
    InvalidLedger { path: Seq<char>, source: Seq<char> },
    SerializeLedger { source: Seq<char> },
    WriteLedger { path: Seq<char>, source: Seq<char> },
    UnsupportedVersion { actual: u32, expected: u32 },
    LedgerMismatch { field: Seq<char>, expected: Seq<char>, actual: Seq<char> },
    InterruptedProvisioning { task_id: Seq<char>, stage: RuntimeStage },
    WrongStage { task_id: Seq<char>, expected: RuntimeStage, actual: RuntimeStage },
    MissingHandle { task_id: Seq<char>, field: Seq<char> },
    HandleMismatch { task_id: Seq<char>, detail: Seq<char> },
    Clock { source: Seq<char> },
}

impl View for Error {
    type V = ErrorView;

    open spec fn view(&self) -> ErrorView {
        match *self {
            Error::InvalidStateComponent { value } => ErrorView::InvalidStateComponent {
                value: value@,
            },
            Error::CreateStateDirectory { path, source } => ErrorView::CreateStateDirectory {
                path: path@,
                source: source@,
            },
            Error::OpenLock { path, source } => ErrorView::OpenLock {
                path: path@,
                source: source@,
            },
            Error::LockBusy { path, source } => ErrorView::LockBusy {
                path: path@,
                source: source@,
            },
            Error::ReadLedger { path, source } => ErrorView::ReadLedger {
                path: path@,
                source: source@,
            },
            Error::InvalidLedger { path, source } => ErrorView::InvalidLedger {
                path: path@,
                source: source@,
            },
            Error::SerializeLedger { source } => ErrorView::SerializeLedger {
                source: source@,
            },
            Error::WriteLedger { path, source } => ErrorView::WriteLedger {
                path: path@,
                source: source@,
            },
            Error::UnsupportedVersion { actual, expected } => ErrorView::UnsupportedVersion {
                actual,
                expected,
            },
            Error::LedgerMismatch { field, expected, actual } => ErrorView::LedgerMismatch {
                field: field@,
                expected: expected@,
                actual: actual@,
            },
            Error::InterruptedProvisioning { task_id, stage } => ErrorView::InterruptedProvisioning {
                task_id: task_id@,
                stage,
            },
            Error::WrongStage { task_id, expected, actual } => ErrorView::WrongStage {
                task_id: task_id@,
                expected,
                actual,
            },
            Error::MissingHandle { task_id, field } => ErrorView::MissingHandle {
                task_id: task_id@,
                field: field@,
            },
            Error::HandleMismatch { task_id, detail } => ErrorView::HandleMismatch {
                task_id: task_id@,
                detail: detail@,
            },
            Error::Clock { source } => ErrorView::Clock {
                source: source@,
            },
        }
    }
}

impl ErrorView {
    /// The message for an error.
    pub open spec fn message(self) -> Seq<char> {
        match self {
            ErrorView::InvalidStateComponent { value } => "root task ID `"@
                + value
                + "` is not safe in a ledger path"@,
            ErrorView::CreateStateDirectory { path, source } =>
                "cannot create runtime state directory `"@
                + path
                + "`: "@
                + source,
            ErrorView::OpenLock { path, source } => "cannot open runtime ledger lock `"@
                + path
                + "`: "@
                + source,
            ErrorView::LockBusy { path, source } => "runtime ledger `"@
                + path
                + "` is locked by another finish process: "@
                + source,
            ErrorView::ReadLedger { path, source } => "cannot read runtime ledger `"@
                + path
                + "`: "@
                + source,
            ErrorView::InvalidLedger { path, source } => "runtime ledger `"@
                + path
                + "` is invalid JSON: "@
                + source,
            ErrorView::SerializeLedger { source } => "cannot serialize runtime ledger: "@
                + source,
            ErrorView::WriteLedger { path, source } => "cannot write runtime ledger `"@
                + path
                + "`: "@
                + source,
            ErrorView::UnsupportedVersion { actual, expected } => "runtime ledger version `"@
                + decimal(actual as nat)
                + "` is unsupported; expected `"@
                + decimal(expected as nat)
                + "`"@,
            ErrorView::LedgerMismatch { field, expected, actual } => "runtime ledger "@
                + field
                + " `"@
                + actual
                + "` does not match requested `"@
                + expected
                + "`"@,
            ErrorView::InterruptedProvisioning { task_id, stage } => "task `"@
                + task_id
                + "` has interrupted provisioning at stage `"@
                + stage.title()
                + "`; refusing a silent retry"@,
            ErrorView::WrongStage { task_id, expected, actual } => "task `"@
                + task_id
                + "` runtime stage is `"@
                + actual.title()
                + "`, expected `"@
                + expected.title()
                + "`"@,
            ErrorView::MissingHandle { task_id, field } => "task `"@
                + task_id
                + "` runtime is missing retained `"@
                + field
                + "`"@,
            ErrorView::HandleMismatch { task_id, detail } => "task `"@
                + task_id
                + "` retained handles disagree: "@
                + detail,
            ErrorView::Clock { source } => "system clock is before Unix epoch: "@
                + source,
        }
    }
}

impl Error {
    /// The message for an error.
    pub fn message(&self) -> (r: String)
        ensures
            r@ == self@.message(),
    {
        match self {
            Error::InvalidStateComponent { value } => {
                let mut m = "root task ID `".to_owned();
                m.append(value.as_str());
                m.append("` is not safe in a ledger path");
                m
            },
            Error::CreateStateDirectory { path, source } => {
                let mut m = "cannot create runtime state directory `".to_owned();
                m.append(path.as_str());
                m.append("`: ");
                m.append(source.as_str());
                m
            },
            Error::OpenLock { path, source } => {
                let mut m = "cannot open runtime ledger lock `".to_owned();
                m.append(path.as_str());
                m.append("`: ");
                m.append(source.as_str());
                m
            },
            Error::LockBusy { path, source } => {
                let mut m = "runtime ledger `".to_owned();
                m.append(path.as_str());
                m.append("` is locked by another finish process: ");
                m.append(source.as_str());
                m
            },
            Error::ReadLedger { path, source } => {
                let mut m = "cannot read runtime ledger `".to_owned();
                m.append(path.as_str());
                m.append("`: ");
                m.append(source.as_str());
                m
            },
            Error::InvalidLedger { path, source } => {
                let mut m = "runtime ledger `".to_owned();
                m.append(path.as_str());
                m.append("` is invalid JSON: ");
                m.append(source.as_str());
                m
            },
            Error::SerializeLedger { source } => {
                let mut m = "cannot serialize runtime ledger: ".to_owned();
                m.append(source.as_str());
                m
            },
            Error::WriteLedger { path, source } => {
                let mut m = "cannot write runtime ledger `".to_owned();
                m.append(path.as_str());
                m.append("`: ");
                m.append(source.as_str());
                m
            },
            Error::UnsupportedVersion { actual, expected } => {
                let mut m = "runtime ledger version `".to_owned();
                m.append(to_decimal(*actual as u64).as_str());
                m.append("` is unsupported; expected `");
                m.append(to_decimal(*expected as u64).as_str());
                m.append("`");
                m
            },
            Error::LedgerMismatch { field, expected, actual } => {
                let mut m = "runtime ledger ".to_owned();
                m.append(field);
                m.append(" `");
                m.append(actual.as_str());
                m.append("` does not match requested `");
                m.append(expected.as_str());
                m.append("`");
                m
            },
            Error::InterruptedProvisioning { task_id, stage } => {
                let mut m = "task `".to_owned();
                m.append(task_id.as_str());
                m.append("` has interrupted provisioning at stage `");
                m.append(stage.name());
                m.append("`; refusing a silent retry");
                m
            },
            Error::WrongStage { task_id, expected, actual } => {
                let mut m = "task `".to_owned();
                m.append(task_id.as_str());
                m.append("` runtime stage is `");
                m.append(actual.name());
                m.append("`, expected `");
                m.append(expected.name());
                m.append("`");
                m
            },
            Error::MissingHandle { task_id, field } => {
                let mut m = "task `".to_owned();
                m.append(task_id.as_str());
                m.append("` runtime is missing retained `");
                m.append(field);
                m.append("`");
                m
            },
            Error::HandleMismatch { task_id, detail } => {
                let mut m = "task `".to_owned();
                m.append(task_id.as_str());
                m.append("` retained handles disagree: ");
                m.append(detail.as_str());
                m
            },
            Error::Clock { source } => {
                let mut m = "system clock is before Unix epoch: ".to_owned();
                m.append(source.as_str());
                m
            },
        }
    }
}

// ---------------------------------------------------------------------------------------------
// Runtimes

/// What is retained of one task of a run.
#[derive(Debug)]
pub struct RuntimeRecord {
    pub task_id: String,
    pub stage: RuntimeStage,
    pub worktree: WorktreePlan,
    pub workspace_id: Option<String>,
    pub pane_id: Option<String>,
    pub worker_name: Option<String>,
    pub worker_identity: Option<Identity>,
    pub handoff_receipt: Option<String>,
    pub report_message_id: Option<String>,
    pub report: Option<WorkerReport>,
    pub last_observation_error: Option<String>,
    pub claimed_at_unix: u64,
    pub lease_started_at_unix: Option<u64>,
    pub lease_expires_at_unix: Option<u64>,
    pub heartbeat_at_unix: Option<u64>,
}

/// What a runtime says.
pub struct RecordView {
    pub task_id: Seq<char>,
    pub stage: RuntimeStage,
    pub worktree: WorktreeView,
    pub workspace_id: Option<Seq<char>>,
    pub pane_id: Option<Seq<char>>,
    pub worker_name: Option<Seq<char>>,
    pub worker_identity: Option<IdentityView>,
    pub handoff_receipt: Option<Seq<char>>,
    pub report_message_id: Option<Seq<char>>,
    pub report: Option<ReportView>,
    pub last_observation_error: Option<Seq<char>>,
    pub claimed_at_unix: u64,
    pub lease_started_at_unix: Option<u64>,
    pub lease_expires_at_unix: Option<u64>,
    pub heartbeat_at_unix: Option<u64>,
}

impl View for RuntimeRecord {
    type V = RecordView;

    open spec fn view(&self) -> RecordView {
        RecordView {
            task_id: self.task_id@,
            stage: self.stage,
            worktree: self.worktree@,
            workspace_id: shown(self.workspace_id),
            pane_id: shown(self.pane_id),
            worker_name: shown(self.worker_name),
            worker_identity: shown(self.worker_identity),
            handoff_receipt: shown(self.handoff_receipt),
            report_message_id: shown(self.report_message_id),
            report: shown(self.report),
            last_observation_error: shown(self.last_observation_error),
            claimed_at_unix: self.claimed_at_unix,
            lease_started_at_unix: self.lease_started_at_unix,
            lease_expires_at_unix: self.lease_expires_at_unix,
            heartbeat_at_unix: self.heartbeat_at_unix,
        }
    }
}

impl Clone for RuntimeRecord {
    fn clone(&self) -> (r: Self)
        ensures
            r@ == self@,
    {
        RuntimeRecord {
            task_id: self.task_id.clone(),
            stage: self.stage,
            worktree: self.worktree.clone(),
            workspace_id: self.workspace_id.clone(),
            pane_id: self.pane_id.clone(),
            worker_name: self.worker_name.clone(),
            worker_identity: match &self.worker_identity {
                Some(identity) => Some(identity.clone()),
                None => None,
            },
            handoff_receipt: self.handoff_receipt.clone(),
            report_message_id: self.report_message_id.clone(),
            report: match &self.report {
                Some(report) => Some(report.clone()),
                None => None,
            },
            last_observation_error: self.last_observation_error.clone(),
            claimed_at_unix: self.claimed_at_unix,
            lease_started_at_unix: self.lease_started_at_unix,
            lease_expires_at_unix: self.lease_expires_at_unix,
            heartbeat_at_unix: self.heartbeat_at_unix,
        }
    }
}

/// When a lease of some seconds ends.
pub open spec fn lease_end(now: u64, lease_seconds: u64) -> u64 {
    if now + lease_seconds > u64::MAX {
        u64::MAX
    } else {
        (now + lease_seconds) as u64
    }
}

/// The runtime of a task that was just claimed.
pub open spec fn claimed_record(worktree: WorktreeView, now: u64) -> RecordView {
    RecordView {
        task_id: worktree.task_id,
        stage: RuntimeStage::Claimed,
        worktree,
        workspace_id: None,
        pane_id: None,
        worker_name: None,
        worker_identity: None,
        handoff_receipt: None,
        report_message_id: None,
        report: None,
        last_observation_error: None,
        claimed_at_unix: now,
        lease_started_at_unix: None,
        lease_expires_at_unix: None,
        heartbeat_at_unix: None,
    }
}

/// The stage that a settled report leads to.
pub open spec fn settled_stage(status: ReportStatus) -> RuntimeStage {
    match status {
        ReportStatus::Completed => RuntimeStage::Completed,
        ReportStatus::Blocked => RuntimeStage::Blocked,
        ReportStatus::Failed => RuntimeStage::Failed,
    }
}

impl RecordView {
    /// The error for a stage that is not the expected one.
    pub open spec fn wrong_stage(self, expected: RuntimeStage) -> ErrorView {
        ErrorView::WrongStage { task_id: self.task_id, expected, actual: self.stage }
    }

    pub open spec fn missing(self, field: Seq<char>) -> ErrorView {
        ErrorView::MissingHandle { task_id: self.task_id, field }
    }

    pub open spec fn mismatch(self, detail: Seq<char>) -> ErrorView {
        ErrorView::HandleMismatch { task_id: self.task_id, detail }
    }

    /// After its workspace was created.
    pub open spec fn with_workspace(self, workspace: WorkspaceView) -> Result<
        RecordView,
        ErrorView,
    > {
        if self.stage != RuntimeStage::Claimed {
            Err(self.wrong_stage(RuntimeStage::Claimed))
        } else {
            Ok(
                RecordView {
                    workspace_id: Some(workspace.workspace_id),
                    pane_id: Some(workspace.pane_id),
                    stage: RuntimeStage::WorktreeCreated,
                    ..self
                },
            )
        }
    }

    /// After the queue was linked.
    pub open spec fn with_queue_link(self) -> Result<RecordView, ErrorView> {
        if self.stage != RuntimeStage::WorktreeCreated {
            Err(self.wrong_stage(RuntimeStage::WorktreeCreated))
        } else {
            Ok(RecordView { stage: RuntimeStage::QueueLinked, ..self })
        }
    }

    /// After its worker was started.
    pub open spec fn with_worker(self, worker: WorkerView) -> Result<RecordView, ErrorView> {
        if self.stage != RuntimeStage::QueueLinked {
            Err(self.wrong_stage(RuntimeStage::QueueLinked))
        } else if self.workspace_id != Some(worker.workspace_id) || self.pane_id != Some(
            worker.pane_id,
        ) {
            Err(self.mismatch("started worker does not match retained workspace and pane"@))
        } else {
            Ok(
                RecordView {
                    worker_name: Some(worker.name),
                    stage: RuntimeStage::WorkerStarted,
                    ..self
                },
            )
        }
    }

    /// After its worker was identified.
    pub open spec fn with_identity(self, identity: IdentityView) -> Result<RecordView, ErrorView> {
        if self.stage != RuntimeStage::WorkerStarted {
            Err(self.wrong_stage(RuntimeStage::WorkerStarted))
        } else {
            Ok(
                RecordView {
                    worker_identity: Some(identity),
                    stage: RuntimeStage::WorkerIdentified,
                    ..self
                },
            )
        }
    }

    /// After its handoff was sent.
    pub open spec fn with_handoff(self, receipt: Seq<char>) -> Result<RecordView, ErrorView> {
        if self.stage != RuntimeStage::WorkerIdentified {
            Err(self.wrong_stage(RuntimeStage::WorkerIdentified))
        } else if blank(receipt) {
            Err(self.mismatch("handoff receipt is empty"@))
        } else {
            Ok(
                RecordView {
                    handoff_receipt: Some(receipt),
                    stage: RuntimeStage::HandoffSent,
                    ..self
                },
            )
        }
    }

    /// After its worker was prompted: the lease starts.
    pub open spec fn activated(self, now: u64, lease_seconds: u64) -> Result<
        RecordView,
        ErrorView,
    > {
        if self.stage != RuntimeStage::HandoffSent {
            Err(self.wrong_stage(RuntimeStage::HandoffSent))
        } else {
            Ok(
                RecordView {
                    lease_started_at_unix: Some(now),
                    lease_expires_at_unix: Some(lease_end(now, lease_seconds)),
                    heartbeat_at_unix: Some(now),
                    stage: RuntimeStage::Active,
                    ..self
                },
            )
        }
    }

    /// After its worker was observed: the lease is renewed.
    pub open spec fn observed(self, now: u64, lease_seconds: u64) -> Result<RecordView, ErrorView> {
        if self.stage != RuntimeStage::Active {
            Err(self.wrong_stage(RuntimeStage::Active))
        } else {
            Ok(
                RecordView {
                    lease_expires_at_unix: Some(lease_end(now, lease_seconds)),
                    heartbeat_at_unix: Some(now),
                    last_observation_error: None,
                    ..self
                },
            )
        }
    }

    /// After its worker could not be observed: the lease runs on.
    pub open spec fn unobserved(self, detail: Seq<char>) -> Result<RecordView, ErrorView> {
        if self.stage != RuntimeStage::Active {
            Err(self.wrong_stage(RuntimeStage::Active))
        } else {
            Ok(RecordView { last_observation_error: Some(detail), ..self })
        }
    }

    /// After its report came in.
    pub open spec fn with_report(self, message_id: Seq<char>, report: ReportView) -> Result<
        RecordView,
        ErrorView,
    > {
        if self.stage != RuntimeStage::Active {
            Err(self.wrong_stage(RuntimeStage::Active))
        } else if blank(message_id) {
            Err(self.mismatch("worker report message ID is empty"@))
        } else {
            Ok(
                RecordView {
                    report_message_id: Some(message_id),
                    report: Some(report),
                    stage: RuntimeStage::ReportReceived,
                    ..self
                },
            )
        }
    }

    /// After its report was settled.
    pub open spec fn settled(self) -> Result<RecordView, ErrorView> {
        if self.stage != RuntimeStage::ReportReceived {
            Err(self.wrong_stage(RuntimeStage::ReportReceived))
        } else {
            match self.report {
                None => Err(self.mismatch("report status is missing"@)),
                Some(report) => Ok(
                    RecordView { stage: settled_stage(report.status), ..self },
                ),
            }
        }
    }

    /// A retained text, or the error where it is missing.
    pub open spec fn required(self, value: Option<Seq<char>>, field: Seq<char>) -> Result<
        Seq<char>,
        ErrorView,
    > {
        if value is Some && !blank(value->0) {
            Ok(value->0)
        } else {
            Err(self.missing(field))
        }
    }

    /// The retained workspace.
    pub open spec fn workspace(self) -> Result<WorkspaceView, ErrorView> {
        match self.required(self.workspace_id, "workspace_id"@) {
            Err(error) => Err(error),
            Ok(workspace_id) => match self.required(self.pane_id, "pane_id"@) {
                Err(error) => Err(error),
                Ok(pane_id) => Ok(WorkspaceView { workspace_id, pane_id }),
            },
        }
    }

    /// The retained worker.
    pub open spec fn worker(self) -> Result<WorkerView, ErrorView> {
        match self.workspace() {
            Err(error) => Err(error),
            Ok(workspace) => match self.required(self.worker_name, "worker_name"@) {
                Err(error) => Err(error),
                Ok(name) => Ok(
                    WorkerView {
                        name,
                        workspace_id: workspace.workspace_id,
                        pane_id: workspace.pane_id,
                    },
                ),
            },
        }
    }

    /// The retained identity of the worker.
    pub open spec fn identity(self) -> Result<IdentityView, ErrorView> {
        match self.worker_identity {
            Some(identity) => Ok(identity),
            None => Err(self.missing("worker_identity"@)),
        }
    }

    /// The retained receipt of the handoff.
    pub open spec fn receipt(self) -> Result<Seq<char>, ErrorView> {
        self.required(self.handoff_receipt, "handoff_receipt"@)
    }

    /// The lease has ended.
    pub open spec fn expired(self, now: u64) -> Result<bool, ErrorView> {
        match self.lease_expires_at_unix {
            Some(deadline) => Ok(now >= deadline),
            None => Err(self.missing("lease_expires_at_unix"@)),
        }
    }

    /// The report retained with a settled stage is the one that led to it.
    pub open spec fn retains_its_report(self) -> bool {
        &&& self.report_message_id is Some
        &&& self.report is Some
        &&& settled_stage(self.report->0.status) == self.stage
    }

    /// Why the runtime cannot be taken up again, where it cannot.
    pub open spec fn fault(self) -> Option<ErrorView> {
        let settled = self.stage is Completed || self.stage is Blocked || self.stage is Failed;
        if !self.stage.reconcilable() {
            Some(
                ErrorView::InterruptedProvisioning { task_id: self.task_id, stage: self.stage },
            )
        } else if settled && !self.retains_its_report() {
            Some(
                self.mismatch(
                    self.stage.title() + " runtime does not retain its matching worker report"@,
                ),
            )
        } else if self.stage is Completed {
            None
        } else if self.worker() is Err {
            Some(self.worker()->Err_0)
        } else if self.identity() is Err {
            Some(self.identity()->Err_0)
        } else if self.receipt() is Err {
            Some(self.receipt()->Err_0)
        } else if self.lease_started_at_unix is None || self.lease_expires_at_unix is None
            || self.heartbeat_at_unix is None {
            Some(self.missing("lease or heartbeat"@))
        } else if self.stage is ReportReceived && (self.report_message_id is None
            || self.report is None) {
            Some(self.missing("worker report"@))
        } else {
            None
        }
    }
}

/// A change of a runtime came out as it should: either the runtime changed, or the change was
/// refused and the runtime is as it was.
pub open spec fn changed(
    before: RecordView,
    after: RecordView,
    wanted: Result<RecordView, ErrorView>,
    r: Result<(), Error>,
) -> bool {
    match wanted {
        Ok(record) => r is Ok && after == record,
        Err(error) => r is Err && r->Err_0@ == error && after == before,
    }
}

impl RuntimeRecord {
    /// The runtime of a task that was just claimed.
    pub fn claimed(worktree: WorktreePlan, now: u64) -> (r: RuntimeRecord)
        ensures
            r@ == claimed_record(worktree@, now),
    {
        RuntimeRecord {
            task_id: worktree.task_id.clone(),
            stage: RuntimeStage::Claimed,
            worktree,
            workspace_id: None,
            pane_id: None,
            worker_name: None,
            worker_identity: None,
            handoff_receipt: None,
            report_message_id: None,
            report: None,
            last_observation_error: None,
            claimed_at_unix: now,
            lease_started_at_unix: None,
            lease_expires_at_unix: None,
            heartbeat_at_unix: None,
        }
    }

    /// Retains the workspace that was created.
    pub fn record_workspace(&mut self, workspace: &WorkerWorkspace) -> (r: Result<(), Error>)
        ensures
            changed(old(self)@, final(self)@, old(self)@.with_workspace(workspace@), r),
    {
        self.require_stage(RuntimeStage::Claimed)?;
        self.workspace_id = Some(workspace.workspace_id.clone());
        self.pane_id = Some(workspace.pane_id.clone());
        self.stage = RuntimeStage::WorktreeCreated;
        Ok(())
    }

    /// Retains that the queue was linked.
    pub fn record_queue_link(&mut self) -> (r: Result<(), Error>)
        ensures
            changed(old(self)@, final(self)@, old(self)@.with_queue_link(), r),
    {
        self.require_stage(RuntimeStage::WorktreeCreated)?;
        self.stage = RuntimeStage::QueueLinked;
        Ok(())
    }

    /// Retains the worker that was started.
    pub fn record_worker(&mut self, worker: &Worker) -> (r: Result<(), Error>)
        ensures
            changed(old(self)@, final(self)@, old(self)@.with_worker(worker@), r),
    {
        self.require_stage(RuntimeStage::QueueLinked)?;
        if !holds(&self.workspace_id, worker.workspace_id.as_str()) || !holds(
            &self.pane_id,
            worker.pane_id.as_str(),
        ) {
            return Err(
                Error::HandleMismatch {
                    task_id: self.task_id.clone(),
                    detail: "started worker does not match retained workspace and pane".to_owned(),
                },
            );
        }
        self.worker_name = Some(worker.name.clone());
        self.stage = RuntimeStage::WorkerStarted;
        Ok(())
    }

    /// Retains the identity of the worker.
    pub fn record_identity(&mut self, identity: Identity) -> (r: Result<(), Error>)
        ensures
            changed(old(self)@, final(self)@, old(self)@.with_identity(identity@), r),
    {
        self.require_stage(RuntimeStage::WorkerStarted)?;
        self.worker_identity = Some(identity);
        self.stage = RuntimeStage::WorkerIdentified;
        Ok(())
    }

    /// Retains the receipt of the handoff.
    pub fn record_handoff(&mut self, receipt: String) -> (r: Result<(), Error>)
        ensures
            changed(old(self)@, final(self)@, old(self)@.with_handoff(receipt@), r),
    {
        self.require_stage(RuntimeStage::WorkerIdentified)?;
        if is_blank(receipt.as_str()) {
            return Err(
                Error::HandleMismatch {
                    task_id: self.task_id.clone(),
                    detail: "handoff receipt is empty".to_owned(),
                },
            );
        }
        self.handoff_receipt = Some(receipt);
        self.stage = RuntimeStage::HandoffSent;
        Ok(())
    }

    /// Starts the lease of a worker that was prompted.
    pub fn activate(&mut self, now: u64, lease_seconds: u64) -> (r: Result<(), Error>)
        ensures
            changed(old(self)@, final(self)@, old(self)@.activated(now, lease_seconds), r),
    {
        self.require_stage(RuntimeStage::HandoffSent)?;
        self.lease_started_at_unix = Some(now);
        self.lease_expires_at_unix = Some(now.saturating_add(lease_seconds));
        self.heartbeat_at_unix = Some(now);
        self.stage = RuntimeStage::Active;
        Ok(())
    }

    /// Renews the lease of a worker that was observed.
    pub fn heartbeat(&mut self, now: u64, lease_seconds: u64) -> (r: Result<(), Error>)
        ensures
            changed(old(self)@, final(self)@, old(self)@.observed(now, lease_seconds), r),
    {
        self.require_stage(RuntimeStage::Active)?;
        self.lease_expires_at_unix = Some(now.saturating_add(lease_seconds));
        self.heartbeat_at_unix = Some(now);
        self.last_observation_error = None;
        Ok(())
    }

    /// Retains why a worker could not be observed.
    pub fn record_observation_error(&mut self, detail: String) -> (r: Result<(), Error>)
        ensures
            changed(old(self)@, final(self)@, old(self)@.unobserved(detail@), r),
    {
        self.require_stage(RuntimeStage::Active)?;
        self.last_observation_error = Some(detail);
        Ok(())
    }

    /// Retains the report that came in.
    pub fn record_report(&mut self, message_id: String, report: WorkerReport) -> (r: Result<
        (),
        Error,
    >)
        ensures
            changed(old(self)@, final(self)@, old(self)@.with_report(message_id@, report@), r),
    {
        self.require_stage(RuntimeStage::Active)?;
        if is_blank(message_id.as_str()) {
            return Err(
                Error::HandleMismatch {
                    task_id: self.task_id.clone(),
                    detail: "worker report message ID is empty".to_owned(),
                },
            );
        }
        self.report_message_id = Some(message_id);
        self.report = Some(report);
        self.stage = RuntimeStage::ReportReceived;
        Ok(())
    }

    /// Settles the report that came in.
    pub fn settle_report(&mut self) -> (r: Result<(), Error>)
        ensures
            changed(old(self)@, final(self)@, old(self)@.settled(), r),
    {
        self.require_stage(RuntimeStage::ReportReceived)?;
        let status = match &self.report {
            Some(report) => report.status,
            None => {
                return Err(
                    Error::HandleMismatch {
                        task_id: self.task_id.clone(),
                        detail: "report status is missing".to_owned(),
                    },
                );
            },
        };
        self.stage = match status {
            ReportStatus::Completed => RuntimeStage::Completed,
            ReportStatus::Blocked => RuntimeStage::Blocked,
            ReportStatus::Failed => RuntimeStage::Failed,
        };
        Ok(())
    }

    /// The retained workspace.
    pub fn workspace(&self) -> (r: Result<WorkerWorkspace, Error>)
        ensures
            seen(r) == self@.workspace(),
    {
        let workspace_id = self.required(&self.workspace_id, "workspace_id")?;
        let pane_id = self.required(&self.pane_id, "pane_id")?;
        Ok(WorkerWorkspace { workspace_id: workspace_id.to_owned(), pane_id: pane_id.to_owned() })
    }

    /// The retained worker.
    pub fn worker(&self) -> (r: Result<Worker, Error>)
        ensures
            seen(r) == self@.worker(),
    {
        let workspace = self.workspace()?;
        let name = self.required(&self.worker_name, "worker_name")?;
        Ok(
            Worker {
                name: name.to_owned(),
                workspace_id: workspace.workspace_id,
                pane_id: workspace.pane_id,
            },
        )
    }

    /// The retained identity of the worker.
    pub fn identity(&self) -> (r: Result<&Identity, Error>)
        ensures
            seen(r) == self@.identity(),
    {
        match &self.worker_identity {
            Some(identity) => Ok(identity),
            None => Err(
                Error::MissingHandle { task_id: self.task_id.clone(), field: "worker_identity" },
            ),
        }
    }

    /// The retained receipt of the handoff.
    pub fn receipt(&self) -> (r: Result<&str, Error>)
        ensures
            seen(r) == self@.receipt(),
    {
        self.required(&self.handoff_receipt, "handoff_receipt")
    }

    /// Whether the lease has ended.
    pub fn lease_expired(&self, now: u64) -> (r: Result<bool, Error>)
        ensures
            match self@.expired(now) {
                Ok(yes) => r == Ok::<bool, Error>(yes),
                Err(error) => r matches Err(e) && e@ == error,
            },
    {
        match self.lease_expires_at_unix {
            Some(deadline) => Ok(now >= deadline),
            None => Err(
                Error::MissingHandle {
                    task_id: self.task_id.clone(),
                    field: "lease_expires_at_unix",
                },
            ),
        }
    }

    /// Refuses a runtime that cannot be taken up again.
    pub fn validate_reconcilable(&self) -> (r: Result<(), Error>)
        ensures
            match self@.fault() {
                None => r is Ok,
                Some(error) => r matches Err(e) && e@ == error,
            },
    {
        if !self.stage.is_reconcilable() {
            return Err(
                Error::InterruptedProvisioning {
                    task_id: self.task_id.clone(),
                    stage: self.stage,
                },
            );
        }
        let expected = match self.stage {
            RuntimeStage::Completed => Some(ReportStatus::Completed),
            RuntimeStage::Blocked => Some(ReportStatus::Blocked),
            RuntimeStage::Failed => Some(ReportStatus::Failed),
            _ => None,
        };
        if let Some(expected) = expected {
            let retained = match &self.report {
                Some(report) => report.status == expected,
                None => false,
            };
            if self.report_message_id.is_none() || !retained {
                let mut detail = self.stage.name().to_owned();
                detail.append(" runtime does not retain its matching worker report");
                return Err(Error::HandleMismatch { task_id: self.task_id.clone(), detail });
            }
            if self.stage == RuntimeStage::Completed {
                return Ok(());
            }
        }
        self.worker()?;
        self.identity()?;
        self.receipt()?;
        if self.lease_started_at_unix.is_none() || self.lease_expires_at_unix.is_none()
            || self.heartbeat_at_unix.is_none() {
            return Err(
                Error::MissingHandle { task_id: self.task_id.clone(), field: "lease or heartbeat" },
            );
        }
        if self.stage == RuntimeStage::ReportReceived && (self.report_message_id.is_none()
            || self.report.is_none()) {
            return Err(
                Error::MissingHandle { task_id: self.task_id.clone(), field: "worker report" },
            );
        }
        Ok(())
    }

    /// A retained text that must be there.
    fn required<'a>(&self, value: &'a Option<String>, field: &'static str) -> (r: Result<
        &'a str,
        Error,
    >)
        ensures
            seen(r) == self@.required(shown(*value), field@),
    {
        if let Some(text) = value {
            if !is_blank(text.as_str()) {
                return Ok(text.as_str());
            }
        }
        Err(Error::MissingHandle { task_id: self.task_id.clone(), field })
    }

    /// Refuses a stage that is not the expected one.
    fn require_stage(&self, expected: RuntimeStage) -> (r: Result<(), Error>)
        ensures
            r is Ok <==> self@.stage == expected,
            r matches Err(e) ==> e@ == self@.wrong_stage(expected),
    {
        if self.stage == expected {
            Ok(())
        } else {
            Err(
                Error::WrongStage { task_id: self.task_id.clone(), expected, actual: self.stage },
            )
        }
    }
}

/// Whether an optional text is there and is the expected one.
fn holds(value: &Option<String>, expected: &str) -> (r: bool)
    ensures
        r == (shown(*value) == Some(expected@)),
{
    match value {
        Some(text) => same(text.as_str(), expected),
        None => false,
    }
}

// ---------------------------------------------------------------------------------------------
// Ledgers

/// What is retained of a run.
#[derive(Debug)]
pub struct RunLedger {
    pub version: u32,
    pub run_id: String,
    pub root_task_id: String,
    pub queue: String,
    pub repo: String,
    pub worktree_root: String,
    pub plan: PlanSnapshot,
    pub orchestrator: Identity,
    pub created_at_unix: u64,
    pub runtimes: Table<RuntimeRecord>,
}

/// What a ledger says.
pub struct LedgerView {
    pub version: u32,
    pub run_id: Seq<char>,
    pub root_task_id: Seq<char>,
    pub queue: Seq<char>,
    pub repo: Seq<char>,
    pub worktree_root: Seq<char>,
    pub plan: SnapshotView,
    pub orchestrator: IdentityView,
    pub created_at_unix: u64,
    pub runtimes: Map<Seq<char>, RecordView>,
}

impl View for RunLedger {
    type V = LedgerView;

    open spec fn view(&self) -> LedgerView {
        LedgerView {
            version: self.version,
            run_id: self.run_id@,
            root_task_id: self.root_task_id@,
            queue: self.queue@,
            repo: self.repo@,
            worktree_root: self.worktree_root@,
            plan: self.plan@,
            orchestrator: self.orchestrator@,
            created_at_unix: self.created_at_unix,
            runtimes: values_seen(self.runtimes@),
        }
    }
}

impl LedgerView {
    /// Why the runtime of a task cannot be taken up again, where it cannot.
    pub open spec fn runtime_fault(self, task_id: Seq<char>) -> Option<ErrorView> {
        let runtime = self.runtimes[task_id];
        if runtime.task_id != task_id || runtime.worktree.task_id != task_id {
            Some(
                ErrorView::HandleMismatch {
                    task_id,
                    detail: "runtime map key and retained task IDs disagree"@,
                },
            )
        } else {
            runtime.fault()
        }
    }

    /// Why the run cannot be taken up again for a root with its paths, where it cannot.
    pub open spec fn fault(
        self,
        root_task_id: Seq<char>,
        queue: Seq<char>,
        repo: Seq<char>,
        worktree_root: Seq<char>,
    ) -> Option<ErrorView> {
        if self.version != LEDGER_VERSION {
            Some(
                ErrorView::UnsupportedVersion { actual: self.version, expected: LEDGER_VERSION },
            )
        } else if self.root_task_id != root_task_id {
            Some(
                ErrorView::LedgerMismatch {
                    field: "root_task_id"@,
                    expected: root_task_id,
                    actual: self.root_task_id,
                },
            )
        } else if self.queue != queue {
            Some(
                ErrorView::LedgerMismatch { field: "queue"@, expected: queue, actual: self.queue },
            )
        } else if self.repo != repo {
            Some(
                ErrorView::LedgerMismatch { field: "repo"@, expected: repo, actual: self.repo },
            )
        } else if self.worktree_root != worktree_root {
            Some(
                ErrorView::LedgerMismatch {
                    field: "worktree_root"@,
                    expected: worktree_root,
                    actual: self.worktree_root,
                },
            )
        } else {
            first_fault(self.runtimes.dom(), |id: Seq<char>| self.runtime_fault(id))
        }
    }

    /// Every task that was claimed is completed.
    pub open spec fn complete(self) -> bool {
        forall|id: Seq<char>| #[trigger]
            self.runtimes.contains_key(id) ==> self.runtimes[id].stage == RuntimeStage::Completed
    }

    /// With the runtime of a task as it is now.
    pub open spec fn with_runtime(self, task_id: Seq<char>, runtime: RecordView) -> LedgerView {
        LedgerView { runtimes: self.runtimes.insert(task_id, runtime), ..self }
    }
}

/// Refuses a retained text that is not the requested one.
fn require_same(field: &'static str, expected: &str, actual: &str) -> (r: Result<(), Error>)
    ensures
        r is Ok <==> actual@ == expected@,
        r matches Err(e) ==> e@ == (ErrorView::LedgerMismatch {
            field: field@,
            expected: expected@,
            actual: actual@,
        }),
{
    if same(actual, expected) {
        Ok(())
    } else {
        Err(
            Error::LedgerMismatch {
                field,
                expected: expected.to_owned(),
                actual: actual.to_owned(),
            },
        )
    }
}

impl RunLedger {
    /// The ledger of a run that claimed nothing yet.
    pub fn new(
        run_id: String,
        root_task_id: String,
        queue: String,
        repo: String,
        worktree_root: String,
        plan: PlanSnapshot,
        orchestrator: Identity,
        now: u64,
    ) -> (r: RunLedger)
        ensures
            r@ == (LedgerView {
                version: LEDGER_VERSION,
                run_id: run_id@,
                root_task_id: root_task_id@,
                queue: queue@,
                repo: repo@,
                worktree_root: worktree_root@,
                plan: plan@,
                orchestrator: orchestrator@,
                created_at_unix: now,
                runtimes: Map::empty(),
            }),
    {
        let runtimes: Table<RuntimeRecord> = Table::new();
        assert(values_seen(runtimes@) =~= Map::<Seq<char>, RecordView>::empty());
        RunLedger {
            version: LEDGER_VERSION,
            run_id,
            root_task_id,
            queue,
            repo,
            worktree_root,
            plan,
            orchestrator,
            created_at_unix: now,
            runtimes,
        }
    }

    /// Refuses a ledger of another version or another run, and one with a runtime that cannot be
    /// taken up again.
    pub fn validate(&self, root_task_id: &str, queue: &str, repo: &str, worktree_root: &str) -> (r:
        Result<(), Error>)
        ensures
            match self@.fault(root_task_id@, queue@, repo@, worktree_root@) {
                None => r is Ok,
                Some(error) => r matches Err(e) && e@ == error,
            },
    {
        if self.version != LEDGER_VERSION {
            return Err(
                Error::UnsupportedVersion { actual: self.version, expected: LEDGER_VERSION },
            );
        }
        require_same("root_task_id", root_task_id, self.root_task_id.as_str())?;
        require_same("queue", queue, self.queue.as_str())?;
        require_same("repo", repo, self.repo.as_str())?;
        require_same("worktree_root", worktree_root, self.worktree_root.as_str())?;
        let keys = self.runtimes.key_list();
        let ghost ids = texts(keys@);
        let ghost fault = |id: Seq<char>| self@.runtime_fault(id);
        assert(ids.to_set() =~= self@.runtimes.dom());
        let mut i: usize = 0;
        while i < keys.len()
            invariant
                i <= keys.len(),
                ids == texts(keys@),
                ascending(ids),
                ids.to_set() == self@.runtimes.dom(),
                fault == (|id: Seq<char>| self@.runtime_fault(id)),
                forall|j: int| 0 <= j < i ==> fault(#[trigger] ids[j]) is None,
                self@.fault(root_task_id@, queue@, repo@, worktree_root@) == first_fault(
                    self@.runtimes.dom(),
                    fault,
                ),
            decreases keys.len() - i,
        {
            let task_id = keys[i].as_str();
            assert(ids.to_set().contains(ids[i as int]));
            let runtime = self.runtimes.get(task_id).unwrap();
            if !same(runtime.task_id.as_str(), task_id) || !same(
                runtime.worktree.task_id.as_str(),
                task_id,
            ) {
                proof {
                    first_in_order(ids, fault, i as int);
                }
                return Err(
                    Error::HandleMismatch {
                        task_id: task_id.to_owned(),
                        detail: "runtime map key and retained task IDs disagree".to_owned(),
                    },
                );
            }
            if let Err(error) = runtime.validate_reconcilable() {
                proof {
                    first_in_order(ids, fault, i as int);
                }
                return Err(error);
            }
            i += 1;
        }
        proof {
            first_in_order(ids, fault, i as int);
        }
        Ok(())
    }

    /// Whether every task that was claimed is completed.
    pub fn is_complete(&self) -> (r: bool)
        ensures
            r == self@.complete(),
    {
        let mut i: usize = 0;
        while i < self.runtimes.len()
            invariant
                i <= self.runtimes.rows().len(),
                forall|j: int|
                    0 <= j < i ==> (#[trigger] self.runtimes.rows()[j]).value.stage
                        == RuntimeStage::Completed,
            decreases self.runtimes.rows().len() - i,
        {
            let row = self.runtimes.row(i);
            if !row.value.stage.is_complete() {
                assert(self@.runtimes.contains_key(row.key@));
                assert(self@.runtimes[row.key@].stage != RuntimeStage::Completed);
                return false;
            }
            i += 1;
        }
        assert forall|id: Seq<char>| #[trigger]
            self@.runtimes.contains_key(id) implies self@.runtimes[id].stage
            == RuntimeStage::Completed by {
            assert(self.runtimes@.contains_key(id));
        }
        true
    }

    /// Puts the runtime of a task in place of the one that it had.
    pub fn set_runtime(&mut self, task_id: String, runtime: RuntimeRecord)
        ensures
            final(self)@ == old(self)@.with_runtime(task_id@, runtime@),
    {
        proof {
            values_seen_insert(self.runtimes@, task_id@, runtime);
        }
        self.runtimes.insert(task_id, runtime);
    }
}

// ---------------------------------------------------------------------------------------------
// Where ledgers are kept

/// The file that holds the ledger of a root.
pub open spec fn ledger_file(directory: Seq<char>, root: Seq<char>) -> Seq<char> {
    below(directory, root + ".json"@)
}

/// The file that is locked while the ledger of a root is used.
pub open spec fn lock_file(directory: Seq<char>, root: Seq<char>) -> Seq<char> {
    below(directory, root + ".lock"@)
}

/// The file that a process writes before it takes the place of the ledger of a root.
pub open spec fn temp_file(directory: Seq<char>, root: Seq<char>, process_id: u32) -> Seq<char> {
    below(directory, "."@ + root + ".json."@ + decimal(process_id as nat) + ".tmp"@)
}

/// Where the ledger of a root is kept.
#[derive(Debug)]
pub struct LedgerStore {
    directory: String,
    root_task_id: String,
}

impl LedgerStore {
    pub closed spec fn state_dir(self) -> Seq<char> {
        self.directory@
    }

    pub closed spec fn root(self) -> Seq<char> {
        self.root_task_id@
    }

    /// The store in a directory for the ledger of a root whose ID can be the name of a file.
    pub fn acquire(state_dir: &str, root_task_id: &str) -> (r: Result<LedgerStore, Error>)
        ensures
            match r {
                Ok(store) => safe_in_path(root_task_id@) && store.state_dir() == state_dir@
                    && store.root() == root_task_id@,
                Err(e) => !safe_in_path(root_task_id@) && e@ == (ErrorView::InvalidStateComponent {
                    value: root_task_id@,
                }),
            },
    {
        validate_state_component(root_task_id)?;
        Ok(
            LedgerStore {
                directory: state_dir.to_owned(),
                root_task_id: root_task_id.to_owned(),
            },
        )
    }

    /// The file that holds the ledger.
    pub fn path(&self) -> (r: String)
        ensures
            r@ == ledger_file(self.state_dir(), self.root()),
    {
        let mut name = self.root_task_id.clone();
        name.append(".json");
        path_below(self.directory.as_str(), name.as_str())
    }

    /// The file that is locked while the ledger is used.
    pub fn lock_path(&self) -> (r: String)
        ensures
            r@ == lock_file(self.state_dir(), self.root()),
    {
        let mut name = self.root_task_id.clone();
        name.append(".lock");
        path_below(self.directory.as_str(), name.as_str())
    }

    /// The file that a process writes before it takes the place of the ledger.
    pub fn temp_path(&self, process_id: u32) -> (r: String)
        ensures
            r@ == temp_file(self.state_dir(), self.root(), process_id),
    {
        let mut name = ".".to_owned();
        name.append(self.root_task_id.as_str());
        name.append(".json.");
        name.append(to_decimal(process_id as u64).as_str());
        name.append(".tmp");
        path_below(self.directory.as_str(), name.as_str())
    }

    /// The directory that holds the ledger.
    pub fn directory(&self) -> (r: &str)
        ensures
            r@ == self.state_dir(),
    {
        self.directory.as_str()
    }
}

/// Refuses an ID that cannot be the name of a file.
fn validate_state_component(value: &str) -> (r: Result<(), Error>)
    ensures
        r is Ok <==> safe_in_path(value@),
        r matches Err(e) ==> e@ == (ErrorView::InvalidStateComponent { value: value@ }),
{
    if is_safe_in_path(value) {
        Ok(())
    } else {
        Err(Error::InvalidStateComponent { value: value.to_owned() })
    }
}

/// The time, where the clock of the system is not before the epoch.
pub fn now_unix(since_epoch: Result<u64, String>) -> (r: Result<u64, Error>)
    ensures
        match since_epoch {
            Ok(seconds) => r == Ok::<u64, Error>(seconds),
            Err(source) => r matches Err(e) && e@ == (ErrorView::Clock { source: source@ }),
        },
{
    match since_epoch {
        Ok(seconds) => Ok(seconds),
        Err(source) => Err(Error::Clock { source }),
    }
}

/// The ID of a run: a hash of its root, the process that starts it, and the time.
pub open spec fn run_id_for(root_task_id: Seq<char>, process_id: u32, nanoseconds: u128) -> Seq<
    char,
> {
    "run-"@ + hex(
        hash_of(
            encode_utf8(root_task_id) + little_endian(process_id as nat, 4) + little_endian(
                nanoseconds as nat,
                16,
            ),
        ) as nat,
        16,
    )
}

/// The ID of a run: a hash of its root, the process that starts it, and the time.
pub fn new_run_id(root_task_id: &str, process_id: u32, since_epoch: Result<u128, String>) -> (r:
    Result<String, Error>)
    ensures
        match since_epoch {
            Ok(nanoseconds) => r matches Ok(id) && id@ == run_id_for(
                root_task_id@,
                process_id,
                nanoseconds,
            ),
            Err(source) => r matches Err(e) && e@ == (ErrorView::Clock { source: source@ }),
        },
{
    match since_epoch {
        Err(source) => Err(Error::Clock { source }),
        Ok(nanoseconds) => {
            let hash: u64 = absorb_all(BASIS, root_task_id.as_bytes());
            let hash: u64 = absorb_number(hash, process_id as u128, 4);
            let hash: u64 = absorb_number(hash, nanoseconds, 16);
            proof {
                let a = encode_utf8(root_task_id@);
                let b = little_endian(process_id as nat, 4);
                let c = little_endian(nanoseconds as nat, 16);
                hash_continues(BASIS, a, b);
                hash_continues(BASIS, a + b, c);
            }
            let mut id = "run-".to_owned();
            id.append(to_hex(hash, 16).as_str());
            Ok(id)
        },
    }
}

// ---------------------------------------------------------------------------------------------
// Laws

/// What a run does for a task leads from the claim to an active runtime that can be taken up again,
/// with everything retained that it is taken up by.
pub proof fn provisioned_runtimes_can_be_resumed(
    worktree: WorktreeView,
    worker: WorkerView,
    identity: IdentityView,
    receipt: Seq<char>,
    claimed_at: u64,
    activated_at: u64,
    lease_seconds: u64,
)
    requires
        !blank(worker.workspace_id),
        !blank(worker.pane_id),
        !blank(worker.name),
        !blank(receipt),
    ensures
        ({
            let workspace = WorkspaceView {
                workspace_id: worker.workspace_id,
                pane_id: worker.pane_id,
            };
            let created = claimed_record(worktree, claimed_at).with_workspace(workspace)->Ok_0;
            let started = created.with_queue_link()->Ok_0.with_worker(worker)->Ok_0;
            let handed = started.with_identity(identity)->Ok_0.with_handoff(receipt)->Ok_0;
            let active = handed.activated(activated_at, lease_seconds)->Ok_0;
            &&& active.stage == RuntimeStage::Active
            &&& active.fault() is None
            &&& active.worker() == Ok::<WorkerView, ErrorView>(worker)
            &&& active.identity() == Ok::<IdentityView, ErrorView>(identity)
            &&& active.receipt() == Ok::<Seq<char>, ErrorView>(receipt)
            &&& active.worktree == worktree
            &&& active.claimed_at_unix == claimed_at
        }),
{
}

/// A runtime whose provisioning was interrupted is never taken up again.
pub proof fn interrupted_runtimes_are_refused(record: RecordView)
    requires
        record.stage is Claimed || record.stage is WorktreeCreated || record.stage is QueueLinked
            || record.stage is WorkerStarted || record.stage is WorkerIdentified
            || record.stage is HandoffSent,
    ensures
        record.fault() == Some(
            ErrorView::InterruptedProvisioning { task_id: record.task_id, stage: record.stage },
        ),
{
}

/// An observed worker keeps its lease for exactly the seconds of the lease, as far as the clock
/// reaches.
pub proof fn observation_renews_the_lease(record: RecordView, now: u64, lease_seconds: u64, at: u64)
    requires
        record.stage is Active,
        now + lease_seconds <= u64::MAX,
    ensures
        record.observed(now, lease_seconds) matches Ok(after) && after.stage is Active
            && after.last_observation_error is None && after.expired(at) == Ok::<bool, ErrorView>(
            at >= now + lease_seconds,
        ),
{
}

/// A failed observation leaves the lease as it is.
pub proof fn failed_observation_keeps_the_lease(record: RecordView, detail: Seq<char>, at: u64)
    requires
        record.stage is Active,
    ensures
        record.unobserved(detail) matches Ok(after) && after.stage is Active && after.expired(at)
            == record.expired(at),
{
}

/// A runtime is completed only by settling a report of completion, which it then retains.
pub proof fn completion_retains_its_report(record: RecordView)
    requires
        record.settled() is Ok,
        record.report_message_id is Some,
    ensures
        record.settled()->Ok_0.retains_its_report(),
        record.settled()->Ok_0.stage is Completed <==> record.report->0.status
            == ReportStatus::Completed,
{
}

/// No other change leads to a completed runtime.
pub proof fn only_settling_completes(
    record: RecordView,
    workspace: WorkspaceView,
    worker: WorkerView,
    identity: IdentityView,
    text: Seq<char>,
    report: ReportView,
    now: u64,
    lease_seconds: u64,
)
    ensures
        record.with_workspace(workspace) matches Ok(after) ==> !(after.stage is Completed),
        record.with_queue_link() matches Ok(after) ==> !(after.stage is Completed),
        record.with_worker(worker) matches Ok(after) ==> !(after.stage is Completed),
        record.with_identity(identity) matches Ok(after) ==> !(after.stage is Completed),
        record.with_handoff(text) matches Ok(after) ==> !(after.stage is Completed),
        record.activated(now, lease_seconds) matches Ok(after) ==> !(after.stage is Completed),
        record.observed(now, lease_seconds) matches Ok(after) ==> !(after.stage is Completed),
        record.unobserved(text) matches Ok(after) ==> !(after.stage is Completed),
        record.with_report(text, report) matches Ok(after) ==> !(after.stage is Completed),
{
}

/// Every runtime of a ledger that is accepted can be taken up again, under the ID of its task.
pub proof fn accepted_ledgers_can_be_resumed(
    ledger: LedgerView,
    root_task_id: Seq<char>,
    queue: Seq<char>,
    repo: Seq<char>,
    worktree_root: Seq<char>,
    task_id: Seq<char>,
)
    requires
        ledger.runtimes.dom().finite(),
        ledger.fault(root_task_id, queue, repo, worktree_root) is None,
        ledger.runtimes.contains_key(task_id),
    ensures
        ledger.root_task_id == root_task_id,
        ledger.runtimes[task_id].task_id == task_id,
        ledger.runtimes[task_id].worktree.task_id == task_id,
        ledger.runtimes[task_id].fault() is None,
{
    let fault = |id: Seq<char>| ledger.runtime_fault(id);
    if fault(task_id) is Some {
        first_fault_exists(ledger.runtimes.dom(), fault, task_id);
    }
}

} // verus!
