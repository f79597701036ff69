//! One pass over a run: it reconciles what is retained with the queue, the mail and the workers,
//! and then hands the ready tasks to new workers. The pass decides; what it decides on is done
//! outside, one action after the other, and its outcome comes back as an event.
use vstd::prelude::*;
use crate::finish::{
    completed, completion_ready, orphan_error, plan_refused, refusal, reject_orphaned_in_progress,
    stop_error, worker_stop_error, Error, ErrorView, FinishStatus,
};
use crate::herdr;
use crate::herdr::{
    disposition_of, reconcile_worker, AgentStatus, Worker, WorkerDisposition, WorkerView,
    WorkerWorkspace, WorkspaceView,
};
use crate::identity;
use crate::identity::{Identity, IdentityView};
use crate::mail;
use crate::mail::{
    reconcile_report, reconciled, Handoff, HandoffView, ReportDisposition, ReportStatus, ReportView,
    WorkerReport,
};
use crate::outcome::{seen, shown};
use crate::runtime;
use crate::runtime::{
    claimed_record, LedgerView, RecordView, RunLedger, RuntimeRecord, RuntimeStage,
};
use crate::sq;
use crate::sq::{PlanSnapshot, PlanView, ScopedPlan, SnapshotView, TaskStatus, TaskView};
use crate::table::listed;
use crate::text::texts;
use crate::worktree;
use crate::worktree::{
    delivered, report_deliverable, Deliverable, DeliverableView, WorktreePlan, WorktreeView,
};

verus! {

// ---------------------------------------------------------------------------------------------
// Events

/// A report as it came in.
#[derive(Debug)]
pub struct Received {
    pub message_id: String,
    pub report: WorkerReport,
}

/// What a report that came in says.
pub struct ReceivedView {
    pub message_id: Seq<char>,
    pub report: ReportView,
}

impl View for Received {
    type V = ReceivedView;

    open spec fn view(&self) -> ReceivedView {
        ReceivedView { message_id: self.message_id@, report: self.report@ }
    }
}

/// The outcome of an action.
pub enum Event {
    /// The plan that the queue holds.
    Plan(Result<ScopedPlan, sq::Error>),
    /// A check of a worktree or a deliverable, or the link of the queue.
    Checked(Result<(), worktree::Error>),
    /// The report that is announced in the unread mail.
    Scanned(Result<Option<Received>, mail::Error>),
    /// A message was marked as read.
    Marked(Result<(), mail::Error>),
    /// The ledger was saved.
    Saved(Result<(), runtime::Error>),
    /// The agent that works in a worktree.
    Discovered(Result<Identity, identity::Error>),
    /// The state of a worker.
    Observed(Result<AgentStatus, herdr::Error>),
    /// The time.
    Clock(Result<u64, runtime::Error>),
    /// The plan for a worktree.
    Worktree(Result<WorktreePlan, worktree::Error>),
    /// The workspace that was created.
    Workspace(Result<WorkerWorkspace, herdr::Error>),
    /// The worker that was started.
    Started(Result<Worker, herdr::Error>),
    /// The ID of the handoff that was sent.
    Sent(Result<String, mail::Error>),
    /// A worker was prompted.
    Prompted(Result<(), herdr::Error>),
}

/// What an event says.
pub enum EventView {
    Plan(Result<PlanView, sq::ErrorView>),
    Checked(Result<(), worktree::ErrorView>),
    Scanned(Result<Option<ReceivedView>, mail::ErrorView>),
    Marked(Result<(), mail::ErrorView>),
    Saved(Result<(), runtime::ErrorView>),
    Discovered(Result<IdentityView, identity::ErrorView>),
    Observed(Result<AgentStatus, herdr::ErrorView>),
    Clock(Result<u64, runtime::ErrorView>),
    Worktree(Result<WorktreeView, worktree::ErrorView>),
    Workspace(Result<WorkspaceView, herdr::ErrorView>),
    Started(Result<WorkerView, herdr::ErrorView>),
    Sent(Result<Seq<char>, mail::ErrorView>),
    Prompted(Result<(), herdr::ErrorView>),
}

impl View for Event {
    type V = EventView;

    open spec fn view(&self) -> EventView {
        match *self {
            Event::Plan(r) => EventView::Plan(seen(r)),
            Event::Checked(r) => EventView::Checked(seen(r)),
            Event::Scanned(r) => EventView::Scanned(
                match r {
                    Ok(found) => Ok(shown(found)),
                    Err(error) => Err(error@),
                },
            ),
            Event::Marked(r) => EventView::Marked(seen(r)),
            Event::Saved(r) => EventView::Saved(seen(r)),
            Event::Discovered(r) => EventView::Discovered(seen(r)),
            Event::Observed(r) => EventView::Observed(
                match r {
                    Ok(status) => Ok(status),
                    Err(error) => Err(error@),
                },
            ),
            Event::Clock(r) => EventView::Clock(seen(r)),
            Event::Worktree(r) => EventView::Worktree(seen(r)),
            Event::Workspace(r) => EventView::Workspace(seen(r)),
            Event::Started(r) => EventView::Started(seen(r)),
            Event::Sent(r) => EventView::Sent(seen(r)),
            Event::Prompted(r) => EventView::Prompted(seen(r)),
        }
    }
}

// ---------------------------------------------------------------------------------------------
// Phases

/// What a pass waits for.
#[allow(inconsistent_fields)]
pub enum Phase {
    /// The plan at the start of the pass.
    Opening,
    /// The check of a retained worktree.
    Verifying,
    /// The report of a retained worker.
    Scanning { worker: Identity },
    /// The check of what a report names as delivered.
    Delivering { received: Received },
    /// The ledger with a report that came in.
    SavingReport,
    /// The message of a report being marked as read; `fresh` if it came in during this pass.
    Marking { fresh: bool },
    /// The ledger with a settled report.
    SavingSettled { fresh: bool },
    /// The agent in a retained worktree.
    Discovering,
    /// The time at which a worker was missed.
    Missing { detail: String },
    /// The ledger with a worker that was missed.
    SavingMissing { now: u64 },
    /// The state of a retained worker.
    Observing { worker: Worker },
    /// The time at which a worker was observed.
    Timing { status: AgentStatus },
    /// The ledger with the heartbeat of a worker.
    SavingHeartbeat { status: AgentStatus, now: u64 },
    /// The plan after what is retained was reconciled.
    Refreshing,
    /// The plan for the worktree of a ready task.
    Planning,
    /// The claim of a ready task.
    Claiming { worktree: WorktreePlan },
    /// The time of a claim.
    Stamping { worktree: WorktreePlan },
    /// The ledger with a step of the provisioning.
    SavingStep,
    /// The next step of the provisioning.
    Provisioning,
    /// The time at which a worker was prompted.
    Activating,
    /// The ledger with an active worker.
    SavingActive { now: u64 },
    /// The plan at the end of the pass.
    Closing,
    /// Nothing more.
    Ended(Result<FinishStatus, Error>),
}

/// What a phase says.
#[allow(inconsistent_fields)]
pub enum PhaseView {
    Opening,
    Verifying,
    Scanning { worker: IdentityView },
    Delivering { received: ReceivedView },
    SavingReport,
    Marking { fresh: bool },
    SavingSettled { fresh: bool },
    Discovering,
    Missing { detail: Seq<char> },
    SavingMissing { now: u64 },
    Observing { worker: WorkerView },
    Timing { status: AgentStatus },
    SavingHeartbeat { status: AgentStatus, now: u64 },
    Refreshing,
    Planning,
    Claiming { worktree: WorktreeView },
    Stamping { worktree: WorktreeView },
    SavingStep,
    Provisioning,
    Activating,
    SavingActive { now: u64 },
    Closing,
    Ended(Result<FinishStatus, ErrorView>),
}

impl View for Phase {
    type V = PhaseView;

    open spec fn view(&self) -> PhaseView {
        match *self {
            Phase::Opening => PhaseView::Opening,
            Phase::Verifying => PhaseView::Verifying,
            Phase::Scanning { worker } => PhaseView::Scanning { worker: worker@ },
            Phase::Delivering { received } => PhaseView::Delivering { received: received@ },
            Phase::SavingReport => PhaseView::SavingReport,
            Phase::Marking { fresh } => PhaseView::Marking { fresh },
            Phase::SavingSettled { fresh } => PhaseView::SavingSettled { fresh },
            Phase::Discovering => PhaseView::Discovering,
            Phase::Missing { detail } => PhaseView::Missing { detail: detail@ },
            Phase::SavingMissing { now } => PhaseView::SavingMissing { now },
            Phase::Observing { worker } => PhaseView::Observing { worker: worker@ },
            Phase::Timing { status } => PhaseView::Timing { status },
            Phase::SavingHeartbeat { status, now } => PhaseView::SavingHeartbeat { status, now },
            Phase::Refreshing => PhaseView::Refreshing,
            Phase::Planning => PhaseView::Planning,
            Phase::Claiming { worktree } => PhaseView::Claiming { worktree: worktree@ },
            Phase::Stamping { worktree } => PhaseView::Stamping { worktree: worktree@ },
            Phase::SavingStep => PhaseView::SavingStep,
            Phase::Provisioning => PhaseView::Provisioning,
            Phase::Activating => PhaseView::Activating,
            Phase::SavingActive { now } => PhaseView::SavingActive { now },
            Phase::Closing => PhaseView::Closing,
            Phase::Ended(r) => PhaseView::Ended(seen(r)),
        }
    }
}

/// What a pass is about: the ledger, the plan as it was last read, and the tasks that are gone
/// through, up to the one that the pass is at.
pub struct PassView {
    pub ledger: LedgerView,
    pub lease_seconds: u64,
    pub model: Option<Seq<char>>,
    pub plan: Option<PlanView>,
    pub tasks: Seq<Seq<char>>,
    pub index: int,
    pub phase: PhaseView,
}

// ---------------------------------------------------------------------------------------------
// What a pass does

/// The phase of a pass that stops with an error.
pub open spec fn stopped(error: ErrorView) -> PhaseView {
    PhaseView::Ended(Err(error))
}

/// The error for a task that is not one of the plan.
pub open spec fn outside(plan: PlanView, task_id: Seq<char>) -> ErrorView {
    ErrorView::Sq(
        sq::ErrorView::TaskOutsideScope { task_id, root_task_id: plan.root_task_id },
    )
}

/// How a retained runtime is taken up: nothing where it is settled, else the next phase.
pub open spec fn taken_up(runtime: RecordView, plan: PlanView, task_id: Seq<char>) -> Option<
    PhaseView,
> {
    match runtime.fault() {
        Some(error) => Some(stopped(ErrorView::Runtime(error))),
        None => match runtime.stage {
            RuntimeStage::Completed => match plan.task(task_id) {
                None => Some(stopped(outside(plan, task_id))),
                Some(task) => if plan.status(task) == TaskStatus::Closed {
                    None
                } else {
                    Some(stopped(ErrorView::CompletedRuntimeReopened { task_id }))
                },
            },
            RuntimeStage::Blocked => Some(
                stopped(
                    ErrorView::RetainedTerminalReport { task_id, status: ReportStatus::Blocked },
                ),
            ),
            RuntimeStage::Failed => Some(
                stopped(
                    ErrorView::RetainedTerminalReport { task_id, status: ReportStatus::Failed },
                ),
            ),
            _ => match plan.task(task_id) {
                None => Some(stopped(outside(plan, task_id))),
                Some(task) => if plan.status(task) == TaskStatus::Pending {
                    Some(stopped(ErrorView::RuntimeTaskReset { task_id }))
                } else {
                    Some(PhaseView::Verifying)
                },
            },
        },
    }
}

/// The next retained task from a position on that calls for something, and the phase for it.
pub open spec fn next_retained(
    ledger: LedgerView,
    plan: PlanView,
    tasks: Seq<Seq<char>>,
    index: int,
) -> (int, PhaseView)
    decreases tasks.len() - index,
{
    if index < 0 || index >= tasks.len() {
        (index, PhaseView::Refreshing)
    } else {
        match taken_up(ledger.runtimes[tasks[index]], plan, tasks[index]) {
            Some(phase) => (index, phase),
            None => next_retained(ledger, plan, tasks, index + 1),
        }
    }
}

/// Each blocker of the task that the run claimed is completed.
pub open spec fn unlocked(ledger: LedgerView, task: TaskView) -> bool {
    forall|i: int|
        0 <= i < task.blocked_by.len() && ledger.runtimes.contains_key(
            #[trigger] task.blocked_by[i],
        ) ==> ledger.runtimes[task.blocked_by[i]].stage == RuntimeStage::Completed
}

/// The next ready task from a position on that is unlocked, and the phase for it.
pub open spec fn next_ready(
    ledger: LedgerView,
    plan: PlanView,
    tasks: Seq<Seq<char>>,
    index: int,
) -> (int, PhaseView)
    decreases tasks.len() - index,
{
    if index < 0 || index >= tasks.len() {
        (index, PhaseView::Closing)
    } else {
        match plan.task(tasks[index]) {
            None => (index, stopped(outside(plan, tasks[index]))),
            Some(task) => if unlocked(ledger, task) {
                (index, PhaseView::Planning)
            } else {
                next_ready(ledger, plan, tasks, index + 1)
            },
        }
    }
}

impl PassView {
    /// The task that the pass is at.
    pub open spec fn task_id(self) -> Seq<char> {
        self.tasks[self.index]
    }

    /// The runtime of the task that the pass is at.
    pub open spec fn runtime(self) -> RecordView {
        self.ledger.runtimes[self.task_id()]
    }

    /// The task that the pass is at, as the plan has it.
    pub open spec fn task(self) -> TaskView {
        self.plan->0.queue.tasks[self.task_id()]
    }

    /// In another phase.
    pub open spec fn at(self, phase: PhaseView) -> PassView {
        PassView { phase, ..self }
    }

    /// At its end, with an error.
    pub open spec fn stop(self, error: ErrorView) -> PassView {
        self.at(stopped(error))
    }

    /// With another runtime of the task that it is at.
    pub open spec fn retaining(self, runtime: RecordView, phase: PhaseView) -> PassView {
        PassView { ledger: self.ledger.with_runtime(self.task_id(), runtime), phase, ..self }
    }

    /// With a changed runtime, unless the change is refused.
    pub open spec fn changing(
        self,
        change: Result<RecordView, runtime::ErrorView>,
        phase: PhaseView,
    ) -> PassView {
        match change {
            Ok(runtime) => self.retaining(runtime, phase),
            Err(error) => self.stop(ErrorView::Runtime(error)),
        }
    }

    /// At the next retained task that calls for something.
    pub open spec fn resume(self, index: int) -> PassView {
        let next = next_retained(self.ledger, self.plan->0, self.tasks, index);
        PassView { index: next.0, phase: next.1, ..self }
    }

    /// At the next ready task that is unlocked.
    pub open spec fn launch(self, index: int) -> PassView {
        let next = next_ready(self.ledger, self.plan->0, self.tasks, index);
        PassView { index: next.0, phase: next.1, ..self }
    }

    /// At its end if the lease of the worker has ended, else as given.
    pub open spec fn unless_expired(self, now: u64, otherwise: PassView) -> PassView {
        match self.runtime().expired(now) {
            Err(error) => self.stop(ErrorView::Runtime(error)),
            Ok(true) => self.stop(
                ErrorView::LeaseExpired {
                    task_id: self.task_id(),
                    deadline: self.runtime().lease_expires_at_unix->0,
                },
            ),
            Ok(false) => otherwise,
        }
    }

    /// With the plan at its start.
    pub open spec fn opened(self, plan: PlanView) -> PassView {
        let read = PassView { plan: Some(plan), ..self };
        match orphan_error(plan, self.ledger) {
            Some(error) => read.stop(error),
            None => PassView { tasks: listed(self.ledger.runtimes.dom()), ..read }.resume(0),
        }
    }

    /// With a worktree that was checked.
    pub open spec fn verified(self) -> PassView {
        if self.runtime().stage == RuntimeStage::ReportReceived {
            self.at(PhaseView::Marking { fresh: false })
        } else {
            match self.runtime().identity() {
                Err(error) => self.stop(ErrorView::Runtime(error)),
                Ok(worker) => self.at(PhaseView::Scanning { worker }),
            }
        }
    }

    /// With a report that came in: it counts where it is valid and the queue agrees with it.
    pub open spec fn reported(self, received: ReceivedView) -> PassView {
        match received.report.fault(self.task_id(), self.ledger.run_id) {
            Some(error) => self.stop(ErrorView::Mail(error)),
            None => match reconciled(self.task().stored_status, received.report) {
                Err(error) => self.stop(ErrorView::Mail(error)),
                Ok(ReportDisposition::Completed) => self.at(PhaseView::Delivering { received }),
                Ok(_) => self.received(received),
            },
        }
    }

    /// With a report that counts.
    pub open spec fn received(self, received: ReceivedView) -> PassView {
        self.changing(
            self.runtime().with_report(received.message_id, received.report),
            PhaseView::SavingReport,
        )
    }

    /// With a report that is settled: a completed task is done with, any other stops the pass.
    pub open spec fn settled(self, fresh: bool) -> PassView {
        match self.runtime().report {
            None => self.stop(
                ErrorView::Runtime(self.runtime().mismatch("report status is missing"@)),
            ),
            Some(report) => if report.status == ReportStatus::Completed {
                self.resume(self.index + 1)
            } else if fresh {
                self.stop(
                    ErrorView::WorkerReported {
                        task_id: self.task_id(),
                        status: report.status,
                        summary: text_or_nothing(report.summary),
                    },
                )
            } else {
                self.stop(
                    ErrorView::RetainedTerminalReport {
                        task_id: self.task_id(),
                        status: report.status,
                    },
                )
            },
        }
    }

    /// With the agent that was found in the worktree: another one than before stops the pass.
    pub open spec fn discovered(self, found: IdentityView) -> PassView {
        match self.runtime().identity() {
            Err(error) => self.stop(ErrorView::Runtime(error)),
            Ok(expected) => if !found.same_agent(expected) {
                self.stop(
                    ErrorView::ReplacedWorker {
                        task_id: self.task_id(),
                        expected: expected.slug,
                        actual: found.slug,
                    },
                )
            } else {
                match self.runtime().worker() {
                    Err(error) => self.stop(ErrorView::Runtime(error)),
                    Ok(worker) => self.at(PhaseView::Observing { worker }),
                }
            },
        }
    }

    /// With the heartbeat of a worker: one that stopped stops the pass.
    pub open spec fn beaten(self, status: AgentStatus, now: u64) -> PassView {
        match disposition_of(status, false) {
            WorkerDisposition::Stop(reason) => self.stop(stop_error(self.task_id(), reason)),
            _ => self.unless_expired(now, self.resume(self.index + 1)),
        }
    }

    /// With the plan after what is retained was reconciled.
    pub open spec fn refreshed(self, plan: PlanView) -> PassView {
        let read = PassView { plan: Some(plan), ..self };
        match orphan_error(plan, self.ledger) {
            Some(error) => read.stop(error),
            None => PassView { tasks: listed(plan.ready()), ..read }.launch(0),
        }
    }

    /// With the plan after a claim.
    pub open spec fn claimed(self, plan: PlanView, worktree: WorktreeView) -> PassView {
        let read = PassView { plan: Some(plan), ..self };
        match plan.task(self.task_id()) {
            None => read.stop(outside(plan, self.task_id())),
            Some(_) => read.at(PhaseView::Stamping { worktree }),
        }
    }

    /// With the outcome of a step of the provisioning.
    pub open spec fn provisioned(self, event: EventView) -> PassView {
        let runtime = self.runtime();
        match (runtime.stage, event) {
            (RuntimeStage::Claimed, EventView::Workspace(r)) => match r {
                Err(error) => self.stop(ErrorView::Herdr(error)),
                Ok(workspace) => self.changing(
                    runtime.with_workspace(workspace),
                    PhaseView::SavingStep,
                ),
            },
            (RuntimeStage::WorktreeCreated, EventView::Checked(r)) => match r {
                Err(error) => self.stop(ErrorView::Worktree(error)),
                Ok(_) => self.changing(runtime.with_queue_link(), PhaseView::SavingStep),
            },
            (RuntimeStage::QueueLinked, EventView::Started(r)) => match r {
                Err(error) => self.stop(ErrorView::Herdr(error)),
                Ok(worker) => self.changing(runtime.with_worker(worker), PhaseView::SavingStep),
            },
            (RuntimeStage::WorkerStarted, EventView::Discovered(r)) => match r {
                Err(error) => self.stop(ErrorView::Identity(error)),
                Ok(found) => self.changing(runtime.with_identity(found), PhaseView::SavingStep),
            },
            (RuntimeStage::WorkerIdentified, EventView::Sent(r)) => match r {
                Err(error) => self.stop(ErrorView::Mail(error)),
                Ok(receipt) => self.changing(runtime.with_handoff(receipt), PhaseView::SavingStep),
            },
            (RuntimeStage::HandoffSent, EventView::Prompted(r)) => match r {
                Err(error) => self.stop(ErrorView::Herdr(error)),
                Ok(_) => self.at(PhaseView::Activating),
            },
            _ => self,
        }
    }

    /// With the plan at its end.
    pub open spec fn closed(self, plan: PlanView) -> PassView {
        let status = if completed(plan, self.ledger) {
            FinishStatus::Complete
        } else {
            FinishStatus::Active
        };
        PassView { plan: Some(plan), phase: PhaseView::Ended(Ok(status)), ..self }
    }

    /// After an event. One that the pass does not wait for changes nothing.
    pub open spec fn step(self, event: EventView) -> PassView {
        match (self.phase, event) {
            (PhaseView::Opening, EventView::Plan(r)) => match r {
                Err(error) => self.stop(refusal(error)),
                Ok(plan) => self.opened(plan),
            },
            (PhaseView::Verifying, EventView::Checked(r)) => match r {
                Err(error) => self.stop(ErrorView::Worktree(error)),
                Ok(_) => self.verified(),
            },
            (PhaseView::Scanning { worker }, EventView::Scanned(r)) => match r {
                Err(error) => self.stop(ErrorView::Mail(error)),
                Ok(None) => self.at(PhaseView::Discovering),
                Ok(Some(received)) => self.reported(received),
            },
            (PhaseView::Delivering { received }, EventView::Checked(r)) => match r {
                Err(error) => self.stop(ErrorView::Worktree(error)),
                Ok(_) => self.received(received),
            },
            (PhaseView::SavingReport, EventView::Saved(r)) => match r {
                Err(error) => self.stop(ErrorView::Runtime(error)),
                Ok(_) => self.at(PhaseView::Marking { fresh: true }),
            },
            (PhaseView::Marking { fresh }, EventView::Marked(r)) => match r {
                Err(error) => self.stop(ErrorView::Mail(error)),
                Ok(_) => self.changing(
                    self.runtime().settled(),
                    PhaseView::SavingSettled { fresh },
                ),
            },
            (PhaseView::SavingSettled { fresh }, EventView::Saved(r)) => match r {
                Err(error) => self.stop(ErrorView::Runtime(error)),
                Ok(_) => self.settled(fresh),
            },
            (PhaseView::Discovering, EventView::Discovered(r)) => match r {
                Err(error) => self.at(PhaseView::Missing { detail: error.message() }),
                Ok(found) => self.discovered(found),
            },
            (PhaseView::Missing { detail }, EventView::Clock(r)) => match r {
                Err(error) => self.stop(ErrorView::Runtime(error)),
                Ok(now) => self.changing(
                    self.runtime().unobserved(detail),
                    PhaseView::SavingMissing { now },
                ),
            },
            (PhaseView::SavingMissing { now }, EventView::Saved(r)) => match r {
                Err(error) => self.stop(ErrorView::Runtime(error)),
                Ok(_) => self.unless_expired(now, self.resume(self.index + 1)),
            },
            (PhaseView::Observing { worker }, EventView::Observed(r)) => match r {
                Err(error) => self.stop(
                    ErrorView::LostWorker { task_id: self.task_id(), detail: error.message() },
                ),
                Ok(status) => self.at(PhaseView::Timing { status }),
            },
            (PhaseView::Timing { status }, EventView::Clock(r)) => match r {
                Err(error) => self.stop(ErrorView::Runtime(error)),
                Ok(now) => self.changing(
                    self.runtime().observed(now, self.lease_seconds),
                    PhaseView::SavingHeartbeat { status, now },
                ),
            },
            (PhaseView::SavingHeartbeat { status, now }, EventView::Saved(r)) => match r {
                Err(error) => self.stop(ErrorView::Runtime(error)),
                Ok(_) => self.beaten(status, now),
            },
            (PhaseView::Refreshing, EventView::Plan(r)) => match r {
                Err(error) => self.stop(refusal(error)),
                Ok(plan) => self.refreshed(plan),
            },
            (PhaseView::Planning, EventView::Worktree(r)) => match r {
                Err(error) => self.stop(ErrorView::Worktree(error)),
                Ok(worktree) => self.at(PhaseView::Claiming { worktree }),
            },
            (PhaseView::Claiming { worktree }, EventView::Plan(r)) => match r {
                Err(error) => self.stop(refusal(error)),
                Ok(plan) => self.claimed(plan, worktree),
            },
            (PhaseView::Stamping { worktree }, EventView::Clock(r)) => match r {
                Err(error) => self.stop(ErrorView::Runtime(error)),
                Ok(now) => self.retaining(
                    claimed_record(worktree, now),
                    PhaseView::SavingStep,
                ),
            },
            (PhaseView::SavingStep, EventView::Saved(r)) => match r {
                Err(error) => self.stop(ErrorView::Runtime(error)),
                Ok(_) => self.at(PhaseView::Provisioning),
            },
            (PhaseView::Provisioning, event) => self.provisioned(event),
            (PhaseView::Activating, EventView::Clock(r)) => match r {
                Err(error) => self.stop(ErrorView::Runtime(error)),
                Ok(now) => self.changing(
                    self.runtime().activated(now, self.lease_seconds),
                    PhaseView::SavingActive { now },
                ),
            },
            (PhaseView::SavingActive { now }, EventView::Saved(r)) => match r {
                Err(error) => self.stop(ErrorView::Runtime(error)),
                Ok(_) => self.unless_expired(now, self.launch(self.index + 1)),
            },
            (PhaseView::Closing, EventView::Plan(r)) => match r {
                Err(error) => self.stop(refusal(error)),
                Ok(plan) => self.closed(plan),
            },
            _ => self,
        }
    }

    /// The pass is at a task of its plan.
    pub open spec fn at_task(self) -> bool {
        &&& self.plan is Some
        &&& 0 <= self.index < self.tasks.len()
        &&& self.plan->0.task(self.task_id()) is Some
    }

    /// The pass is at a task that the run claimed.
    pub open spec fn at_runtime(self) -> bool {
        self.at_task() && self.ledger.runtimes.contains_key(self.task_id())
    }

    /// What a phase relies on is there.
    pub open spec fn well_placed(self) -> bool {
        match self.phase {
            PhaseView::Opening => true,
            PhaseView::Refreshing => true,
            PhaseView::Closing => true,
            PhaseView::Ended(_) => true,
            PhaseView::Delivering { received } => self.at_runtime() && self.all_retained()
                && self.accepts_completion(received.report),
            PhaseView::Planning => self.at_task(),
            PhaseView::Claiming { worktree } => self.at_task(),
            PhaseView::Stamping { worktree } => self.at_task(),
            PhaseView::SavingStep => self.at_runtime() && self.identified(),
            PhaseView::Provisioning => self.at_runtime() && self.identified(),
            PhaseView::Activating => self.at_runtime(),
            PhaseView::SavingActive { now } => self.at_runtime(),
            _ => self.at_runtime() && self.all_retained(),
        }
    }

    /// The report is a valid one of completion, and the queue agrees with it.
    pub open spec fn accepts_completion(self, report: ReportView) -> bool {
        &&& report.fault(self.task_id(), self.ledger.run_id) is None
        &&& report.status == ReportStatus::Completed
        &&& self.task().stored_status == TaskStatus::Closed
    }

    /// A worker that is about to get its handoff is known.
    pub open spec fn identified(self) -> bool {
        self.runtime().stage == RuntimeStage::WorkerIdentified
            ==> self.runtime().worker_identity is Some
    }

    /// The run claimed every task that the pass goes through.
    pub open spec fn all_retained(self) -> bool {
        forall|i: int|
            0 <= i < self.tasks.len() ==> self.ledger.runtimes.contains_key(#[trigger] self.tasks[i])
    }
}

/// A text, where there is none the empty one.
pub open spec fn text_or_nothing(text: Option<Seq<char>>) -> Seq<char> {
    match text {
        Some(text) => text,
        None => Seq::empty(),
    }
}

// ---------------------------------------------------------------------------------------------
// The pass

/// What a pass is about, whatever its phase.
struct Ground {
    ledger: RunLedger,
    lease_seconds: u64,
    model: Option<String>,
    plan: Option<ScopedPlan>,
    tasks: Vec<String>,
    index: usize,
}

/// One pass over a run.
pub struct Pass {
    ground: Ground,
    phase: Phase,
}

impl Ground {
    spec fn at(self, phase: PhaseView) -> PassView {
        PassView {
            ledger: self.ledger@,
            lease_seconds: self.lease_seconds,
            model: shown(self.model),
            plan: shown(self.plan),
            tasks: texts(self.tasks@),
            index: self.index as int,
            phase,
        }
    }
}

impl Ground {
    spec fn moved(self, next: (int, PhaseView)) -> PassView {
        PassView { index: next.0, ..self.at(next.1) }
    }
}

impl View for Pass {
    type V = PassView;

    closed spec fn view(&self) -> PassView {
        self.ground.at(self.phase@)
    }
}

impl Pass {
    #[verifier::type_invariant]
    spec fn sound(self) -> bool {
        self@.well_placed()
    }
}

impl Ground {
    /// The task that the pass is at.
    fn task_id(&self) -> (r: &String)
        requires
            self.index < self.tasks@.len(),
        ensures
            r@ == texts(self.tasks@)[self.index as int],
    {
        &self.tasks[self.index]
    }

    /// The position behind the task that the pass is at.
    fn next_index(&self) -> (r: usize)
        requires
            self.index < self.tasks@.len(),
        ensures
            r == self.index + 1,
    {
        let count = self.tasks.len();
        assert(self.index < count);
        self.index + 1
    }

    /// A copy of the runtime of the task that the pass is at.
    fn runtime(&self) -> (r: RuntimeRecord)
        requires
            self.index < self.tasks@.len(),
            self.ledger@.runtimes.contains_key(self.tasks@[self.index as int]@),
        ensures
            r@ == self.ledger@.runtimes[texts(self.tasks@)[self.index as int]],
    {
        let id = self.tasks[self.index].as_str();
        assert(self.ledger.runtimes@.contains_key(id@));
        self.ledger.runtimes.get(id).unwrap().clone()
    }

    /// Stops the pass.
    fn stop(self, error: Error) -> (r: Pass)
        ensures
            r@ == self.at(stopped(error@)),
    {
        Pass { ground: self, phase: Phase::Ended(Err(error)) }
    }

    /// Retains a runtime of the task that the pass is at.
    fn retain(self, runtime: RuntimeRecord) -> (r: Ground)
        requires
            self.index < self.tasks@.len(),
        ensures
            forall|phase: PhaseView| #[trigger]
                r.at(phase) == self.at(phase).retaining(runtime@, phase),
    {
        let mut ground = self;
        let id = ground.tasks[ground.index].clone();
        ground.ledger.set_runtime(id, runtime);
        ground
    }

    /// Goes on to the next retained task that calls for something.
    fn resume(self, index: usize) -> (r: Pass)
        requires
            self.plan is Some,
            index <= self.tasks@.len(),
            forall|i: int|
                0 <= i < self.tasks@.len() ==> self.ledger@.runtimes.contains_key(
                    #[trigger] texts(self.tasks@)[i],
                ),
        ensures
            r@ == self.moved(
                next_retained(self.ledger@, self.plan->0@, texts(self.tasks@), index as int),
            ),
    {
        let mut ground = self;
        ground.index = index;
        let ghost tasks = texts(ground.tasks@);
        while ground.index < ground.tasks.len()
            invariant
                ground.plan is Some,
                index <= ground.index <= ground.tasks@.len(),
                tasks == texts(ground.tasks@),
                forall|i: int|
                    0 <= i < tasks.len() ==> ground.ledger@.runtimes.contains_key(
                        #[trigger] tasks[i],
                    ),
                ground.ledger == self.ledger,
                ground.lease_seconds == self.lease_seconds,
                ground.model == self.model,
                ground.plan == self.plan,
                ground.tasks == self.tasks,
                next_retained(ground.ledger@, ground.plan->0@, tasks, index as int)
                    == next_retained(
                    ground.ledger@,
                    ground.plan->0@,
                    tasks,
                    ground.index as int,
                ),
            decreases ground.tasks@.len() - ground.index,
        {
            assert(ground.ledger@.runtimes.contains_key(tasks[ground.index as int]));
            assert(tasks[ground.index as int] == ground.tasks@[ground.index as int]@);
            let found = ground.take_up();
            if let Some(phase) = found {
                return Pass { ground, phase };
            }
            ground.index = ground.index + 1;
        }
        Pass { ground, phase: Phase::Refreshing }
    }

    /// How the retained runtime of the task is taken up.
    fn take_up(&self) -> (r: Option<Phase>)
        requires
            self.plan is Some,
            self.index < self.tasks@.len(),
            self.ledger@.runtimes.contains_key(self.tasks@[self.index as int]@),
        ensures
            shown(r) == taken_up(
                self.ledger@.runtimes[self.tasks@[self.index as int]@],
                self.plan->0@,
                self.tasks@[self.index as int]@,
            ),
            r matches Some(phase) ==> (phase is Verifying ==> self.plan->0@.task(
                self.tasks@[self.index as int]@,
            ) is Some) && (phase is Verifying || phase is Ended),
    {
        let id = &self.tasks[self.index];
        assert(self.ledger.runtimes@.contains_key(id@));
        let runtime = self.ledger.runtimes.get(id.as_str()).unwrap();
        if let Err(error) = runtime.validate_reconcilable() {
            return Some(Phase::Ended(Err(Error::Runtime(error))));
        }
        match runtime.stage {
            RuntimeStage::Blocked => {
                return Some(
                    Phase::Ended(
                        Err(
                            Error::RetainedTerminalReport {
                                task_id: id.clone(),
                                status: ReportStatus::Blocked,
                            },
                        ),
                    ),
                );
            },
            RuntimeStage::Failed => {
                return Some(
                    Phase::Ended(
                        Err(
                            Error::RetainedTerminalReport {
                                task_id: id.clone(),
                                status: ReportStatus::Failed,
                            },
                        ),
                    ),
                );
            },
            _ => {},
        }
        let status = match self.plan.as_ref().unwrap().status(id.as_str()) {
            Ok(status) => status,
            Err(error) => {
                return Some(Phase::Ended(Err(Error::Sq(error))));
            },
        };
        if runtime.stage == RuntimeStage::Completed {
            if status == TaskStatus::Closed {
                None
            } else {
                Some(Phase::Ended(Err(Error::CompletedRuntimeReopened { task_id: id.clone() })))
            }
        } else if status == TaskStatus::Pending {
            Some(Phase::Ended(Err(Error::RuntimeTaskReset { task_id: id.clone() })))
        } else {
            Some(Phase::Verifying)
        }
    }

    /// Goes on to the next ready task that is unlocked.
    fn launch(self, index: usize) -> (r: Pass)
        requires
            self.plan is Some,
            index <= self.tasks@.len(),
        ensures
            r@ == self.moved(
                next_ready(self.ledger@, self.plan->0@, texts(self.tasks@), index as int),
            ),
    {
        let mut ground = self;
        ground.index = index;
        let ghost tasks = texts(ground.tasks@);
        while ground.index < ground.tasks.len()
            invariant
                ground.plan is Some,
                index <= ground.index <= ground.tasks@.len(),
                tasks == texts(ground.tasks@),
                ground.ledger == self.ledger,
                ground.lease_seconds == self.lease_seconds,
                ground.model == self.model,
                ground.plan == self.plan,
                ground.tasks == self.tasks,
                next_ready(ground.ledger@, ground.plan->0@, tasks, index as int) == next_ready(
                    ground.ledger@,
                    ground.plan->0@,
                    tasks,
                    ground.index as int,
                ),
            decreases ground.tasks@.len() - ground.index,
        {
            let id = ground.tasks[ground.index].clone();
            assert(id@ == tasks[ground.index as int]);
            let plan = ground.plan.as_ref().unwrap();
            let free = match plan.task(id.as_str()) {
                Some(task) => is_unlocked(&ground.ledger, task),
                None => {
                    let root_task_id = plan.root_task_id().to_owned();
                    return Pass {
                        ground,
                        phase: Phase::Ended(
                            Err(
                                Error::Sq(
                                    sq::Error::TaskOutsideScope { task_id: id, root_task_id },
                                ),
                            ),
                        ),
                    };
                },
            };
            if free {
                return Pass { ground, phase: Phase::Planning };
            }
            ground.index = ground.index + 1;
        }
        Pass { ground, phase: Phase::Closing }
    }
}

/// Whether each blocker of the task that the run claimed is completed.
fn is_unlocked(ledger: &RunLedger, task: &sq::Task) -> (r: bool)
    ensures
        r == unlocked(ledger@, task@),
{
    let blockers = task.blocked_by();
    let ghost all = texts(blockers@);
    let mut i: usize = 0;
    while i < blockers.len()
        invariant
            i <= blockers.len(),
            all == texts(blockers@),
            all == task@.blocked_by,
            forall|j: int|
                0 <= j < i && ledger@.runtimes.contains_key(#[trigger] all[j])
                    ==> ledger@.runtimes[all[j]].stage == RuntimeStage::Completed,
        decreases blockers.len() - i,
    {
        let id = blockers[i].as_str();
        assert(id@ == all[i as int]);
        if let Some(runtime) = ledger.runtimes.get(id) {
            assert(ledger@.runtimes.contains_key(all[i as int]));
            assert(ledger@.runtimes[all[i as int]] == runtime@);
            if !runtime.stage.is_complete() {
                return false;
            }
        }
        i += 1;
    }
    true
}

impl Ground {
    /// The pass is at a task of its plan that the run claimed.
    spec fn on_runtime(self) -> bool {
        &&& self.plan is Some
        &&& self.index < self.tasks@.len()
        &&& self.plan->0@.task(texts(self.tasks@)[self.index as int]) is Some
        &&& self.ledger@.runtimes.contains_key(texts(self.tasks@)[self.index as int])
    }

    /// The run claimed every task that the pass goes through.
    spec fn all_retained(self) -> bool {
        forall|i: int|
            0 <= i < self.tasks@.len() ==> self.ledger@.runtimes.contains_key(
                #[trigger] texts(self.tasks@)[i],
            )
    }

    fn opened(self, plan: ScopedPlan) -> (r: Pass)
        ensures
            forall|phase: PhaseView| r@ == #[trigger] self.at(phase).opened(plan@),
    {
        let mut ground = self;
        let orphans = reject_orphaned_in_progress(&plan, &ground.ledger);
        ground.plan = Some(plan);
        if let Err(error) = orphans {
            return ground.stop(error);
        }
        ground.tasks = ground.ledger.runtimes.key_list();
        proof {
            assert(ground.ledger@.runtimes.dom() =~= ground.ledger.runtimes@.dom());
            let ids = texts(ground.tasks@);
            assert forall|i: int| 0 <= i < ids.len() implies ground.ledger@.runtimes.contains_key(
                #[trigger] ids[i],
            ) by {
                assert(ids.to_set().contains(ids[i]));
            }
        }
        ground.resume(0)
    }

    fn verified(self) -> (r: Pass)
        requires
            self.on_runtime(),
            self.all_retained(),
        ensures
            forall|phase: PhaseView| r@ == #[trigger] self.at(phase).verified(),
    {
        let runtime = self.runtime();
        if runtime.stage == RuntimeStage::ReportReceived {
            return Pass { ground: self, phase: Phase::Marking { fresh: false } };
        }
        let worker = match runtime.identity() {
            Ok(identity) => identity.clone(),
            Err(error) => {
                return self.stop(Error::Runtime(error));
            },
        };
        Pass { ground: self, phase: Phase::Scanning { worker } }
    }

    fn reported(self, received: Received) -> (r: Pass)
        requires
            self.on_runtime(),
            self.all_retained(),
        ensures
            forall|phase: PhaseView| r@ == #[trigger] self.at(phase).reported(received@),
    {
        if let Err(error) = received.report.validate(
            self.task_id().as_str(),
            self.ledger.run_id.as_str(),
        ) {
            return self.stop(Error::Mail(error));
        }
        let task = self.plan.as_ref().unwrap().task(self.task_id().as_str()).unwrap();
        match reconcile_report(&task.stored_status(), &received.report) {
            Err(error) => self.stop(Error::Mail(error)),
            Ok(ReportDisposition::Completed) => Pass {
                ground: self,
                phase: Phase::Delivering { received },
            },
            Ok(_) => self.received(received),
        }
    }

    fn received(self, received: Received) -> (r: Pass)
        requires
            self.on_runtime(),
            self.all_retained(),
        ensures
            forall|phase: PhaseView| r@ == #[trigger] self.at(phase).received(received@),
    {
        let mut runtime = self.runtime();
        match runtime.record_report(received.message_id, received.report) {
            Err(error) => self.stop(Error::Runtime(error)),
            Ok(()) => Pass { ground: self.retain(runtime), phase: Phase::SavingReport },
        }
    }

    fn marked(self, fresh: bool) -> (r: Pass)
        requires
            self.on_runtime(),
            self.all_retained(),
        ensures
            forall|phase: PhaseView|
                r@ == #[trigger] self.at(phase).changing(
                    self.at(phase).runtime().settled(),
                    PhaseView::SavingSettled { fresh },
                ),
    {
        let mut runtime = self.runtime();
        match runtime.settle_report() {
            Err(error) => self.stop(Error::Runtime(error)),
            Ok(()) => Pass { ground: self.retain(runtime), phase: Phase::SavingSettled { fresh } },
        }
    }

    fn settled(self, fresh: bool) -> (r: Pass)
        requires
            self.on_runtime(),
            self.all_retained(),
        ensures
            forall|phase: PhaseView| r@ == #[trigger] self.at(phase).settled(fresh),
    {
        let runtime = self.runtime();
        let task_id = self.task_id().clone();
        let report = match runtime.report {
            Some(report) => report,
            None => {
                return self.stop(
                    Error::Runtime(
                        runtime::Error::HandleMismatch {
                            task_id: runtime.task_id,
                            detail: "report status is missing".to_owned(),
                        },
                    ),
                );
            },
        };
        if report.status == ReportStatus::Completed {
            let next = self.next_index();
            return self.resume(next);
        }
        if fresh {
            let summary = match report.summary {
                Some(summary) => summary,
                None => {
                    let nothing = String::new();
                    assert(nothing@ =~= Seq::<char>::empty());
                    nothing
                },
            };
            self.stop(Error::WorkerReported { task_id, status: report.status, summary })
        } else {
            self.stop(Error::RetainedTerminalReport { task_id, status: report.status })
        }
    }

    fn discovered(self, found: Identity) -> (r: Pass)
        requires
            self.on_runtime(),
            self.all_retained(),
        ensures
            forall|phase: PhaseView| r@ == #[trigger] self.at(phase).discovered(found@),
    {
        let runtime = self.runtime();
        let task_id = self.task_id().clone();
        let expected = match runtime.identity() {
            Ok(expected) => expected,
            Err(error) => {
                return self.stop(Error::Runtime(error));
            },
        };
        if !found.is_same_agent(expected) {
            return self.stop(
                Error::ReplacedWorker {
                    task_id,
                    expected: expected.slug.clone(),
                    actual: found.slug,
                },
            );
        }
        match runtime.worker() {
            Ok(worker) => Pass { ground: self, phase: Phase::Observing { worker } },
            Err(error) => self.stop(Error::Runtime(error)),
        }
    }

    fn missed(self, detail: String, now: u64) -> (r: Pass)
        requires
            self.on_runtime(),
            self.all_retained(),
        ensures
            forall|phase: PhaseView|
                r@ == #[trigger] self.at(phase).changing(
                    self.at(phase).runtime().unobserved(detail@),
                    PhaseView::SavingMissing { now },
                ),
    {
        let mut runtime = self.runtime();
        match runtime.record_observation_error(detail) {
            Err(error) => self.stop(Error::Runtime(error)),
            Ok(()) => Pass { ground: self.retain(runtime), phase: Phase::SavingMissing { now } },
        }
    }

    fn timed(self, status: AgentStatus, now: u64) -> (r: Pass)
        requires
            self.on_runtime(),
            self.all_retained(),
        ensures
            forall|phase: PhaseView|
                r@ == #[trigger] self.at(phase).changing(
                    self.at(phase).runtime().observed(now, self.lease_seconds),
                    PhaseView::SavingHeartbeat { status, now },
                ),
    {
        let mut runtime = self.runtime();
        match runtime.heartbeat(now, self.lease_seconds) {
            Err(error) => self.stop(Error::Runtime(error)),
            Ok(()) => Pass {
                ground: self.retain(runtime),
                phase: Phase::SavingHeartbeat { status, now },
            },
        }
    }

    /// Why the pass stops for the lease of the worker, where it does.
    fn lease_fault(&self, now: u64) -> (r: Option<Error>)
        requires
            self.on_runtime(),
        ensures
            forall|phase: PhaseView, otherwise: PassView|
                #![trigger self.at(phase).unless_expired(now, otherwise)]
                self.at(phase).unless_expired(now, otherwise) == (match r {
                    Some(error) => self.at(stopped(error@)),
                    None => otherwise,
                }),
    {
        let runtime = self.runtime();
        match runtime.lease_expired(now) {
            Err(error) => Some(Error::Runtime(error)),
            Ok(true) => Some(
                Error::LeaseExpired {
                    task_id: self.task_id().clone(),
                    deadline: runtime.lease_expires_at_unix.unwrap(),
                },
            ),
            Ok(false) => None,
        }
    }

    fn past_lease(self, now: u64) -> (r: Pass)
        requires
            self.on_runtime(),
            self.all_retained(),
        ensures
            forall|phase: PhaseView|
                r@ == #[trigger] self.at(phase).unless_expired(
                    now,
                    self.at(phase).resume(self.index + 1),
                ),
    {
        match self.lease_fault(now) {
            Some(error) => self.stop(error),
            None => {
                let next = self.next_index();
                self.resume(next)
            },
        }
    }

    fn beaten(self, status: AgentStatus, now: u64) -> (r: Pass)
        requires
            self.on_runtime(),
            self.all_retained(),
        ensures
            forall|phase: PhaseView| r@ == #[trigger] self.at(phase).beaten(status, now),
    {
        match reconcile_worker(status, false) {
            WorkerDisposition::Stop(reason) => {
                let error = worker_stop_error(self.task_id().clone(), reason);
                self.stop(error)
            },
            _ => self.past_lease(now),
        }
    }

    fn refreshed(self, plan: ScopedPlan) -> (r: Pass)
        ensures
            forall|phase: PhaseView| r@ == #[trigger] self.at(phase).refreshed(plan@),
    {
        let mut ground = self;
        let orphans = reject_orphaned_in_progress(&plan, &ground.ledger);
        let ready = plan.ready_task_ids();
        ground.plan = Some(plan);
        if let Err(error) = orphans {
            return ground.stop(error);
        }
        ground.tasks = ready;
        ground.launch(0)
    }

    fn claimed(self, plan: ScopedPlan, worktree: WorktreePlan) -> (r: Pass)
        requires
            self.index < self.tasks@.len(),
        ensures
            forall|phase: PhaseView| r@ == #[trigger] self.at(phase).claimed(plan@, worktree@),
    {
        let mut ground = self;
        let there = plan.task(ground.task_id().as_str()).is_some();
        let root_task_id = plan.root_task_id().to_owned();
        ground.plan = Some(plan);
        if there {
            Pass { ground, phase: Phase::Stamping { worktree } }
        } else {
            let task_id = ground.task_id().clone();
            ground.stop(Error::Sq(sq::Error::TaskOutsideScope { task_id, root_task_id }))
        }
    }

    fn stamped(self, worktree: WorktreePlan, now: u64) -> (r: Pass)
        requires
            self.plan is Some,
            self.index < self.tasks@.len(),
            self.plan->0@.task(texts(self.tasks@)[self.index as int]) is Some,
        ensures
            forall|phase: PhaseView|
                r@ == #[trigger] self.at(phase).retaining(
                    claimed_record(worktree@, now),
                    PhaseView::SavingStep,
                ),
    {
        let runtime = RuntimeRecord::claimed(worktree, now);
        Pass { ground: self.retain(runtime), phase: Phase::SavingStep }
    }

    /// Retains a step of the provisioning, unless it was refused.
    fn advance(self, runtime: RuntimeRecord, done: Result<(), runtime::Error>) -> (r: Pass)
        requires
            self.on_runtime(),
            runtime@.stage == RuntimeStage::WorkerIdentified ==> runtime@.worker_identity is Some,
        ensures
            r@ == (match done {
                Ok(_) => self.at(PhaseView::Provisioning).retaining(
                    runtime@,
                    PhaseView::SavingStep,
                ),
                Err(error) => self.at(stopped(ErrorView::Runtime(error@))),
            }),
    {
        match done {
            Ok(()) => Pass { ground: self.retain(runtime), phase: Phase::SavingStep },
            Err(error) => self.stop(Error::Runtime(error)),
        }
    }

    fn provisioned(self, event: Event) -> (r: Pass)
        requires
            self.on_runtime(),
            self.at(PhaseView::Provisioning).identified(),
        ensures
            r@ == self.at(PhaseView::Provisioning).provisioned(event@),
    {
        let mut runtime = self.runtime();
        assert(runtime@ == self.at(PhaseView::Provisioning).runtime());
        match (runtime.stage, event) {
            (RuntimeStage::Claimed, Event::Workspace(result)) => match result {
                Err(error) => self.stop(Error::Herdr(error)),
                Ok(workspace) => {
                    let done = runtime.record_workspace(&workspace);
                    self.advance(runtime, done)
                },
            },
            (RuntimeStage::WorktreeCreated, Event::Checked(result)) => match result {
                Err(error) => self.stop(Error::Worktree(error)),
                Ok(()) => {
                    let done = runtime.record_queue_link();
                    self.advance(runtime, done)
                },
            },
            (RuntimeStage::QueueLinked, Event::Started(result)) => match result {
                Err(error) => self.stop(Error::Herdr(error)),
                Ok(worker) => {
                    let done = runtime.record_worker(&worker);
                    self.advance(runtime, done)
                },
            },
            (RuntimeStage::WorkerStarted, Event::Discovered(result)) => match result {
                Err(error) => self.stop(Error::Identity(error)),
                Ok(found) => {
                    let done = runtime.record_identity(found);
                    self.advance(runtime, done)
                },
            },
            (RuntimeStage::WorkerIdentified, Event::Sent(result)) => match result {
                Err(error) => self.stop(Error::Mail(error)),
                Ok(receipt) => {
                    let done = runtime.record_handoff(receipt);
                    self.advance(runtime, done)
                },
            },
            (RuntimeStage::HandoffSent, Event::Prompted(result)) => match result {
                Err(error) => self.stop(Error::Herdr(error)),
                Ok(()) => Pass { ground: self, phase: Phase::Activating },
            },
            _ => Pass { ground: self, phase: Phase::Provisioning },
        }
    }

    fn activated(self, now: u64) -> (r: Pass)
        requires
            self.on_runtime(),
        ensures
            forall|phase: PhaseView|
                r@ == #[trigger] self.at(phase).changing(
                    self.at(phase).runtime().activated(now, self.lease_seconds),
                    PhaseView::SavingActive { now },
                ),
    {
        let mut runtime = self.runtime();
        match runtime.activate(now, self.lease_seconds) {
            Err(error) => self.stop(Error::Runtime(error)),
            Ok(()) => Pass { ground: self.retain(runtime), phase: Phase::SavingActive { now } },
        }
    }

    fn launched(self, now: u64) -> (r: Pass)
        requires
            self.on_runtime(),
        ensures
            forall|phase: PhaseView|
                r@ == #[trigger] self.at(phase).unless_expired(
                    now,
                    self.at(phase).launch(self.index + 1),
                ),
    {
        match self.lease_fault(now) {
            Some(error) => self.stop(error),
            None => {
                let next = self.next_index();
                self.launch(next)
            },
        }
    }

    fn closed(self, plan: ScopedPlan) -> (r: Pass)
        ensures
            forall|phase: PhaseView| r@ == #[trigger] self.at(phase).closed(plan@),
    {
        let status = if completion_ready(&plan, &self.ledger) {
            FinishStatus::Complete
        } else {
            FinishStatus::Active
        };
        let mut ground = self;
        ground.plan = Some(plan);
        Pass { ground, phase: Phase::Ended(Ok(status)) }
    }
}

impl Pass {
    /// Begins a pass over a run.
    pub fn new(ledger: RunLedger, lease_seconds: u64, model: Option<String>) -> (r: Pass)
        ensures
            r@ == (PassView {
                ledger: ledger@,
                lease_seconds,
                model: shown(model),
                plan: None,
                tasks: Seq::empty(),
                index: 0,
                phase: PhaseView::Opening,
            }),
    {
        let tasks: Vec<String> = Vec::new();
        assert(texts(tasks@) =~= Seq::empty());
        Pass {
            ground: Ground { ledger, lease_seconds, model, plan: None, tasks, index: 0 },
            phase: Phase::Opening,
        }
    }

    /// Goes on with the outcome of the action that the pass waits for.
    pub fn step(self, event: Event) -> (r: Pass)
        ensures
            r@ == self@.step(event@),
    {
        proof {
            use_type_invariant(&self);
        }
        let Pass { ground, phase } = self;
        match (phase, event) {
            (Phase::Opening, Event::Plan(result)) => match result {
                Err(error) => ground.stop(plan_refused(error)),
                Ok(plan) => ground.opened(plan),
            },
            (Phase::Verifying, Event::Checked(result)) => match result {
                Err(error) => ground.stop(Error::Worktree(error)),
                Ok(()) => ground.verified(),
            },
            (Phase::Scanning { worker }, Event::Scanned(result)) => match result {
                Err(error) => ground.stop(Error::Mail(error)),
                Ok(None) => Pass { ground, phase: Phase::Discovering },
                Ok(Some(received)) => ground.reported(received),
            },
            (Phase::Delivering { received }, Event::Checked(result)) => match result {
                Err(error) => ground.stop(Error::Worktree(error)),
                Ok(()) => ground.received(received),
            },
            (Phase::SavingReport, Event::Saved(result)) => match result {
                Err(error) => ground.stop(Error::Runtime(error)),
                Ok(()) => Pass { ground, phase: Phase::Marking { fresh: true } },
            },
            (Phase::Marking { fresh }, Event::Marked(result)) => match result {
                Err(error) => ground.stop(Error::Mail(error)),
                Ok(()) => ground.marked(fresh),
            },
            (Phase::SavingSettled { fresh }, Event::Saved(result)) => match result {
                Err(error) => ground.stop(Error::Runtime(error)),
                Ok(()) => ground.settled(fresh),
            },
            (Phase::Discovering, Event::Discovered(result)) => match result {
                Err(error) => Pass { ground, phase: Phase::Missing { detail: error.message() } },
                Ok(found) => ground.discovered(found),
            },
            (Phase::Missing { detail }, Event::Clock(result)) => match result {
                Err(error) => ground.stop(Error::Runtime(error)),
                Ok(now) => ground.missed(detail, now),
            },
            (Phase::SavingMissing { now }, Event::Saved(result)) => match result {
                Err(error) => ground.stop(Error::Runtime(error)),
                Ok(()) => ground.past_lease(now),
            },
            (Phase::Observing { worker }, Event::Observed(result)) => match result {
                Err(error) => {
                    let task_id = ground.task_id().clone();
                    ground.stop(Error::LostWorker { task_id, detail: error.message() })
                },
                Ok(status) => Pass { ground, phase: Phase::Timing { status } },
            },
            (Phase::Timing { status }, Event::Clock(result)) => match result {
                Err(error) => ground.stop(Error::Runtime(error)),
                Ok(now) => ground.timed(status, now),
            },
            (Phase::SavingHeartbeat { status, now }, Event::Saved(result)) => match result {
                Err(error) => ground.stop(Error::Runtime(error)),
                Ok(()) => ground.beaten(status, now),
            },
            (Phase::Refreshing, Event::Plan(result)) => match result {
                Err(error) => ground.stop(plan_refused(error)),
                Ok(plan) => ground.refreshed(plan),
            },
            (Phase::Planning, Event::Worktree(result)) => match result {
                Err(error) => ground.stop(Error::Worktree(error)),
                Ok(worktree) => Pass { ground, phase: Phase::Claiming { worktree } },
            },
            (Phase::Claiming { worktree }, Event::Plan(result)) => match result {
                Err(error) => ground.stop(plan_refused(error)),
                Ok(plan) => ground.claimed(plan, worktree),
            },
            (Phase::Stamping { worktree }, Event::Clock(result)) => match result {
                Err(error) => ground.stop(Error::Runtime(error)),
                Ok(now) => ground.stamped(worktree, now),
            },
            (Phase::SavingStep, Event::Saved(result)) => match result {
                Err(error) => ground.stop(Error::Runtime(error)),
                Ok(()) => Pass { ground, phase: Phase::Provisioning },
            },
            (Phase::Provisioning, event) => ground.provisioned(event),
            (Phase::Activating, Event::Clock(result)) => match result {
                Err(error) => ground.stop(Error::Runtime(error)),
                Ok(now) => ground.activated(now),
            },
            (Phase::SavingActive { now }, Event::Saved(result)) => match result {
                Err(error) => ground.stop(Error::Runtime(error)),
                Ok(()) => ground.launched(now),
            },
            (Phase::Closing, Event::Plan(result)) => match result {
                Err(error) => ground.stop(plan_refused(error)),
                Ok(plan) => ground.closed(plan),
            },
            (phase, _) => Pass { ground, phase },
        }
    }

    /// The ledger as the pass has it.
    pub fn ledger(&self) -> (r: &RunLedger)
        ensures
            r@ == self@.ledger,
    {
        &self.ground.ledger
    }

    /// Whether the pass has ended.
    pub fn has_ended(&self) -> (r: bool)
        ensures
            r == (self@.phase is Ended),
    {
        matches!(self.phase, Phase::Ended(_))
    }

    /// The ledger and the end of a pass that has ended.
    pub fn into_end(self) -> (r: (RunLedger, Result<FinishStatus, Error>))
        requires
            self@.phase is Ended,
        ensures
            r.0@ == self@.ledger,
            self@.phase == PhaseView::Ended(seen(r.1)),
    {
        let Pass { ground, phase } = self;
        match phase {
            Phase::Ended(result) => (ground.ledger, result),
            _ => (ground.ledger, Ok(FinishStatus::Active)),
        }
    }
}

// ---------------------------------------------------------------------------------------------
// Actions

/// What is to be done next, and with what.
#[allow(inconsistent_fields)]
pub enum Action<'a> {
    /// Read the plan as the run may work on it.
    ReadPlan {
        queue: &'a str,
        root_task_id: &'a str,
        run_id: &'a str,
        expected: &'a PlanSnapshot,
    },
    /// Check a retained worktree, and that it is linked to the queue.
    VerifyWorktree { worktree: &'a WorktreePlan, queue: &'a str },
    /// Look for the report on a task in the unread mail.
    ScanReport {
        orchestrator: &'a Identity,
        worker: &'a Identity,
        task_id: &'a str,
        run_id: &'a str,
    },
    /// Check what was delivered.
    VerifyDeliverable { worktree: &'a WorktreePlan, deliverable: Deliverable },
    /// Mark a message as read.
    MarkRead { message_id: &'a str },
    /// Save the ledger.
    SaveLedger { ledger: &'a RunLedger },
    /// Find the agent that works in a worktree.
    DiscoverWorker { worktree: &'a str },
    /// Ask for the state of a worker.
    ObserveWorker { worker: &'a Worker },
    /// Read the clock.
    ReadClock,
    /// Plan the worktree of a task.
    PlanWorktree { plan: &'a ScopedPlan, worktree_root: &'a str, task_id: &'a str },
    /// Claim a task.
    Claim { plan: &'a ScopedPlan, task_id: &'a str, run_id: &'a str },
    /// Create a worktree with its workspace.
    CreateWorktree {
        repo: &'a str,
        branch: &'a str,
        base: &'a str,
        path: &'a str,
        task_label: String,
    },
    /// Link a worktree to the queue.
    LinkQueue { worktree: &'a str, queue: &'a str },
    /// Start a worker.
    StartWorker {
        workspace: WorkerWorkspace,
        run_id: &'a str,
        task_id: &'a str,
        model: Option<&'a str>,
    },
    /// Send a handoff.
    SendHandoff { handoff: Handoff<'a> },
    /// Prompt a worker that has its handoff.
    PromptWorker { worker: Worker, receipt: &'a str, prompt: String },
    /// Nothing.
    Rest,
}

/// What an action says.
#[allow(inconsistent_fields)]
pub enum ActionView {
    ReadPlan {
        queue: Seq<char>,
        root_task_id: Seq<char>,
        run_id: Seq<char>,
        expected: SnapshotView,
    },
    VerifyWorktree { worktree: WorktreeView, queue: Seq<char> },
    ScanReport {
        orchestrator: IdentityView,
        worker: IdentityView,
        task_id: Seq<char>,
        run_id: Seq<char>,
    },
    VerifyDeliverable { worktree: WorktreeView, deliverable: DeliverableView },
    MarkRead { message_id: Seq<char> },
    SaveLedger { ledger: LedgerView },
    DiscoverWorker { worktree: Seq<char> },
    ObserveWorker { worker: WorkerView },
    ReadClock,
    PlanWorktree { plan: PlanView, worktree_root: Seq<char>, task_id: Seq<char> },
    Claim { plan: PlanView, task_id: Seq<char>, run_id: Seq<char> },
    CreateWorktree {
        repo: Seq<char>,
        branch: Seq<char>,
        base: Seq<char>,
        path: Seq<char>,
        task_label: Seq<char>,
    },
    LinkQueue { worktree: Seq<char>, queue: Seq<char> },
    StartWorker {
        workspace: WorkspaceView,
        run_id: Seq<char>,
        task_id: Seq<char>,
        model: Option<Seq<char>>,
    },
    SendHandoff { handoff: HandoffView },
    PromptWorker { worker: WorkerView, receipt: Seq<char>, prompt: Seq<char> },
    Rest,
}

impl<'a> View for Action<'a> {
    type V = ActionView;

    open spec fn view(&self) -> ActionView {
        match *self {
            Action::ReadPlan { queue, root_task_id, run_id, expected } => ActionView::ReadPlan {
                queue: queue@,
                root_task_id: root_task_id@,
                run_id: run_id@,
                expected: expected@,
            },
            Action::VerifyWorktree { worktree, queue } => ActionView::VerifyWorktree {
                worktree: worktree@,
                queue: queue@,
            },
            Action::ScanReport { orchestrator, worker, task_id, run_id } => ActionView::ScanReport {
                orchestrator: orchestrator@,
                worker: worker@,
                task_id: task_id@,
                run_id: run_id@,
            },
            Action::VerifyDeliverable { worktree, deliverable } => ActionView::VerifyDeliverable {
                worktree: worktree@,
                deliverable: deliverable@,
            },
            Action::MarkRead { message_id } => ActionView::MarkRead { message_id: message_id@ },
            Action::SaveLedger { ledger } => ActionView::SaveLedger { ledger: ledger@ },
            Action::DiscoverWorker { worktree } => ActionView::DiscoverWorker {
                worktree: worktree@,
            },
            Action::ObserveWorker { worker } => ActionView::ObserveWorker { worker: worker@ },
            Action::ReadClock => ActionView::ReadClock,
            Action::PlanWorktree { plan, worktree_root, task_id } => ActionView::PlanWorktree {
                plan: plan@,
                worktree_root: worktree_root@,
                task_id: task_id@,
            },
            Action::Claim { plan, task_id, run_id } => ActionView::Claim {
                plan: plan@,
                task_id: task_id@,
                run_id: run_id@,
            },
            Action::CreateWorktree { repo, branch, base, path, task_label } =>
                ActionView::CreateWorktree {
                repo: repo@,
                branch: branch@,
                base: base@,
                path: path@,
                task_label: task_label@,
            },
            Action::LinkQueue { worktree, queue } => ActionView::LinkQueue {
                worktree: worktree@,
                queue: queue@,
            },
            Action::StartWorker { workspace, run_id, task_id, model } => ActionView::StartWorker {
                workspace: workspace@,
                run_id: run_id@,
                task_id: task_id@,
                model: shown(model),
            },
            Action::SendHandoff { handoff } => ActionView::SendHandoff { handoff: handoff@ },
            Action::PromptWorker { worker, receipt, prompt } => ActionView::PromptWorker {
                worker: worker@,
                receipt: receipt@,
                prompt: prompt@,
            },
            Action::Rest => ActionView::Rest,
        }
    }
}

/// What a worker is prompted with.
pub open spec fn prompt_text(receipt: Seq<char>, orchestrator: Seq<char>) -> Seq<char> {
    "Read AgentMail message "@ + receipt + " from "@ + orchestrator
        + " and execute that handoff. Report results only through AgentMail as the handoff specifies."@
}

impl PassView {
    /// The next step of the provisioning.
    pub open spec fn provision(self) -> ActionView {
        let runtime = self.runtime();
        match runtime.stage {
            RuntimeStage::Claimed => ActionView::CreateWorktree {
                repo: self.ledger.repo,
                branch: runtime.worktree.branch,
                base: runtime.worktree.base,
                path: runtime.worktree.path,
                task_label: self.task_id() + ": "@ + self.task().title,
            },
            RuntimeStage::WorktreeCreated => ActionView::LinkQueue {
                worktree: runtime.worktree.path,
                queue: self.ledger.queue,
            },
            RuntimeStage::QueueLinked => ActionView::StartWorker {
                workspace: WorkspaceView {
                    workspace_id: text_or_nothing(runtime.workspace_id),
                    pane_id: text_or_nothing(runtime.pane_id),
                },
                run_id: self.ledger.run_id,
                task_id: self.task_id(),
                model: self.model,
            },
            RuntimeStage::WorkerStarted => ActionView::DiscoverWorker {
                worktree: runtime.worktree.path,
            },
            RuntimeStage::WorkerIdentified => ActionView::SendHandoff {
                handoff: HandoffView {
                    run_id: self.ledger.run_id,
                    task_id: self.task_id(),
                    title: self.task().title,
                    description: self.task().description,
                    queue: self.ledger.queue,
                    worktree: runtime.worktree.path,
                    branch: runtime.worktree.branch,
                    dependencies: self.task().blocked_by,
                    acceptance_criteria: self.task().acceptance_criteria,
                    validation_checks: self.task().validation_checks,
                    orchestrator: self.ledger.orchestrator,
                    worker: runtime.worker_identity->0,
                },
            },
            RuntimeStage::HandoffSent => ActionView::PromptWorker {
                worker: WorkerView {
                    name: text_or_nothing(runtime.worker_name),
                    workspace_id: text_or_nothing(runtime.workspace_id),
                    pane_id: text_or_nothing(runtime.pane_id),
                },
                receipt: text_or_nothing(runtime.handoff_receipt),
                prompt: prompt_text(
                    text_or_nothing(runtime.handoff_receipt),
                    self.ledger.orchestrator.slug,
                ),
            },
            _ => ActionView::Rest,
        }
    }

    /// What is to be done next.
    pub open spec fn action(self) -> ActionView {
        let read_plan = ActionView::ReadPlan {
            queue: self.ledger.queue,
            root_task_id: self.ledger.root_task_id,
            run_id: self.ledger.run_id,
            expected: self.ledger.plan,
        };
        let save = ActionView::SaveLedger { ledger: self.ledger };
        match self.phase {
            PhaseView::Opening => read_plan,
            PhaseView::Verifying => ActionView::VerifyWorktree {
                worktree: self.runtime().worktree,
                queue: self.ledger.queue,
            },
            PhaseView::Scanning { worker } => ActionView::ScanReport {
                orchestrator: self.ledger.orchestrator,
                worker,
                task_id: self.task_id(),
                run_id: self.ledger.run_id,
            },
            PhaseView::Delivering { received } => ActionView::VerifyDeliverable {
                worktree: self.runtime().worktree,
                deliverable: delivered(received.report.commit, received.report.artifact),
            },
            PhaseView::SavingReport => save,
            PhaseView::Marking { fresh } => ActionView::MarkRead {
                message_id: text_or_nothing(self.runtime().report_message_id),
            },
            PhaseView::SavingSettled { fresh } => save,
            PhaseView::Discovering => ActionView::DiscoverWorker {
                worktree: self.runtime().worktree.path,
            },
            PhaseView::Missing { detail } => ActionView::ReadClock,
            PhaseView::SavingMissing { now } => save,
            PhaseView::Observing { worker } => ActionView::ObserveWorker { worker },
            PhaseView::Timing { status } => ActionView::ReadClock,
            PhaseView::SavingHeartbeat { status, now } => save,
            PhaseView::Refreshing => read_plan,
            PhaseView::Planning => ActionView::PlanWorktree {
                plan: self.plan->0,
                worktree_root: self.ledger.worktree_root,
                task_id: self.task_id(),
            },
            PhaseView::Claiming { worktree } => ActionView::Claim {
                plan: self.plan->0,
                task_id: self.task_id(),
                run_id: self.ledger.run_id,
            },
            PhaseView::Stamping { worktree } => ActionView::ReadClock,
            PhaseView::SavingStep => save,
            PhaseView::Provisioning => self.provision(),
            PhaseView::Activating => ActionView::ReadClock,
            PhaseView::SavingActive { now } => save,
            PhaseView::Closing => read_plan,
            PhaseView::Ended(_) => ActionView::Rest,
        }
    }
}

/// A text, where there is none the empty one.
fn or_nothing<'a>(text: &'a Option<String>) -> (r: &'a str)
    ensures
        r@ == text_or_nothing(shown(*text)),
{
    match text {
        Some(text) => text.as_str(),
        None => {
            proof {
                reveal_strlit("");
                assert(""@ =~= Seq::<char>::empty());
            }
            ""
        },
    }
}

impl Pass {
    /// The next step of the provisioning.
    fn provision<'a>(&'a self) -> (r: Action<'a>)
        requires
            self.ground.on_runtime(),
            self.ground.at(PhaseView::Provisioning).identified(),
        ensures
            r@ == self.ground.at(PhaseView::Provisioning).provision(),
    {
        let ground = &self.ground;
        let ledger = &ground.ledger;
        let id = ground.task_id();
        assert(ledger.runtimes@.contains_key(id@));
        let runtime = ledger.runtimes.get(id.as_str()).unwrap();
        assert(runtime@ == ground.at(PhaseView::Provisioning).runtime());
        let task = ground.plan.as_ref().unwrap().task(id.as_str()).unwrap();
        match runtime.stage {
            RuntimeStage::Claimed => {
                let mut task_label = id.clone();
                task_label.append(": ");
                task_label.append(task.title());
                Action::CreateWorktree {
                    repo: ledger.repo.as_str(),
                    branch: runtime.worktree.branch.as_str(),
                    base: runtime.worktree.base.as_str(),
                    path: runtime.worktree.path.as_str(),
                    task_label,
                }
            },
            RuntimeStage::WorktreeCreated => Action::LinkQueue {
                worktree: runtime.worktree.path.as_str(),
                queue: ledger.queue.as_str(),
            },
            RuntimeStage::QueueLinked => Action::StartWorker {
                workspace: WorkerWorkspace {
                    workspace_id: or_nothing(&runtime.workspace_id).to_owned(),
                    pane_id: or_nothing(&runtime.pane_id).to_owned(),
                },
                run_id: ledger.run_id.as_str(),
                task_id: id.as_str(),
                model: match &ground.model {
                    Some(model) => Some(model.as_str()),
                    None => None,
                },
            },
            RuntimeStage::WorkerStarted => Action::DiscoverWorker {
                worktree: runtime.worktree.path.as_str(),
            },
            RuntimeStage::WorkerIdentified => Action::SendHandoff {
                handoff: Handoff {
                    run_id: ledger.run_id.as_str(),
                    task_id: id.as_str(),
                    title: task.title(),
                    description: task.description(),
                    queue: ledger.queue.as_str(),
                    worktree: runtime.worktree.path.as_str(),
                    branch: runtime.worktree.branch.as_str(),
                    dependencies: task.blocked_by(),
                    acceptance_criteria: task.acceptance_criteria(),
                    validation_checks: task.validation_checks(),
                    orchestrator: &ledger.orchestrator,
                    worker: runtime.worker_identity.as_ref().unwrap(),
                },
            },
            RuntimeStage::HandoffSent => {
                let receipt = or_nothing(&runtime.handoff_receipt);
                let mut prompt = "Read AgentMail message ".to_owned();
                prompt.append(receipt);
                prompt.append(" from ");
                prompt.append(ledger.orchestrator.slug.as_str());
                prompt.append(
                    " and execute that handoff. Report results only through AgentMail as the handoff specifies.",
                );
                Action::PromptWorker {
                    worker: Worker {
                        name: or_nothing(&runtime.worker_name).to_owned(),
                        workspace_id: or_nothing(&runtime.workspace_id).to_owned(),
                        pane_id: or_nothing(&runtime.pane_id).to_owned(),
                    },
                    receipt,
                    prompt,
                }
            },
            _ => Action::Rest,
        }
    }

    /// The retained runtime of the task that the pass is at.
    fn current<'a>(&'a self) -> (r: &'a RuntimeRecord)
        requires
            self.ground.on_runtime(),
        ensures
            r@ == self@.runtime(),
    {
        let id = self.ground.task_id();
        assert(self.ground.ledger.runtimes@.contains_key(id@));
        self.ground.ledger.runtimes.get(id.as_str()).unwrap()
    }

    /// What is to be done next.
    pub fn action<'a>(&'a self) -> (r: Action<'a>)
        ensures
            r@ == self@.action(),
    {
        proof {
            use_type_invariant(self);
        }
        let ledger = &self.ground.ledger;
        match &self.phase {
            Phase::Opening | Phase::Refreshing | Phase::Closing => Action::ReadPlan {
                queue: ledger.queue.as_str(),
                root_task_id: ledger.root_task_id.as_str(),
                run_id: ledger.run_id.as_str(),
                expected: &ledger.plan,
            },
            Phase::Verifying => Action::VerifyWorktree {
                worktree: &self.current().worktree,
                queue: ledger.queue.as_str(),
            },
            Phase::Scanning { worker } => Action::ScanReport {
                orchestrator: &ledger.orchestrator,
                worker,
                task_id: self.ground.task_id().as_str(),
                run_id: ledger.run_id.as_str(),
            },
            Phase::Delivering { received } => {
                let commit = match &received.report.commit {
                    Some(commit) => Some(commit.as_str()),
                    None => None,
                };
                let artifact = match &received.report.artifact {
                    Some(artifact) => Some(artifact.as_str()),
                    None => None,
                };
                Action::VerifyDeliverable {
                    worktree: &self.current().worktree,
                    deliverable: report_deliverable(commit, artifact),
                }
            },
            Phase::Marking { .. } => Action::MarkRead {
                message_id: or_nothing(&self.current().report_message_id),
            },
            Phase::Discovering => Action::DiscoverWorker {
                worktree: self.current().worktree.path.as_str(),
            },
            Phase::Observing { worker } => Action::ObserveWorker { worker },
            Phase::Missing { .. } | Phase::Timing { .. } | Phase::Stamping { .. }
            | Phase::Activating => Action::ReadClock,
            Phase::Planning => Action::PlanWorktree {
                plan: self.ground.plan.as_ref().unwrap(),
                worktree_root: ledger.worktree_root.as_str(),
                task_id: self.ground.task_id().as_str(),
            },
            Phase::Claiming { .. } => Action::Claim {
                plan: self.ground.plan.as_ref().unwrap(),
                task_id: self.ground.task_id().as_str(),
                run_id: ledger.run_id.as_str(),
            },
            Phase::Provisioning => self.provision(),
            Phase::SavingReport | Phase::SavingSettled { .. } | Phase::SavingMissing { .. }
            | Phase::SavingHeartbeat { .. } | Phase::SavingStep | Phase::SavingActive { .. } =>
                Action::SaveLedger { ledger },
            Phase::Ended(_) => Action::Rest,
        }
    }
}

} // verus!
