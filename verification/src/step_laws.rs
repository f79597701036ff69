//! What each step of a pass does, and what it asks for, in terms of the ledger and the queue.
use vstd::prelude::*;
use crate::finish::{completed, orphan_error, ErrorView, FinishStatus};
use crate::graph::scope_is_closed;
use crate::herdr::{self, AgentStatus, WorkerView, WorkspaceView};
use crate::identity::{self, IdentityView};
use crate::json::JsonView;
use crate::mail::{self, HandoffView, ReportStatus};
use crate::pass::{
    next_ready, next_retained, taken_up, unlocked, ActionView, EventView, PassView, PhaseView,
    ReceivedView,
};
use crate::runtime::{self, LedgerView, RecordView};
use crate::runtime_laws::handles_are_given_back;
use crate::sq::{self, graph_of, PlanView, TaskStatus, TaskView};
use crate::sq_laws::{holds_texts, in_metadata, tasks_say_what_the_queue_says};
use crate::table::listed;
use crate::text::blank;
use crate::text_laws::{begins, ends, says, says_something};
use crate::worktree::{DeliverableView, WorktreeView};
use crate::worktree_laws::commits_come_before_artifacts;

verus! {

// ---------------------------------------------------------------------------------------------
// What is handed out

/// A handoff says of its task what the queue declares: the title and the description, the blockers as
/// dependencies, and out of the metadata the acceptance criteria as such and the checks as validation
/// checks. It is sent by the orchestrator of the run to the worker of the task.
pub proof fn handoffs_say_what_the_queue_declares(pass: PassView, handoff: HandoffView)
    requires
        pass.well_placed(),
        pass.plan is Some ==> pass.plan->0.valid() && pass.plan->0.queue.well_formed(),
        pass.action() == (ActionView::SendHandoff { handoff }),
    ensures
        pass.plan is Some,
        ({
            let raw = pass.plan->0.queue.tasks[handoff.task_id].raw;
            &&& raw.field("id"@) == Some(JsonView::Text(handoff.task_id))
            &&& raw.field("title"@) == Some(JsonView::Text(handoff.title))
            &&& raw.field("description"@) == Some(JsonView::Text(handoff.description))
            &&& match raw.field("blocked_by"@) {
                None => handoff.dependencies.len() == 0,
                Some(JsonView::Null) => handoff.dependencies.len() == 0,
                Some(value) => holds_texts(value, handoff.dependencies),
            }
            &&& match in_metadata(raw, "acceptance_criteria"@) {
                None => handoff.acceptance_criteria.len() == 0,
                Some(value) => holds_texts(value, handoff.acceptance_criteria),
            }
            &&& match in_metadata(raw, "checks"@) {
                None => handoff.validation_checks.len() == 0,
                Some(value) => holds_texts(value, handoff.validation_checks),
            }
        }),
        pass.ledger.runtimes.contains_key(handoff.task_id),
        ({
            let runtime = pass.ledger.runtimes[handoff.task_id];
            &&& runtime.stage is WorkerIdentified
            &&& runtime.worktree.path == handoff.worktree
            &&& runtime.worktree.branch == handoff.branch
            &&& runtime.worker_identity == Some(handoff.worker)
        }),
        handoff.run_id == pass.ledger.run_id,
        handoff.queue == pass.ledger.queue,
        handoff.orchestrator == pass.ledger.orchestrator,
{
    let plan = pass.plan->0;
    let g = graph_of(plan.queue.tasks);
    assert(g.dom() =~= plan.queue.tasks.dom());
    scope_is_closed(g, plan.root_task_id);
    let task = plan.queue.tasks[pass.task_id()];
    assert(plan.queue.tasks.contains_key(pass.task_id()));
    tasks_say_what_the_queue_says(task.raw, task);
}

/// A worktree is made as it was planned, in the repository of the run, under a label of the ID and
/// the title that the queue declares.
pub proof fn worktrees_are_made_as_planned(
    pass: PassView,
    repo: Seq<char>,
    branch: Seq<char>,
    base: Seq<char>,
    path: Seq<char>,
    task_label: Seq<char>,
)
    requires
        pass.well_placed(),
        pass.plan is Some ==> pass.plan->0.valid() && pass.plan->0.queue.well_formed(),
        pass.action() == (ActionView::CreateWorktree { repo, branch, base, path, task_label }),
    ensures
        ({
            let runtime = pass.ledger.runtimes[pass.tasks[pass.index]];
            &&& runtime.stage is Claimed
            &&& branch == runtime.worktree.branch && base == runtime.worktree.base
            &&& path == runtime.worktree.path
        }),
        repo == pass.ledger.repo,
        begins(task_label, pass.tasks[pass.index] + ": "@),
        pass.plan->0.queue.tasks[pass.tasks[pass.index]].raw.field("title"@) == Some(
            JsonView::Text(task_label.skip((pass.tasks[pass.index] + ": "@).len() as int)),
        ),
{
    let plan = pass.plan->0;
    let g = graph_of(plan.queue.tasks);
    assert(g.dom() =~= plan.queue.tasks.dom());
    scope_is_closed(g, plan.root_task_id);
    let task = plan.queue.tasks[pass.task_id()];
    assert(plan.queue.tasks.contains_key(pass.task_id()));
    tasks_say_what_the_queue_says(task.raw, task);
    let head = pass.task_id() + ": "@;
    assert(task_label.take(head.len() as int) =~= head);
    assert(task_label.skip(head.len() as int) =~= task.title);
}

/// What is asked for on the way to a worker is about the task of the pass: its worktree gets the queue
/// of the run, its worker starts in its own workspace and pane with the model of the run, and is
/// looked for in its own worktree.
pub proof fn provisioning_is_about_the_task(pass: PassView)
    requires
        pass.well_placed(),
    ensures
        pass.action() matches ActionView::LinkQueue { worktree, queue } ==> {
            let runtime = pass.ledger.runtimes[pass.tasks[pass.index]];
            runtime.stage is WorktreeCreated && worktree == runtime.worktree.path && queue
                == pass.ledger.queue
        },
        pass.action() matches ActionView::StartWorker { workspace, run_id, task_id, model } ==> {
            let runtime = pass.ledger.runtimes[pass.tasks[pass.index]];
            &&& runtime.stage is QueueLinked
            &&& runtime.workspace_id is Some ==> workspace.workspace_id == runtime.workspace_id->0
            &&& runtime.pane_id is Some ==> workspace.pane_id == runtime.pane_id->0
            &&& run_id == pass.ledger.run_id
            &&& task_id == pass.tasks[pass.index]
            &&& model == pass.model
        },
        pass.action() matches ActionView::DiscoverWorker { worktree } ==> worktree
            == pass.ledger.runtimes[pass.tasks[pass.index]].worktree.path,
        pass.action() matches ActionView::PlanWorktree { plan, worktree_root, task_id } ==> Some(plan)
            == pass.plan && worktree_root == pass.ledger.worktree_root && task_id
            == pass.tasks[pass.index],
        pass.action() matches ActionView::Claim { plan, task_id, run_id } ==> Some(plan) == pass.plan
            && task_id == pass.tasks[pass.index] && run_id == pass.ledger.run_id,
{
}

/// A worker is prompted in its own pane, and told the receipt of its handoff and the slug of the
/// orchestrator that sent it.
pub proof fn prompts_tell_of_the_handoff(pass: PassView)
    ensures
        pass.action() matches ActionView::PromptWorker { worker, receipt, prompt } ==> {
            let runtime = pass.ledger.runtimes[pass.tasks[pass.index]];
            &&& runtime.stage is HandoffSent
            &&& runtime.worker_name is Some ==> worker.name == runtime.worker_name->0
            &&& runtime.workspace_id is Some ==> worker.workspace_id == runtime.workspace_id->0
            &&& runtime.pane_id is Some ==> worker.pane_id == runtime.pane_id->0
            &&& runtime.handoff_receipt is Some ==> receipt == runtime.handoff_receipt->0
            &&& begins(
                prompt,
                "Read AgentMail message "@ + receipt + " from "@ + pass.ledger.orchestrator.slug,
            )
            &&& ends(
                prompt,
                " and execute that handoff. Report results only through AgentMail as the handoff specifies."@,
            )
        },
{
    if let ActionView::PromptWorker { worker, receipt, prompt } = pass.action() {
        let head = "Read AgentMail message "@ + receipt + " from "@ + pass.ledger.orchestrator.slug;
        let tail =
            " and execute that handoff. Report results only through AgentMail as the handoff specifies."@;
        assert(prompt == head + tail);
        assert(prompt.take(head.len() as int) =~= head);
        assert(prompt.skip(prompt.len() - tail.len()) =~= tail);
    }
}

/// What is asked for of a retained task is about it: its own worktree with the queue of the run is
/// checked, its report is looked for in the mail of the orchestrator, and its own message is marked.
pub proof fn taking_up_is_about_the_task(pass: PassView)
    ensures
        pass.action() matches ActionView::VerifyWorktree { worktree, queue } ==> worktree
            == pass.ledger.runtimes[pass.tasks[pass.index]].worktree && queue == pass.ledger.queue,
        pass.action() matches ActionView::ScanReport { orchestrator, worker, task_id, run_id }
            ==> orchestrator == pass.ledger.orchestrator && task_id == pass.tasks[pass.index]
            && run_id == pass.ledger.run_id,
        pass.action() matches ActionView::MarkRead { message_id } ==> (
        pass.ledger.runtimes[pass.tasks[pass.index]].report_message_id is Some ==> message_id
            == pass.ledger.runtimes[pass.tasks[pass.index]].report_message_id->0),
        pass.action() matches ActionView::VerifyDeliverable { worktree, deliverable } ==> {
            &&& worktree == pass.ledger.runtimes[pass.tasks[pass.index]].worktree
            &&& pass.phase matches PhaseView::Delivering { received } && (deliverable is Commit
                <==> says(received.report.commit)) && (received.report.artifact is Some ==> (
            deliverable matches DeliverableView::Artifact(a) ==> a == received.report.artifact->0))
        },
        pass.action() matches ActionView::SaveLedger { ledger } ==> ledger == pass.ledger,
        pass.action() matches ActionView::ReadPlan { queue, root_task_id, run_id, expected } ==> queue
            == pass.ledger.queue && root_task_id == pass.ledger.root_task_id && run_id
            == pass.ledger.run_id && expected == pass.ledger.plan,
{
    if let PhaseView::Delivering { received } = pass.phase {
        commits_come_before_artifacts(
            received.report.commit,
            received.report.artifact,
        );
    }
}

// ---------------------------------------------------------------------------------------------
// Taking up what is retained

/// A checked worktree leads on: to the mail of the worker, or for a report that already came in to
/// marking its message.
pub proof fn checked_worktrees_lead_on(pass: PassView)
    requires
        pass.phase is Verifying,
    ensures
        ({
            let next = pass.step(EventView::Checked(Ok(())));
            let runtime = pass.ledger.runtimes[pass.tasks[pass.index]];
            &&& next.ledger == pass.ledger && next.tasks == pass.tasks && next.index == pass.index
            &&& runtime.stage is ReportReceived ==> next.action() is MarkRead && next.phase
                == (PhaseView::Marking { fresh: false })
            &&& !(runtime.stage is ReportReceived) && runtime.worker_identity is Some ==> (
            next.action() matches ActionView::ScanReport { orchestrator, worker, task_id, run_id }
                && Some(worker) == runtime.worker_identity)
            &&& !(runtime.stage is ReportReceived) && runtime.worker_identity is None ==> next.phase
                == PhaseView::Ended(
                Err(
                    ErrorView::Runtime(
                        runtime::ErrorView::MissingHandle {
                            task_id: runtime.task_id,
                            field: "worker_identity"@,
                        },
                    ),
                ),
            )
        }),
{
}

/// Without a report the worker is looked for in its worktree.
pub proof fn workers_without_a_report_are_looked_for(pass: PassView, worker: IdentityView)
    requires
        pass.phase == (PhaseView::Scanning { worker }),
    ensures
        ({
            let next = pass.step(EventView::Scanned(Ok(None)));
            &&& next.action() == (ActionView::DiscoverWorker {
                worktree: pass.ledger.runtimes[pass.tasks[pass.index]].worktree.path,
            })
            &&& next.phase is Discovering
            &&& next.ledger == pass.ledger && next.index == pass.index
        }),
{
}

/// A report that is not on the task and the run, says too little, or is at odds with the queue stops
/// the pass. A valid one of completion has what it delivers checked; any other valid one is retained
/// with its message.
pub proof fn reports_are_weighed(pass: PassView, worker: IdentityView, received: ReceivedView)
    requires
        pass.phase == (PhaseView::Scanning { worker }),
        pass.ledger.runtimes[pass.tasks[pass.index]].stage is Active,
        says_something(received.message_id),
    ensures
        ({
            let next = pass.step(EventView::Scanned(Ok(Some(received))));
            let task_id = pass.tasks[pass.index];
            let valid = received.report.fault(task_id, pass.ledger.run_id) is None;
            let status = pass.plan->0.queue.tasks[task_id].stored_status;
            let done = received.report.status == ReportStatus::Completed;
            &&& !valid ==> next.phase == PhaseView::Ended(
                Err(
                    ErrorView::Mail(received.report.fault(task_id, pass.ledger.run_id)->0),
                ),
            ) && next.ledger == pass.ledger
            &&& valid && done != (status == TaskStatus::Closed) ==> next.phase == PhaseView::Ended(
                Err(
                    ErrorView::Mail(
                        mail::ErrorView::SqStatusMismatch {
                            task_id,
                            report_status: received.report.status,
                            sq_status: status,
                        },
                    ),
                ),
            ) && next.ledger == pass.ledger
            &&& valid && done && status == TaskStatus::Closed ==> next.phase
                == (PhaseView::Delivering { received }) && next.ledger == pass.ledger
                && next.action() is VerifyDeliverable
            &&& valid && !done && status != TaskStatus::Closed ==> next.action() is SaveLedger
                && next.phase is SavingReport && next.ledger.runtimes[task_id].report == Some(
                received.report,
            ) && next.ledger.runtimes[task_id].report_message_id == Some(received.message_id)
                && next.ledger.runtimes[task_id].stage is ReportReceived
        }),
{
    assert(says_something(received.message_id) <==> !blank(received.message_id));
}

/// Once what it delivers is checked, a report is retained, saved and marked as read, and settled as
/// it says.
pub proof fn checked_reports_are_settled(
    pass: PassView,
    received: ReceivedView,
    fresh: bool,
)
    ensures
        pass.phase == (PhaseView::Delivering { received }) && pass.ledger.runtimes[
            pass.tasks[pass.index]
        ].stage is Active && says_something(received.message_id) ==> {
            let next = pass.step(EventView::Checked(Ok(())));
            let runtime = next.ledger.runtimes[pass.tasks[pass.index]];
            &&& next.action() == (ActionView::SaveLedger { ledger: next.ledger })
            &&& runtime.stage is ReportReceived
            &&& runtime.report == Some(received.report)
            &&& runtime.report_message_id == Some(received.message_id)
            &&& next.phase is SavingReport
        },
        pass.phase is SavingReport ==> {
            let next = pass.step(EventView::Saved(Ok(())));
            &&& next.action() is MarkRead
            &&& next.phase == (PhaseView::Marking { fresh: true })
            &&& next.ledger == pass.ledger
        },
        pass.phase == (PhaseView::Marking { fresh }) && pass.ledger.runtimes[
            pass.tasks[pass.index]
        ].stage is ReportReceived && pass.ledger.runtimes[pass.tasks[pass.index]].report is Some ==> {
            let next = pass.step(EventView::Marked(Ok(())));
            let status = pass.ledger.runtimes[pass.tasks[pass.index]].report->0.status;
            let stage = next.ledger.runtimes[pass.tasks[pass.index]].stage;
            &&& next.action() == (ActionView::SaveLedger { ledger: next.ledger })
            &&& next.phase == (PhaseView::SavingSettled { fresh })
            &&& stage is Completed <==> status == ReportStatus::Completed
            &&& stage is Blocked <==> status == ReportStatus::Blocked
            &&& stage is Failed <==> status == ReportStatus::Failed
        },
{
    assert(says_something(received.message_id) <==> !blank(received.message_id));
}

/// A settled report of completion lets the pass go on to what is retained behind it; any other one
/// ends it with an error that tells the task and what was reported.
pub proof fn settled_reports_go_on_or_stop(pass: PassView, fresh: bool)
    requires
        pass.phase == (PhaseView::SavingSettled { fresh }),
        pass.ledger.runtimes[pass.tasks[pass.index]].report is Some,
    ensures
        ({
            let next = pass.step(EventView::Saved(Ok(())));
            let report = pass.ledger.runtimes[pass.tasks[pass.index]].report->0;
            let behind = next_retained(pass.ledger, pass.plan->0, pass.tasks, pass.index + 1);
            &&& next.ledger == pass.ledger
            &&& report.status == ReportStatus::Completed ==> (next.index, next.phase) == behind
            &&& report.status != ReportStatus::Completed && fresh ==> (
            next.phase matches PhaseView::Ended(
                Err(ErrorView::WorkerReported { task_id, status, summary }),
            ) && task_id == pass.tasks[pass.index] && status == report.status && (report.summary
                is Some ==> summary == report.summary->0))
            &&& report.status != ReportStatus::Completed && !fresh ==> (
            next.phase matches PhaseView::Ended(
                Err(ErrorView::RetainedTerminalReport { task_id, status }),
            ) && task_id == pass.tasks[pass.index] && status == report.status)
        }),
{
}

// ---------------------------------------------------------------------------------------------
// Watching workers

/// A worker that is found is observed where it is the one that the handoff went to; another agent in
/// its place stops the pass, which names both.
pub proof fn found_workers_are_the_same(pass: PassView, found: IdentityView)
    requires
        pass.phase is Discovering,
        pass.ledger.runtimes[pass.tasks[pass.index]].worker_identity is Some,
    ensures
        ({
            let next = pass.step(EventView::Discovered(Ok(found)));
            let runtime = pass.ledger.runtimes[pass.tasks[pass.index]];
            let expected = runtime.worker_identity->0;
            &&& next.ledger == pass.ledger && next.index == pass.index
            &&& !found.same_agent(expected) ==> next.phase == PhaseView::Ended(
                Err(
                    ErrorView::ReplacedWorker {
                        task_id: pass.tasks[pass.index],
                        expected: expected.slug,
                        actual: found.slug,
                    },
                ),
            )
            &&& found.same_agent(expected) && says(runtime.workspace_id) && says(runtime.pane_id)
                && says(runtime.worker_name) ==> (next.action() matches ActionView::ObserveWorker {
                worker,
            } && Some(worker.name) == runtime.worker_name && Some(worker.workspace_id)
                == runtime.workspace_id && Some(worker.pane_id) == runtime.pane_id)
        }),
{
    handles_are_given_back(pass.runtime());
}

/// A worker that is not found is noted as such with the reason, and the pass goes on behind it while
/// the lease lasts; from its end on the pass stops.
pub proof fn missing_workers_are_waited_for_while_the_lease_lasts(
    pass: PassView,
    error: identity::ErrorView,
    detail: Seq<char>,
    now: u64,
)
    ensures
        pass.phase is Discovering ==> {
            let next = pass.step(EventView::Discovered(Err(error)));
            &&& next.action() is ReadClock
            &&& next.phase == (PhaseView::Missing { detail: error.message() })
            &&& next.ledger == pass.ledger
        },
        pass.phase == (PhaseView::Missing { detail }) && pass.ledger.runtimes[
            pass.tasks[pass.index]
        ].stage is Active ==> {
            let next = pass.step(EventView::Clock(Ok(now)));
            let before = pass.ledger.runtimes[pass.tasks[pass.index]];
            let after = next.ledger.runtimes[pass.tasks[pass.index]];
            &&& next.action() == (ActionView::SaveLedger { ledger: next.ledger })
            &&& next.phase == (PhaseView::SavingMissing { now })
            &&& after.last_observation_error == Some(detail)
            &&& after.lease_expires_at_unix == before.lease_expires_at_unix
            &&& after.heartbeat_at_unix == before.heartbeat_at_unix
        },
        pass.phase == (PhaseView::SavingMissing { now }) ==> goes_on_within_the_lease(
            pass,
            pass.step(EventView::Saved(Ok(()))),
            next_retained(pass.ledger, pass.plan->0, pass.tasks, pass.index + 1),
            now,
        ),
{
}

/// The next pass goes on as given where the lease of the task still lasts; otherwise it has ended.
pub open spec fn goes_on_within_the_lease(
    pass: PassView,
    next: PassView,
    further: (int, PhaseView),
    now: u64,
) -> bool {
    let task_id = pass.tasks[pass.index];
    &&& next.ledger == pass.ledger
    &&& next.tasks == pass.tasks
    &&& next.plan == pass.plan
    &&& match pass.ledger.runtimes[task_id].lease_expires_at_unix {
        None => next.phase matches PhaseView::Ended(Err(ErrorView::Runtime(_))),
        Some(deadline) => if now < deadline {
            (next.index, next.phase) == further
        } else {
            next.phase == PhaseView::Ended(Err(ErrorView::LeaseExpired { task_id, deadline }))
        },
    }
}

/// A worker that cannot be observed stops the pass; one that is observed has its lease renewed from
/// the time of the clock.
pub proof fn observed_workers_have_their_lease_renewed(
    pass: PassView,
    worker: WorkerView,
    status: AgentStatus,
    error: herdr::ErrorView,
    now: u64,
)
    ensures
        pass.phase == (PhaseView::Observing { worker }) ==> {
            &&& pass.action() == (ActionView::ObserveWorker { worker })
            &&& pass.step(EventView::Observed(Err(error))).phase == PhaseView::Ended(
                Err(
                    ErrorView::LostWorker {
                        task_id: pass.tasks[pass.index],
                        detail: error.message(),
                    },
                ),
            )
            &&& pass.step(EventView::Observed(Ok(status))).phase == (PhaseView::Timing { status })
            &&& pass.step(EventView::Observed(Ok(status))).action() is ReadClock
            &&& pass.step(EventView::Observed(Ok(status))).ledger == pass.ledger
        },
        pass.phase == (PhaseView::Timing { status }) && pass.ledger.runtimes[
            pass.tasks[pass.index]
        ].stage is Active ==> {
            let next = pass.step(EventView::Clock(Ok(now)));
            let after = next.ledger.runtimes[pass.tasks[pass.index]];
            &&& next.action() == (ActionView::SaveLedger { ledger: next.ledger })
            &&& next.phase == (PhaseView::SavingHeartbeat { status, now })
            &&& after.heartbeat_at_unix == Some(now)
            &&& now + pass.lease_seconds <= u64::MAX ==> after.lease_expires_at_unix == Some(
                (now + pass.lease_seconds) as u64,
            )
            &&& after.last_observation_error is None
        },
{
}

/// A worker that works, or of which nothing is known, is left to work: the pass goes on behind it.
pub proof fn working_workers_are_left_to_work(pass: PassView, status: AgentStatus, now: u64)
    requires
        pass.phase == (PhaseView::SavingHeartbeat { status, now }),
        status == AgentStatus::Working || status == AgentStatus::Unknown,
    ensures
        goes_on_within_the_lease(
            pass,
            pass.step(EventView::Saved(Ok(()))),
            next_retained(pass.ledger, pass.plan->0, pass.tasks, pass.index + 1),
            now,
        ),
{
}

// ---------------------------------------------------------------------------------------------
// Provisioning

/// Each step of provisioning is retained and saved before the next: the workspace and the pane that
/// were made, the worker that was started, the identity that was found, the receipt that came back.
pub proof fn provisioning_retains_each_step(
    pass: PassView,
    workspace: WorkspaceView,
    worker: WorkerView,
    identity: IdentityView,
    receipt: Seq<char>,
)
    requires
        pass.phase is Provisioning,
    ensures
        pass.runtime().stage is Claimed ==> {
            let next = pass.step(EventView::Workspace(Ok(workspace)));
            let after = next.ledger.runtimes[pass.tasks[pass.index]];
            &&& next.action() == (ActionView::SaveLedger { ledger: next.ledger })
            &&& next.phase is SavingStep
            &&& after.stage is WorktreeCreated && after.workspace_id == Some(workspace.workspace_id)
            &&& after.pane_id == Some(workspace.pane_id)
        },
        pass.runtime().stage is WorktreeCreated ==> {
            let next = pass.step(EventView::Checked(Ok(())));
            let after = next.ledger.runtimes[pass.tasks[pass.index]];
            &&& next.action() == (ActionView::SaveLedger { ledger: next.ledger })
            &&& next.phase is SavingStep
            &&& after.stage is QueueLinked
        },
        pass.runtime().stage is QueueLinked && pass.runtime().workspace_id == Some(
            worker.workspace_id,
        ) && pass.runtime().pane_id == Some(worker.pane_id) ==> {
            let next = pass.step(EventView::Started(Ok(worker)));
            let after = next.ledger.runtimes[pass.tasks[pass.index]];
            &&& next.action() == (ActionView::SaveLedger { ledger: next.ledger })
            &&& next.phase is SavingStep
            &&& after.stage is WorkerStarted && after.worker_name == Some(worker.name)
        },
        pass.runtime().stage is WorkerStarted ==> {
            let next = pass.step(EventView::Discovered(Ok(identity)));
            let after = next.ledger.runtimes[pass.tasks[pass.index]];
            &&& next.action() == (ActionView::SaveLedger { ledger: next.ledger })
            &&& next.phase is SavingStep
            &&& after.stage is WorkerIdentified && after.worker_identity == Some(identity)
        },
        pass.runtime().stage is WorkerIdentified && says_something(receipt) ==> {
            let next = pass.step(EventView::Sent(Ok(receipt)));
            let after = next.ledger.runtimes[pass.tasks[pass.index]];
            &&& next.action() == (ActionView::SaveLedger { ledger: next.ledger })
            &&& next.phase is SavingStep
            &&& after.stage is HandoffSent && after.handoff_receipt == Some(receipt)
        },
        pass.runtime().stage is HandoffSent ==> {
            let next = pass.step(EventView::Prompted(Ok(())));
            &&& next.action() is ReadClock
            &&& next.phase is Activating
            &&& next.ledger == pass.ledger
        },
{
    assert(says_something(receipt) <==> !blank(receipt));
}

/// Once a step is saved, the next one is asked for.
pub proof fn saved_steps_lead_to_the_next(pass: PassView)
    requires
        pass.phase is SavingStep,
    ensures
        ({
            let next = pass.step(EventView::Saved(Ok(())));
            let stage = pass.ledger.runtimes[pass.tasks[pass.index]].stage;
            &&& next.ledger == pass.ledger && next.index == pass.index && next.tasks == pass.tasks
            &&& next.phase is Provisioning
            &&& stage is Claimed ==> next.action() is CreateWorktree
            &&& stage is WorktreeCreated ==> next.action() is LinkQueue
            &&& stage is QueueLinked ==> next.action() is StartWorker
            &&& stage is WorkerStarted ==> next.action() is DiscoverWorker
            &&& stage is WorkerIdentified ==> next.action() is SendHandoff
            &&& stage is HandoffSent ==> next.action() is PromptWorker
        }),
{
}

/// A task is claimed with the worktree that was planned for it, and its runtime begins with the time
/// of the clock; the lease starts once the worker was prompted.
pub proof fn claims_follow_the_plan_for_the_worktree(
    pass: PassView,
    worktree: WorktreeView,
    plan: PlanView,
    now: u64,
)
    ensures
        pass.phase is Planning ==> {
            let next = pass.step(EventView::Worktree(Ok(worktree)));
            &&& next.action() is Claim
            &&& next.phase == (PhaseView::Claiming { worktree })
            &&& next.ledger == pass.ledger
        },
        pass.phase == (PhaseView::Claiming { worktree }) && plan.task_ids().contains(
            pass.tasks[pass.index],
        ) ==> {
            let next = pass.step(EventView::Plan(Ok(plan)));
            &&& next.action() is ReadClock
            &&& next.phase == (PhaseView::Stamping { worktree })
            &&& next.plan == Some(plan)
            &&& next.ledger == pass.ledger
        },
        pass.phase == (PhaseView::Claiming { worktree }) && !plan.task_ids().contains(
            pass.tasks[pass.index],
        ) ==> pass.step(EventView::Plan(Ok(plan))).phase == PhaseView::Ended(
            Err(
                ErrorView::Sq(
                    sq::ErrorView::TaskOutsideScope {
                        task_id: pass.tasks[pass.index],
                        root_task_id: plan.root_task_id,
                    },
                ),
            ),
        ),
        pass.phase == (PhaseView::Stamping { worktree }) ==> {
            let next = pass.step(EventView::Clock(Ok(now)));
            let runtime = next.ledger.runtimes[pass.tasks[pass.index]];
            &&& next.action() == (ActionView::SaveLedger { ledger: next.ledger })
            &&& next.phase is SavingStep
            &&& next.ledger.runtimes.contains_key(pass.tasks[pass.index])
            &&& runtime.stage is Claimed && runtime.worktree == worktree
            &&& runtime.claimed_at_unix == now && runtime.task_id == worktree.task_id
            &&& runtime.worker_identity is None && runtime.report is None
        },
        pass.phase is Activating && pass.ledger.runtimes[pass.tasks[pass.index]].stage
            is HandoffSent ==> {
            let next = pass.step(EventView::Clock(Ok(now)));
            let runtime = next.ledger.runtimes[pass.tasks[pass.index]];
            &&& next.action() == (ActionView::SaveLedger { ledger: next.ledger })
            &&& next.phase == (PhaseView::SavingActive { now })
            &&& runtime.stage is Active && runtime.lease_started_at_unix == Some(now)
            &&& now + pass.lease_seconds <= u64::MAX ==> runtime.lease_expires_at_unix == Some(
                (now + pass.lease_seconds) as u64,
            )
        },
        pass.phase == (PhaseView::SavingActive { now }) ==> goes_on_within_the_lease(
            pass,
            pass.step(EventView::Saved(Ok(()))),
            next_ready(pass.ledger, pass.plan->0, pass.tasks, pass.index + 1),
            now,
        ),
{
}

// ---------------------------------------------------------------------------------------------
// Which task comes next

/// A retained task is passed over exactly when its runtime can be taken up, is completed and the
/// queue holds the task as closed; one that a worker is on, or whose report is not settled, has its
/// worktree checked, unless the task is pending again; all else stops the pass.
pub proof fn only_closed_tasks_are_passed_over(
    runtime: RecordView,
    plan: PlanView,
    task_id: Seq<char>,
)
    ensures
        taken_up(runtime, plan, task_id) is None <==> runtime.fault() is None && runtime.stage
            is Completed && plan.task_ids().contains(task_id)
            && plan.queue.tasks[task_id].stored_status == TaskStatus::Closed,
        taken_up(runtime, plan, task_id) == Some(PhaseView::Verifying) <==> runtime.fault() is None
            && (runtime.stage is Active || runtime.stage is ReportReceived)
            && plan.task_ids().contains(task_id) && plan.status(plan.queue.tasks[task_id])
            != TaskStatus::Pending,
        runtime.fault() is Some ==> taken_up(runtime, plan, task_id) == Some(
            PhaseView::Ended(Err(ErrorView::Runtime(runtime.fault()->0))),
        ),
        runtime.fault() is None && runtime.stage is Blocked ==> taken_up(runtime, plan, task_id)
            == Some(
            PhaseView::Ended(
                Err(
                    ErrorView::RetainedTerminalReport { task_id, status: ReportStatus::Blocked },
                ),
            ),
        ),
        runtime.fault() is None && runtime.stage is Failed ==> taken_up(runtime, plan, task_id)
            == Some(
            PhaseView::Ended(
                Err(ErrorView::RetainedTerminalReport { task_id, status: ReportStatus::Failed }),
            ),
        ),
        runtime.fault() is None && runtime.stage is Completed && plan.task_ids().contains(task_id)
            && plan.queue.tasks[task_id].stored_status != TaskStatus::Closed ==> taken_up(
            runtime,
            plan,
            task_id,
        ) == Some(PhaseView::Ended(Err(ErrorView::CompletedRuntimeReopened { task_id }))),
        runtime.fault() is None && (runtime.stage is Active || runtime.stage is ReportReceived)
            && plan.task_ids().contains(task_id) && plan.status(plan.queue.tasks[task_id])
            == TaskStatus::Pending ==> taken_up(runtime, plan, task_id) == Some(
            PhaseView::Ended(Err(ErrorView::RuntimeTaskReset { task_id })),
        ),
{
}

/// Of what is retained the pass goes to the first task that calls for something, and past none that
/// does; where none does it reads the plan again.
pub proof fn the_next_retained_task_is_the_first(
    ledger: LedgerView,
    plan: PlanView,
    tasks: Seq<Seq<char>>,
    index: int,
)
    requires
        0 <= index <= tasks.len(),
    ensures
        ({
            let (i, phase) = next_retained(ledger, plan, tasks, index);
            &&& index <= i <= tasks.len()
            &&& forall|j: int|
                index <= j < i ==> taken_up(ledger.runtimes[#[trigger] tasks[j]], plan, tasks[j])
                    is None
            &&& i < tasks.len() ==> taken_up(ledger.runtimes[tasks[i]], plan, tasks[i]) == Some(
                phase,
            )
            &&& i == tasks.len() ==> phase is Refreshing
        }),
    decreases tasks.len() - index,
{
    if index < tasks.len() {
        the_next_retained_task_is_the_first(ledger, plan, tasks, index + 1);
    }
}

/// A blocker of the task was claimed by the run and is not completed.
pub open spec fn waits_for_a_claimed_blocker(ledger: LedgerView, task: TaskView) -> bool {
    exists|i: int|
        0 <= i < task.blocked_by.len() && ledger.runtimes.contains_key(
            #[trigger] task.blocked_by[i],
        ) && !(ledger.runtimes[task.blocked_by[i]].stage is Completed)
}

/// Of what is ready the pass goes to the first task that waits for no blocker that the run claimed,
/// and past none such; where there is none it comes to its close.
pub proof fn the_next_ready_task_is_the_first(
    ledger: LedgerView,
    plan: PlanView,
    tasks: Seq<Seq<char>>,
    index: int,
)
    requires
        0 <= index <= tasks.len(),
    ensures
        ({
            let (i, phase) = next_ready(ledger, plan, tasks, index);
            &&& index <= i <= tasks.len()
            &&& forall|j: int|
                index <= j < i ==> waits_for_a_claimed_blocker(
                    ledger,
                    plan.queue.tasks[#[trigger] tasks[j]],
                )
            &&& i < tasks.len() && plan.task_ids().contains(tasks[i]) ==> phase is Planning
                && !waits_for_a_claimed_blocker(ledger, plan.queue.tasks[tasks[i]])
            &&& i < tasks.len() && !plan.task_ids().contains(tasks[i]) ==> phase
                == PhaseView::Ended(
                Err(
                    ErrorView::Sq(
                        sq::ErrorView::TaskOutsideScope {
                            task_id: tasks[i],
                            root_task_id: plan.root_task_id,
                        },
                    ),
                ),
            )
            &&& i == tasks.len() ==> phase is Closing
        }),
    decreases tasks.len() - index,
{
    if index < tasks.len() {
        the_next_ready_task_is_the_first(ledger, plan, tasks, index + 1);
        let task = plan.queue.tasks[tasks[index]];
        assert(unlocked(ledger, task) <==> !waits_for_a_claimed_blocker(ledger, task));
    }
}

/// A pass begins with every task that the run claimed, in their order, and goes on with every task
/// that is ready, in theirs; a task in progress that no runtime tells of stops it.
pub proof fn passes_go_through_all_tasks(pass: PassView, plan: PlanView)
    ensures
        pass.phase is Opening && orphan_error(plan, pass.ledger) is None ==> {
            let next = pass.step(EventView::Plan(Ok(plan)));
            &&& next.tasks == listed(pass.ledger.runtimes.dom())
            &&& (next.index, next.phase) == next_retained(pass.ledger, plan, next.tasks, 0)
            &&& next.plan == Some(plan)
        },
        pass.phase is Refreshing && orphan_error(plan, pass.ledger) is None ==> {
            let next = pass.step(EventView::Plan(Ok(plan)));
            &&& next.tasks == listed(plan.ready())
            &&& (next.index, next.phase) == next_ready(pass.ledger, plan, next.tasks, 0)
            &&& next.plan == Some(plan)
        },
        (pass.phase is Opening || pass.phase is Refreshing) && orphan_error(
            plan,
            pass.ledger,
        ) is Some ==> pass.step(EventView::Plan(Ok(plan))).phase == PhaseView::Ended(
            Err(orphan_error(plan, pass.ledger)->0),
        ),
{
}

/// At its close a pass is complete exactly when the root is closed and every task that the run
/// claimed is completed; otherwise the run is still active.
pub proof fn passes_close_by_the_plan(pass: PassView, plan: PlanView)
    requires
        pass.phase is Closing,
    ensures
        ({
            let next = pass.step(EventView::Plan(Ok(plan)));
            let done = plan.queue.tasks[plan.root_task_id].stored_status == TaskStatus::Closed
                && forall|id: Seq<char>| #[trigger]
                pass.ledger.runtimes.contains_key(id) ==> pass.ledger.runtimes[id].stage
                    is Completed;
            &&& done <==> next.phase == PhaseView::Ended(Ok(FinishStatus::Complete))
            &&& !done <==> next.phase == PhaseView::Ended(Ok(FinishStatus::Active))
            &&& next.ledger == pass.ledger
            &&& next.plan == Some(plan)
        }),
{
}

/// The event is what comes back of the action.
pub open spec fn answers(action: ActionView, event: EventView) -> bool {
    match action {
        ActionView::ReadPlan { queue, root_task_id, run_id, expected } => event is Plan,
        ActionView::VerifyWorktree { worktree, queue } => event is Checked,
        ActionView::ScanReport { orchestrator, worker, task_id, run_id } => event is Scanned,
        ActionView::VerifyDeliverable { worktree, deliverable } => event is Checked,
        ActionView::MarkRead { message_id } => event is Marked,
        ActionView::SaveLedger { ledger } => event is Saved,
        ActionView::DiscoverWorker { worktree } => event is Discovered,
        ActionView::ObserveWorker { worker } => event is Observed,
        ActionView::ReadClock => event is Clock,
        ActionView::PlanWorktree { plan, worktree_root, task_id } => event is Worktree,
        ActionView::Claim { plan, task_id, run_id } => event is Plan,
        ActionView::CreateWorktree { repo, branch, base, path, task_label } => event is Workspace,
        ActionView::LinkQueue { worktree, queue } => event is Checked,
        ActionView::StartWorker { workspace, run_id, task_id, model } => event is Started,
        ActionView::SendHandoff { handoff } => event is Sent,
        ActionView::PromptWorker { worker, receipt, prompt } => event is Prompted,
        ActionView::Rest => false,
    }
}

/// A pass moves by what comes back of the action that it asked for, and by nothing else.
#[verifier::rlimit(40)]
pub proof fn passes_move_by_what_they_asked_for(pass: PassView, event: EventView)
    requires
        !answers(pass.action(), event),
    ensures
        pass.step(event) == pass,
{
}

/// An action that failed is told as what it is: an error of the queue, of the worktree, of the mail,
/// of Herdr, of an identity or of the ledger.
pub proof fn failures_are_told_as_they_are(pass: PassView, event: EventView)
    requires
        pass.step(event) != pass,
    ensures
        pass.step(event).phase matches PhaseView::Ended(Err(told)) ==> match event {
            EventView::Checked(Err(error)) => told == ErrorView::Worktree(error),
            EventView::Scanned(Err(error)) => told == ErrorView::Mail(error),
            EventView::Marked(Err(error)) => told == ErrorView::Mail(error),
            EventView::Saved(Err(error)) => told == ErrorView::Runtime(error),
            EventView::Discovered(Err(error)) => told == ErrorView::Identity(error),
            EventView::Clock(Err(error)) => told == ErrorView::Runtime(error),
            EventView::Worktree(Err(error)) => told == ErrorView::Worktree(error),
            EventView::Workspace(Err(error)) => told == ErrorView::Herdr(error),
            EventView::Started(Err(error)) => told == ErrorView::Herdr(error),
            EventView::Sent(Err(error)) => told == ErrorView::Mail(error),
            EventView::Prompted(Err(error)) => told == ErrorView::Herdr(error),
            EventView::Plan(Err(error)) => match error {
                sq::ErrorView::UnownedInProgress { task_id } => told
                    == (ErrorView::UnownedInProgress { task_id }),
                _ => told == ErrorView::Sq(error),
            },
            _ => true,
        },
{
}

} // verus!
