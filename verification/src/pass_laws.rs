//! What holds of every pass, whatever the events are.
use vstd::prelude::*;
use crate::finish::{completed, stop_error, FinishStatus};
use crate::graph::{reaches, scope_is_closed, scope_is_what_the_root_reaches};
use crate::herdr::{AgentStatus, WorkerStop};
use crate::mail::ReportStatus;
use crate::pass::{
    next_ready, next_retained, taken_up, unlocked, ActionView, EventView, PassView, PhaseView,
};
use crate::runtime::{LedgerView, RecordView, RuntimeStage};
use crate::sq::{graph_of, PlanView};
use crate::table::{listed, listed_holds_the_keys};

verus! {

/// Whatever a pass changes in the ledger is saved next.
pub proof fn every_change_is_saved(pass: PassView, event: EventView)
    ensures
        pass.step(event).ledger != pass.ledger ==> pass.step(event).action()
            == (ActionView::SaveLedger { ledger: pass.step(event).ledger }),
{
}

/// A step changes the ledger at most in the runtime of the task that the pass is at.
pub proof fn a_step_changes_one_runtime(pass: PassView, event: EventView)
    ensures
        pass.step(event).ledger == pass.ledger || pass.step(event).ledger
            == pass.ledger.with_runtime(
            pass.task_id(),
            pass.step(event).ledger.runtimes[pass.task_id()],
        ),
{
    let after = pass.step(event).ledger;
    if after != pass.ledger {
        let runtime = after.runtimes[pass.task_id()];
        assert(after.runtimes =~= pass.ledger.runtimes.insert(pass.task_id(), runtime));
    }
}

/// A pass that has ended does nothing more.
pub proof fn an_ended_pass_stays_ended(pass: PassView, event: EventView)
    requires
        pass.phase is Ended,
    ensures
        pass.step(event) == pass,
        pass.action() == ActionView::Rest,
{
}

/// A pass ends as complete only with a plan whose root is closed, and with every task that the run
/// claimed completed.
pub proof fn completion_needs_a_closed_root(pass: PassView, event: EventView)
    requires
        !(pass.phase is Ended),
        pass.step(event).phase == PhaseView::Ended(Ok(FinishStatus::Complete)),
    ensures
        event matches EventView::Plan(Ok(plan)) && completed(plan, pass.step(event).ledger)
            && pass.step(event).plan == Some(plan),
{
    if let EventView::Plan(Ok(plan)) = event {
        let retained = listed(pass.ledger.runtimes.dom());
        never_complete(pass.ledger, plan, retained, 0);
        never_complete(pass.ledger, plan, listed(plan.ready()), 0);
    }
    never_complete(pass.ledger, pass.plan->0, pass.tasks, pass.index + 1);
}

/// Going on to another task completes nothing.
proof fn never_complete(
    ledger: LedgerView,
    plan: PlanView,
    tasks: Seq<Seq<char>>,
    index: int,
)
    ensures
        !(next_retained(ledger, plan, tasks, index).1 matches PhaseView::Ended(Ok(_))),
        !(next_ready(ledger, plan, tasks, index).1 matches PhaseView::Ended(Ok(_))),
        next_retained(ledger, plan, tasks, index).0 >= index,
        next_ready(ledger, plan, tasks, index).0 >= index,
    decreases tasks.len() - index,
{
    if 0 <= index < tasks.len() {
        never_complete(ledger, plan, tasks, index + 1);
    }
}

/// A task is completed only by settling a report of completion that the ledger already holds.
pub proof fn only_reports_complete_tasks(pass: PassView, event: EventView, task_id: Seq<char>)
    requires
        pass.step(event).ledger.runtimes.contains_key(task_id),
        pass.step(event).ledger.runtimes[task_id].stage == RuntimeStage::Completed,
        !pass.ledger.runtimes.contains_key(task_id) || pass.ledger.runtimes[task_id].stage
            != RuntimeStage::Completed,
    ensures
        pass.phase is Marking,
        event matches EventView::Marked(Ok(_)),
        task_id == pass.task_id(),
        pass.runtime().stage == RuntimeStage::ReportReceived,
        pass.runtime().report matches Some(report) && report.status == ReportStatus::Completed,
{
    a_step_changes_one_runtime(pass, event);
}

/// The ledger takes in a report of completion only where the report is valid, the queue holds the
/// task as closed, and what it delivers was checked.
pub proof fn completion_reports_are_checked(pass: PassView, event: EventView)
    requires
        pass.well_placed(),
        pass.step(event).ledger != pass.ledger,
        pass.step(event).ledger.runtimes[pass.task_id()].stage == RuntimeStage::ReportReceived,
        pass.step(event).ledger.runtimes[pass.task_id()].report matches Some(report)
            && report.status == ReportStatus::Completed,
    ensures
        event matches EventView::Checked(Ok(_)),
        pass.phase matches PhaseView::Delivering { received } && pass.accepts_completion(
            received.report,
        ) && pass.step(event).ledger.runtimes[pass.task_id()].report == Some(received.report),
{
}

/// The first task that a pass hands out is a ready one, and so is each after it that comes from the
/// same list; the blockers of each that the run claimed are completed.
pub proof fn refreshing_lists_the_ready_tasks(pass: PassView, plan: PlanView)
    requires
        plan.valid(),
        pass.phase is Refreshing,
        pass.step(EventView::Plan(Ok(plan))).phase is Planning,
    ensures
        ({
            let next = pass.step(EventView::Plan(Ok(plan)));
            &&& next.plan == Some(plan)
            &&& forall|i: int|
                0 <= i < next.tasks.len() ==> plan.ready().contains(#[trigger] next.tasks[i])
            &&& plan.ready().contains(next.task_id())
            &&& unlocked(next.ledger, next.task())
        }),
{
    let g = graph_of(plan.queue.tasks);
    assert(g.dom() =~= plan.queue.tasks.dom());
    scope_is_closed(g, plan.root_task_id);
    vstd::set_lib::lemma_len_subset(plan.task_ids(), g.dom());
    vstd::set_lib::lemma_len_subset(plan.ready(), plan.task_ids());
    listed_holds_the_keys(plan.ready());
    let ids = listed(plan.ready());
    assert forall|i: int| 0 <= i < ids.len() implies plan.ready().contains(#[trigger] ids[i]) by {
        assert(ids.to_set().contains(ids[i]));
    }
    ready_is_unlocked(pass.ledger, plan, ids, 0);
}

/// A task that is planned next is in the list, in the plan and unlocked.
proof fn ready_is_unlocked(
    ledger: LedgerView,
    plan: PlanView,
    tasks: Seq<Seq<char>>,
    index: int,
)
    ensures
        ({
            let next = next_ready(ledger, plan, tasks, index);
            next.1 is Planning ==> index <= next.0 < tasks.len() && (plan.task(
                tasks[next.0],
            ) matches Some(task) && unlocked(ledger, task))
        }),
    decreases tasks.len() - index,
{
    if 0 <= index < tasks.len() {
        ready_is_unlocked(ledger, plan, tasks, index + 1);
    }
}

/// A pass plans a worktree only for a task whose blockers that the run claimed are completed.
pub proof fn planned_tasks_are_unlocked(pass: PassView, event: EventView)
    requires
        pass.well_placed(),
        !(pass.phase is Planning),
        pass.step(event).phase is Planning,
    ensures
        pass.step(event).at_task(),
        unlocked(pass.step(event).ledger, pass.step(event).task()),
{
    ready_is_unlocked(pass.ledger, pass.plan->0, pass.tasks, pass.index + 1);
    retained_is_no_launch(pass.ledger, pass.plan->0, pass.tasks, pass.index + 1);
    if let EventView::Plan(Ok(plan)) = event {
        ready_is_unlocked(pass.ledger, plan, listed(plan.ready()), 0);
        retained_is_no_launch(
            pass.ledger,
            plan,
            listed(pass.ledger.runtimes.dom()),
            0,
        );
    }
}

/// Taking up what is retained leads to a retained task, to the refreshed plan, or to the end.
proof fn retained_is_no_launch(
    ledger: LedgerView,
    plan: PlanView,
    tasks: Seq<Seq<char>>,
    index: int,
)
    ensures
        ({
            let next = next_retained(ledger, plan, tasks, index);
            &&& next.1 is Verifying || next.1 is Refreshing || next.1 is Ended
            &&& next.1 is Verifying ==> index <= next.0 < tasks.len() && plan.task(
                tasks[next.0],
            ) is Some
        }),
    decreases tasks.len() - index,
{
    if 0 <= index < tasks.len() {
        retained_is_no_launch(ledger, plan, tasks, index + 1);
    }
}

/// What a phase relies on is there after every step.
#[verifier::rlimit(40)]
pub proof fn steps_keep_the_pass_well_placed(pass: PassView, event: EventView)
    requires
        pass.well_placed(),
        pass.ledger.runtimes.dom().finite(),
    ensures
        pass.step(event).well_placed(),
{
    ready_is_unlocked(pass.ledger, pass.plan->0, pass.tasks, pass.index + 1);
    retained_is_no_launch(pass.ledger, pass.plan->0, pass.tasks, pass.index + 1);
    launch_is_no_retained(pass.ledger, pass.plan->0, pass.tasks, pass.index + 1);
    if let EventView::Plan(Ok(plan)) = event {
        let retained = listed(pass.ledger.runtimes.dom());
        let ready = listed(plan.ready());
        listed_holds_the_keys(pass.ledger.runtimes.dom());
        assert forall|i: int|
            0 <= i < retained.len() implies pass.ledger.runtimes.contains_key(
            #[trigger] retained[i],
        ) by {
            assert(retained.to_set().contains(retained[i]));
        }
        ready_is_unlocked(pass.ledger, plan, ready, 0);
        retained_is_no_launch(pass.ledger, plan, retained, 0);
        launch_is_no_retained(pass.ledger, plan, ready, 0);
    }
}

/// Handing out ready tasks leads to a ready task, to the plan at the end, or to the end.
proof fn launch_is_no_retained(
    ledger: LedgerView,
    plan: PlanView,
    tasks: Seq<Seq<char>>,
    index: int,
)
    ensures
        ({
            let next = next_ready(ledger, plan, tasks, index);
            next.1 is Planning || next.1 is Closing || next.1 is Ended
        }),
    decreases tasks.len() - index,
{
    if 0 <= index < tasks.len() {
        launch_is_no_retained(ledger, plan, tasks, index + 1);
    }
}

/// The action of the event failed.
pub open spec fn failed(event: EventView) -> bool {
    match event {
        EventView::Plan(r) => r is Err,
        EventView::Checked(r) => r is Err,
        EventView::Scanned(r) => r is Err,
        EventView::Marked(r) => r is Err,
        EventView::Saved(r) => r is Err,
        EventView::Discovered(r) => r is Err,
        EventView::Observed(r) => r is Err,
        EventView::Clock(r) => r is Err,
        EventView::Worktree(r) => r is Err,
        EventView::Workspace(r) => r is Err,
        EventView::Started(r) => r is Err,
        EventView::Sent(r) => r is Err,
        EventView::Prompted(r) => r is Err,
    }
}

/// Nothing that failed is tried again: a failed action ends the pass with an error, and changes
/// nothing in the ledger. Only a worker that is not found while its lease lasts is waited for.
pub proof fn failures_end_the_pass(pass: PassView, event: EventView)
    requires
        failed(event),
        !(pass.phase is Discovering),
        pass.step(event) != pass,
    ensures
        pass.step(event).phase matches PhaseView::Ended(Err(_)),
        pass.step(event).ledger == pass.ledger,
{
}

/// Only tasks that the root depends on are claimed, the root among them.
pub proof fn only_tasks_within_reach_are_claimed(
    pass: PassView,
    plan: PlanView,
    task_id: Seq<char>,
    run_id: Seq<char>,
)
    requires
        pass.well_placed(),
        plan.valid(),
        pass.action() == (ActionView::Claim { plan, task_id, run_id }),
    ensures
        plan.task(task_id) is Some,
        reaches(graph_of(plan.queue.tasks), plan.root_task_id, task_id),
        run_id == pass.ledger.run_id,
{
    let g = graph_of(plan.queue.tasks);
    assert(g.dom() =~= plan.queue.tasks.dom());
    scope_is_what_the_root_reaches(g, plan.root_task_id);
}

/// The tasks that a pass goes through change only with the plans that it reads for what is retained
/// and for what is ready.
pub proof fn the_list_of_tasks_stays(pass: PassView, event: EventView)
    requires
        !(pass.phase is Opening),
        !(pass.phase is Refreshing),
    ensures
        pass.step(event).tasks == pass.tasks,
{
}

/// A worker that settles or blocks without a report ends the pass, and completes nothing.
pub proof fn settled_panes_complete_nothing(pass: PassView, status: AgentStatus, now: u64)
    requires
        pass.phase == (PhaseView::SavingHeartbeat { status, now }),
        status == AgentStatus::Idle || status == AgentStatus::Done || status
            == AgentStatus::Blocked,
    ensures
        pass.step(EventView::Saved(Ok(()))) == pass.stop(
            stop_error(
                pass.task_id(),
                if status == AgentStatus::Blocked {
                    WorkerStop::Blocked
                } else {
                    WorkerStop::SettledWithoutReport(status)
                },
            ),
        ),
{
}

/// A report that a task is blocked or has failed ends the pass once it is settled.
pub proof fn blocked_and_failed_reports_end_the_pass(pass: PassView, fresh: bool)
    requires
        pass.phase == (PhaseView::SavingSettled { fresh }),
        pass.runtime().report matches Some(report) && report.status != ReportStatus::Completed,
    ensures
        pass.step(EventView::Saved(Ok(()))).phase matches PhaseView::Ended(Err(_)),
{
}

/// A retained task that is taken up, or that is done with, is not ready in the same plan, so that
/// it is not handed out again.
pub proof fn retained_tasks_are_not_ready(runtime: RecordView, plan: PlanView, task_id: Seq<char>)
    requires
        taken_up(runtime, plan, task_id) matches Some(phase) ==> phase is Verifying,
    ensures
        !plan.ready().contains(task_id),
{
}

/// How far a task that is being provisioned is.
pub open spec fn stage_rank(stage: RuntimeStage) -> int {
    match stage {
        RuntimeStage::Claimed => 0,
        RuntimeStage::WorktreeCreated => 1,
        RuntimeStage::QueueLinked => 2,
        RuntimeStage::WorkerStarted => 3,
        RuntimeStage::WorkerIdentified => 4,
        RuntimeStage::HandoffSent => 5,
        _ => 6,
    }
}

/// The part of the pass: what is retained comes before what is handed out.
pub open spec fn part(pass: PassView) -> int {
    match pass.phase {
        PhaseView::Opening => 5,
        PhaseView::Refreshing => 3,
        PhaseView::Closing => 1,
        PhaseView::Ended(_) => 0,
        PhaseView::Planning => 2,
        PhaseView::Claiming { worktree } => 2,
        PhaseView::Stamping { worktree } => 2,
        PhaseView::SavingStep => 2,
        PhaseView::Provisioning => 2,
        PhaseView::Activating => 2,
        PhaseView::SavingActive { now } => 2,
        _ => 4,
    }
}

/// How much is left to do for the task that the pass is at.
pub open spec fn steps_left(pass: PassView) -> int {
    match pass.phase {
        PhaseView::Verifying => 12,
        PhaseView::Scanning { worker } => 11,
        PhaseView::Delivering { received } => 10,
        PhaseView::SavingReport => 9,
        PhaseView::Marking { fresh } => 8,
        PhaseView::SavingSettled { fresh } => 7,
        PhaseView::Discovering => 6,
        PhaseView::Missing { detail } => 5,
        PhaseView::Observing { worker } => 5,
        PhaseView::SavingMissing { now } => 4,
        PhaseView::Timing { status } => 4,
        PhaseView::SavingHeartbeat { status, now } => 3,
        PhaseView::Planning => 30,
        PhaseView::Claiming { worktree } => 29,
        PhaseView::Stamping { worktree } => 28,
        PhaseView::SavingStep => 27 - 3 * stage_rank(pass.runtime().stage),
        PhaseView::Provisioning => 26 - 3 * stage_rank(pass.runtime().stage),
        PhaseView::Activating => 2,
        PhaseView::SavingActive { now } => 1,
        _ => 0,
    }
}

/// One pass is nearer to its end than another.
pub open spec fn nearer(after: PassView, before: PassView) -> bool {
    let left_after = after.tasks.len() - after.index;
    let left_before = before.tasks.len() - before.index;
    ||| part(after) < part(before)
    ||| part(after) == part(before) && left_after < left_before
    ||| part(after) == part(before) && left_after == left_before && steps_left(after) < steps_left(
        before,
    )
}

/// Every pass comes to its end: each event that it waits for brings it nearer.
pub proof fn passes_come_to_an_end(pass: PassView, event: EventView)
    requires
        pass.well_placed(),
    ensures
        pass.step(event) == pass || nearer(pass.step(event), pass),
        0 <= part(pass),
        0 <= steps_left(pass),
        part(pass) == 2 || part(pass) == 4 ==> pass.index < pass.tasks.len(),
{
    let after = pass.step(event);
    never_complete(pass.ledger, pass.plan->0, pass.tasks, pass.index + 1);
    ready_is_unlocked(pass.ledger, pass.plan->0, pass.tasks, pass.index + 1);
    retained_is_no_launch(pass.ledger, pass.plan->0, pass.tasks, pass.index + 1);
    launch_is_no_retained(pass.ledger, pass.plan->0, pass.tasks, pass.index + 1);
    if let EventView::Plan(Ok(plan)) = event {
        let retained = listed(pass.ledger.runtimes.dom());
        let ready = listed(plan.ready());
        retained_is_no_launch(pass.ledger, plan, retained, 0);
        launch_is_no_retained(pass.ledger, plan, ready, 0);
    }
}

} // verus!
