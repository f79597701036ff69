//! What a run must satisfy: its options and paths, its steps, and what comes out of it.
use vstd::prelude::*;
use crate::cli::{options_for, FinishArgs};
use crate::finish::{
    absolute_path, fresh_error, fresh_fault, orphan_error, orphan_fault, output_for, owner_text,
    state_dir_for, stop_error, worktree_root_for, ErrorView, FinishStatus, OptionsView, PathsView,
    PlaceView,
};
use crate::herdr::{AgentStatus, WorkerStop};
use crate::identity::IdentityView;
use crate::mail::ReportStatus;
use crate::outcome::shown;
use crate::pass::{EventView, PassView, PhaseView};
use crate::paths::below;
use crate::run::{
    closed_output, new_ledger, new_pass, RunActionView, RunEventView, RunPhaseView, RunView,
};
use crate::runtime::LedgerView;
use crate::sq::{self, queue_path_for, PlanView, QueueCandidate, SnapshotView, TaskStatus};
use crate::sq_laws::first_faults_come_first;
use crate::table::{ascending, listed, listed_holds_the_keys};
use crate::text::before;
use crate::text_laws::{begins, ends, paths_below_keep_both_parts};

verus! {

// ---------------------------------------------------------------------------------------------
// Options and paths

/// Options are what the arguments say, and the repository is the current directory unless it is
/// given; where it is given the current directory does not matter.
pub proof fn options_are_what_was_asked_for(
    args: FinishArgs,
    current_directory: Result<Seq<char>, Seq<char>>,
)
    ensures
        options_for(args, current_directory) matches Ok(options) ==> {
            &&& options.root_task_id == args.root_task_id@
            &&& options.queue == shown(args.queue)
            &&& options.model == shown(args.model)
            &&& options.state_dir == shown(args.state_dir)
            &&& options.worktree_root == shown(args.worktree_root)
            &&& options.once == args.once
            &&& options.poll_seconds == args.poll_seconds
            &&& options.lease_seconds == args.lease_seconds
            &&& args.repo matches Some(repo) ==> options.repo == repo@
            &&& args.repo is None ==> current_directory == Ok::<Seq<char>, Seq<char>>(options.repo)
        },
        options_for(args, current_directory) is Ok <==> args.repo is Some || current_directory is Ok,
        options_for(args, current_directory) matches Err(e) ==> e == (ErrorView::CurrentDirectory {
            source: current_directory->Err_0,
        }),
{
}

/// Options are refused exactly when one of the intervals is nothing, for the poll first.
pub proof fn intervals_are_not_nothing(options: OptionsView)
    ensures
        options.fault() is None <==> options.poll_seconds > 0 && options.lease_seconds > 0,
        options.poll_seconds == 0 ==> options.fault() == Some(
            ErrorView::InvalidInterval { option: "--poll-seconds"@ },
        ),
        options.poll_seconds > 0 && options.lease_seconds == 0 ==> options.fault() == Some(
            ErrorView::InvalidInterval { option: "--lease-seconds"@ },
        ),
{
}

/// A path that is absolute stays as it is, wherever the process is. Any other begins with the current
/// directory and ends with the path, with a slash and nothing else between them.
pub proof fn relative_paths_are_below_the_current_directory(
    path: Seq<char>,
    directory: Seq<char>,
    current_directory: Result<Seq<char>, Seq<char>>,
    source: Seq<char>,
)
    ensures
        absolute_path(path, true, current_directory) == Ok::<Seq<char>, ErrorView>(path),
        absolute_path(path, false, Err(source)) == Err::<Seq<char>, ErrorView>(
            ErrorView::CurrentDirectory { source },
        ),
        absolute_path(path, false, Ok(directory)) matches Ok(r) && {
            &&& r.len() >= directory.len() && r.len() >= path.len()
            &&& r.take(directory.len() as int) == directory
            &&& r.skip(r.len() - path.len()) == path
            &&& directory.len() > 0 && directory.last() != '/' ==> r.len() == directory.len() + 1
                + path.len() && r[directory.len() as int] == '/'
            &&& directory.len() == 0 || directory.last() == '/' ==> r.len() == directory.len()
                + path.len()
        },
{
    paths_below_keep_both_parts(directory, path);
}

/// Worktrees go where it is said, else beside the repository; ledgers go where it is said, else into a
/// directory beside the repository that is named after it.
pub proof fn worktrees_and_ledgers_stand_beside_the_repository(
    explicit: Seq<char>,
    repo: PlaceView,
)
    ensures
        worktree_root_for(Some(explicit), repo) == explicit,
        repo.parent matches Some(parent) ==> worktree_root_for(None, repo) == parent,
        repo.parent is None ==> worktree_root_for(None, repo) == repo.path,
        state_dir_for(Some(explicit), repo) == explicit,
        repo.parent matches Some(parent) ==> begins(state_dir_for(None, repo), parent),
        repo.parent is None ==> begins(state_dir_for(None, repo), repo.path),
        repo.name matches Some(name) ==> ends(
            state_dir_for(None, repo),
            ".agent-orchestrator/"@ + name,
        ),
        repo.name matches Some(name) ==> repo.parent matches Some(parent) ==> state_dir_for(
            None,
            repo,
        ).len() <= parent.len() + 1 + (".agent-orchestrator/"@ + name).len(),
{
    reveal_strlit(".agent-orchestrator");
    reveal_strlit(".agent-orchestrator/");
    reveal_strlit("/");
    let beside = match repo.parent {
        Some(parent) => parent,
        None => repo.path,
    };
    let name = match repo.name {
        Some(name) => name,
        None => Seq::empty(),
    };
    let directory = below(beside, ".agent-orchestrator"@);
    paths_below_keep_both_parts(beside, ".agent-orchestrator"@);
    paths_below_keep_both_parts(directory, name);
    let state = below(directory, name);
    assert(state.take(beside.len() as int) =~= state.take(directory.len() as int).take(
        beside.len() as int,
    ));
    assert(directory.skip(directory.len() - 19)[18] == directory[directory.len() - 1]);
    assert(".agent-orchestrator"@[18] == 'r');
    assert(directory.last() == 'r');
    assert(state == directory + "/"@ + name);
    let word = ".agent-orchestrator/"@;
    assert(".agent-orchestrator"@ + "/"@ =~= word);
    assert(directory =~= directory.take(directory.len() - 19) + ".agent-orchestrator"@);
    assert(state.skip(state.len() - (word + name).len()) =~= word + name);
}

// ---------------------------------------------------------------------------------------------
// What comes out

/// The output for a run tells its ID and its root, and of every runtime, in the order of the tasks
/// and none twice, the task, the stage, the branch, the worktree and the worker.
pub proof fn outputs_tell_every_runtime(ledger: LedgerView, status: FinishStatus, i: int)
    requires
        ledger.runtimes.dom().finite(),
    ensures
        ({
            let output = output_for(ledger, status);
            let ids = listed(ledger.runtimes.dom());
            &&& output.status == status
            &&& output.run_id == Some(ledger.run_id)
            &&& output.root_task_id == ledger.root_task_id
            &&& ascending(ids)
            &&& forall|id: Seq<char>| #[trigger]
                ledger.runtimes.contains_key(id) <==> ids.contains(id)
            &&& output.runtimes.len() == ids.len()
            &&& 0 <= i < ids.len() ==> {
                let runtime = ledger.runtimes[ids[i]];
                &&& output.runtimes[i].task_id == runtime.task_id
                &&& output.runtimes[i].stage == runtime.stage
                &&& output.runtimes[i].branch == runtime.worktree.branch
                &&& output.runtimes[i].worktree == runtime.worktree.path
                &&& output.runtimes[i].worker == runtime.worker_name
            }
        }),
{
    let ids = listed(ledger.runtimes.dom());
    listed_holds_the_keys(ledger.runtimes.dom());
    assert forall|id: Seq<char>| #[trigger] ledger.runtimes.contains_key(id) <==> ids.contains(
        id,
    ) by {
        assert(ids.to_set().contains(id) <==> ids.contains(id));
    }
}

/// A root that was closed before there was a run is complete, without a run and without runtimes.
pub proof fn closed_roots_have_no_runtimes(root_task_id: Seq<char>)
    ensures
        closed_output(root_task_id).status == FinishStatus::Complete,
        closed_output(root_task_id).run_id is None,
        closed_output(root_task_id).root_task_id == root_task_id,
        closed_output(root_task_id).runtimes.len() == 0,
{
}

/// A task in progress that the ledger does not know stops a run, and so does any task in progress
/// before there is a ledger: the error tells the first such task, and its owner where it has one.
pub proof fn strays_stop_the_run(plan: PlanView, ledger: LedgerView)
    requires
        plan.task_ids().finite(),
    ensures
        orphan_error(plan, ledger) is None <==> forall|id: Seq<char>| #[trigger]
            plan.task_ids().contains(id) ==> plan.queue.tasks[id].stored_status
                != TaskStatus::InProgress || ledger.runtimes.contains_key(id),
        fresh_error(plan) is None <==> forall|id: Seq<char>| #[trigger]
            plan.task_ids().contains(id) ==> plan.queue.tasks[id].stored_status
                != TaskStatus::InProgress,
        orphan_error(plan, ledger) matches Some(e) ==> exists|id: Seq<char>| #[trigger]
            plan.task_ids().contains(id) && plan.queue.tasks[id].stored_status
                == TaskStatus::InProgress && !ledger.runtimes.contains_key(id) && tells_stray(
                e,
                plan,
                id,
            ) && forall|other: Seq<char>| #[trigger]
                plan.task_ids().contains(other) && before(other, id)
                    ==> plan.queue.tasks[other].stored_status != TaskStatus::InProgress
                    || ledger.runtimes.contains_key(other),
        fresh_error(plan) matches Some(e) ==> exists|id: Seq<char>| #[trigger]
            plan.task_ids().contains(id) && plan.queue.tasks[id].stored_status
                == TaskStatus::InProgress && tells_stray(e, plan, id) && forall|other: Seq<char>|
             #[trigger]
                plan.task_ids().contains(other) && before(other, id)
                    ==> plan.queue.tasks[other].stored_status != TaskStatus::InProgress,
{
    let orphan = |id: Seq<char>| orphan_fault(plan, ledger, id);
    let fresh = |id: Seq<char>| fresh_fault(plan, id);
    first_faults_come_first(plan.task_ids(), orphan);
    first_faults_come_first(plan.task_ids(), fresh);
    assert forall|id: Seq<char>| #[trigger] plan.task_ids().contains(id) implies (orphan(id) is None
        <==> plan.queue.tasks[id].stored_status != TaskStatus::InProgress
        || ledger.runtimes.contains_key(id)) && (fresh(id) is None
        <==> plan.queue.tasks[id].stored_status != TaskStatus::InProgress) by {}
}

/// The error tells of a task in progress that the run did not claim.
pub open spec fn tells_stray(error: ErrorView, plan: PlanView, id: Seq<char>) -> bool {
    match plan.queue.tasks[id].owner_run_id() {
        Some(owner) => error == (ErrorView::MissingRuntime { task_id: id, owner: Some(owner) }),
        None => error == (ErrorView::UnownedInProgress { task_id: id }),
    }
}

/// An owner is told by its name, and where there is none that is told; statuses are told by name.
pub proof fn owners_and_statuses_are_told(owner: Seq<char>)
    ensures
        owner_text(Some(owner)) == owner,
        owner_text(None) == "<missing>"@,
        AgentStatus::Working.title() == "Working"@,
        AgentStatus::Idle.title() == "Idle"@,
        AgentStatus::Done.title() == "Done"@,
        AgentStatus::Blocked.title() == "Blocked"@,
        AgentStatus::Unknown.title() == "Unknown"@,
        ReportStatus::Completed.title() == "Completed"@,
        ReportStatus::Blocked.title() == "Blocked"@,
        ReportStatus::Failed.title() == "Failed"@,
{
}

/// A worker that stopped is told with its task and its status.
pub proof fn stopped_workers_are_told(task_id: Seq<char>, status: AgentStatus)
    ensures
        stop_error(task_id, WorkerStop::SettledWithoutReport(status))
            == (ErrorView::SettledWithoutReport { task_id, status }),
        stop_error(task_id, WorkerStop::Blocked) == (ErrorView::WorkerBlocked { task_id }),
{
}

// ---------------------------------------------------------------------------------------------
// Ledgers and passes

/// A new ledger holds what the run was begun with, and no runtime; a pass begins with its ledger, and
/// with the lease and the model of the options.
pub proof fn ledgers_begin_with_the_run(
    options: OptionsView,
    paths: PathsView,
    run_id: Seq<char>,
    plan: SnapshotView,
    orchestrator: IdentityView,
    now: u64,
    ledger: LedgerView,
)
    ensures
        ({
            let new = new_ledger(options, paths, run_id, plan, orchestrator, now);
            &&& new.version == 1
            &&& new.run_id == run_id
            &&& new.root_task_id == options.root_task_id
            &&& new.queue == paths.queue
            &&& new.repo == paths.repo
            &&& new.worktree_root == paths.worktree_root
            &&& new.plan == plan
            &&& new.orchestrator == orchestrator
            &&& new.created_at_unix == now
            &&& forall|id: Seq<char>| !#[trigger] new.runtimes.contains_key(id)
        }),
        ({
            let pass = new_pass(ledger, options);
            &&& pass.ledger == ledger
            &&& pass.lease_seconds == options.lease_seconds
            &&& pass.model == options.model
            &&& pass.plan is None && pass.tasks.len() == 0 && pass.index == 0
            &&& pass.action() is ReadPlan
        }),
{
}

/// A new ledger is accepted for the options and the paths that it was made with.
pub proof fn new_ledgers_are_accepted(
    options: OptionsView,
    paths: PathsView,
    run_id: Seq<char>,
    plan: SnapshotView,
    orchestrator: IdentityView,
    now: u64,
)
    ensures
        new_ledger(options, paths, run_id, plan, orchestrator, now).fault(
            options.root_task_id,
            paths.queue,
            paths.repo,
            paths.worktree_root,
        ) is None,
{
    let new = new_ledger(options, paths, run_id, plan, orchestrator, now);
    first_faults_come_first(new.runtimes.dom(), |id: Seq<char>| new.runtime_fault(id));
}

// ---------------------------------------------------------------------------------------------
// The steps of a run

/// A run begins by locating its repository, and goes from there to the queue, the directory of the
/// worktrees and the directory of the ledgers, each as it was given or found.
pub proof fn paths_are_located_one_after_another(
    run: RunView,
    repo: PlaceView,
    place: PlaceView,
    queue: Seq<char>,
    root: Seq<char>,
    configured: Option<Seq<char>>,
    candidates: Seq<QueueCandidate>,
)
    ensures
        run.options.fault() is None ==> RunView::begin(run.options).action()
            == (RunActionView::Locate { path: run.options.repo }),
        run.phase is ResolvingRepo ==> run.step(RunEventView::Located(Ok(repo))).action()
            == (RunActionView::FindQueues { search_root: repo.path }) && run.step(
            RunEventView::Located(Ok(repo)),
        ).phase == (RunPhaseView::FindingQueue { repo }),
        run.phase == (RunPhaseView::FindingQueue { repo }) ==> {
            let chosen = queue_path_for(run.options.queue, configured, repo.path, candidates);
            let next = run.step(RunEventView::Queues { configured, candidates });
            &&& next.phase == (RunPhaseView::ResolvingQueue { repo, queue: chosen })
            &&& next.action() == (RunActionView::Locate { path: chosen })
        },
        run.phase == (RunPhaseView::ResolvingQueue { repo, queue }) ==> {
            let next = run.step(RunEventView::Located(Ok(place)));
            let to = worktree_root_for(run.options.worktree_root, repo);
            &&& next.phase == (RunPhaseView::MakingRoot { repo, queue: place.path, root: to })
            &&& next.action() == (RunActionView::MakeDirectory { path: to })
        },
        run.phase == (RunPhaseView::MakingRoot { repo, queue, root }) ==> {
            let next = run.step(RunEventView::Made(Ok(())));
            &&& next.phase == (RunPhaseView::ResolvingRoot { repo, queue, root })
            &&& next.action() == (RunActionView::Locate { path: root })
        },
        run.phase == (RunPhaseView::ResolvingRoot { repo, queue, root }) ==> {
            let next = run.step(RunEventView::Located(Ok(place)));
            let state_dir = state_dir_for(run.options.state_dir, repo);
            &&& next.phase == (RunPhaseView::Settling { repo, queue, root: place.path, state_dir })
            &&& next.action() == (RunActionView::FindDirectory { path: state_dir })
        },
{
}

/// A run works with the paths that were located, and reads the dependencies of its root from the
/// queue before it looks for a ledger.
pub proof fn located_paths_are_used(
    run: RunView,
    repo: PlaceView,
    queue: Seq<char>,
    root: Seq<char>,
    state_dir: Seq<char>,
    directory: Seq<char>,
    paths: PathsView,
    plan: PlanView,
)
    ensures
        run.phase == (RunPhaseView::Settling { repo, queue, root, state_dir }) ==> (run.step(
            RunEventView::Directory { is_absolute: false, current: Ok(directory) },
        ).phase matches RunPhaseView::ReadingGraph { paths: to } && to.queue == queue && to.repo
            == repo.path && to.worktree_root == root && begins(to.state_dir, directory) && ends(
            to.state_dir,
            state_dir,
        )),
        run.phase == (RunPhaseView::Settling { repo, queue, root, state_dir }) ==> (run.step(
            RunEventView::Directory { is_absolute: true, current: Ok(directory) },
        ).phase matches RunPhaseView::ReadingGraph { paths: to } && to.queue == queue && to.repo
            == repo.path && to.worktree_root == root && to.state_dir == state_dir),
        run.phase == (RunPhaseView::ReadingGraph { paths }) ==> {
            &&& run.action() == (RunActionView::ReadGraph {
                queue: paths.queue,
                root_task_id: run.options.root_task_id,
            })
            &&& run.step(RunEventView::Plan(Ok(plan))).action() == (RunActionView::Load {
                state_dir: paths.state_dir,
                root_task_id: run.options.root_task_id,
            })
        },
{
    paths_below_keep_both_parts(directory, state_dir);
}

/// A ledger that is found is taken up under its own ID and checked against its own plan; without one
/// the run gets a new ID, and the plan is taken as it is.
pub proof fn runs_are_taken_up_or_begun(
    run: RunView,
    paths: PathsView,
    ledger: LedgerView,
    run_id: Seq<char>,
)
    ensures
        run.phase == (RunPhaseView::Loading { paths }) ==> {
            &&& run.step(RunEventView::Loaded(Ok(Some(ledger)))).action()
                == (RunActionView::ReadPlan {
                queue: paths.queue,
                root_task_id: run.options.root_task_id,
                run_id: ledger.run_id,
                expected: Some(ledger.plan),
            })
            &&& run.step(RunEventView::Loaded(Ok(Some(ledger)))).phase
                == (RunPhaseView::Validating {
                paths,
                run_id: ledger.run_id,
                retained: Some(ledger),
            })
            &&& run.step(RunEventView::Loaded(Ok(None))).action() == (RunActionView::NameRun {
                root_task_id: run.options.root_task_id,
            })
        },
        run.phase == (RunPhaseView::Naming { paths }) ==> {
            &&& run.step(RunEventView::Named(Ok(run_id))).action() == (RunActionView::ReadPlan {
                queue: paths.queue,
                root_task_id: run.options.root_task_id,
                run_id,
                expected: None,
            })
            &&& run.step(RunEventView::Named(Ok(run_id))).phase == (RunPhaseView::Validating {
                paths,
                run_id,
                retained: None,
            })
        },
{
}

/// A plan is judged before anything is asked of Herdr: a ledger that is not the one asked for, or a
/// stray task, stops the run; a run that is complete ends with its output; all others go on with the
/// plan as it was read.
pub proof fn plans_are_judged(
    run: RunView,
    paths: PathsView,
    run_id: Seq<char>,
    ledger: LedgerView,
    plan: PlanView,
)
    ensures
        run.phase == (RunPhaseView::Validating { paths, run_id, retained: Some(ledger) }) ==> {
            let next = run.step(RunEventView::Plan(Ok(plan)));
            let fault = ledger.fault(
                run.options.root_task_id,
                paths.queue,
                paths.repo,
                paths.worktree_root,
            );
            let done = plan.queue.tasks[plan.root_task_id].stored_status == TaskStatus::Closed
                && forall|id: Seq<char>| #[trigger]
                ledger.runtimes.contains_key(id) ==> ledger.runtimes[id].stage is Completed;
            &&& fault is Some ==> next.phase == RunPhaseView::Ended(
                Err(ErrorView::Runtime(fault->0)),
            )
            &&& fault is None && orphan_error(plan, ledger) is Some ==> next.phase
                == RunPhaseView::Ended(Err(orphan_error(plan, ledger)->0))
            &&& fault is None && orphan_error(plan, ledger) is None && done ==> next.phase
                == RunPhaseView::Ended(Ok(output_for(ledger, FinishStatus::Complete)))
            &&& fault is None && orphan_error(plan, ledger) is None && !done ==> next.phase
                == (RunPhaseView::Preflighting {
                paths,
                run_id,
                retained: Some(ledger),
                plan: plan.snapshot(),
            }) && next.action() is Preflight
        },
        run.phase == (RunPhaseView::Validating { paths, run_id, retained: None }) ==> {
            let next = run.step(RunEventView::Plan(Ok(plan)));
            let done = plan.queue.tasks[plan.root_task_id].stored_status == TaskStatus::Closed;
            &&& fresh_error(plan) is Some ==> next.phase == RunPhaseView::Ended(
                Err(fresh_error(plan)->0),
            )
            &&& fresh_error(plan) is None && !done ==> next.phase == (RunPhaseView::Preflighting {
                paths,
                run_id,
                retained: None,
                plan: plan.snapshot(),
            }) && next.action() is Preflight
        },
{
}

/// A run that is taken up goes on under the orchestrator that began it, and under no other; a new one
/// takes the orchestrator and the time into its ledger, and saves that before its first pass.
pub proof fn runs_keep_their_orchestrator(
    run: RunView,
    paths: PathsView,
    run_id: Seq<char>,
    ledger: LedgerView,
    plan: SnapshotView,
    orchestrator: IdentityView,
    now: u64,
)
    ensures
        run.phase == (RunPhaseView::Introducing { paths, run_id, retained: Some(ledger), plan }) ==> {
            let next = run.step(RunEventView::Introduced(Ok(orchestrator)));
            let same = ledger.orchestrator.session_id == orchestrator.session_id
                && ledger.orchestrator.slug == orchestrator.slug;
            &&& same ==> next.phase == (RunPhaseView::Passing {
                pass: new_pass(ledger, run.options),
            })
            &&& !same ==> next.phase == RunPhaseView::Ended(
                Err(
                    ErrorView::OrchestratorMismatch {
                        expected: ledger.orchestrator.slug,
                        actual: orchestrator.slug,
                    },
                ),
            )
        },
        run.phase == (RunPhaseView::Introducing { paths, run_id, retained: None, plan }) ==> {
            let next = run.step(RunEventView::Introduced(Ok(orchestrator)));
            next.phase == (RunPhaseView::Stamping { paths, run_id, plan, orchestrator })
                && next.action() is ReadClock
        },
        run.phase == (RunPhaseView::Stamping { paths, run_id, plan, orchestrator }) ==> (run.step(
            RunEventView::Clock(Ok(now)),
        ).action() matches RunActionView::SaveLedger { ledger: new } && new.run_id == run_id
            && new.orchestrator == orchestrator && new.plan == plan && new.created_at_unix == now
            && new.root_task_id == run.options.root_task_id && new.queue == paths.queue),
        run.phase == (RunPhaseView::Saving { ledger }) ==> run.step(
            RunEventView::Saved(Ok(())),
        ).phase == (RunPhaseView::Passing { pass: new_pass(ledger, run.options) }),
        run.phase == (RunPhaseView::Preflighting { paths, run_id, retained: Some(ledger), plan })
            ==> run.step(RunEventView::Ready(Ok(()))).phase == (RunPhaseView::Introducing {
            paths,
            run_id,
            retained: Some(ledger),
            plan,
        }) && run.step(RunEventView::Ready(Ok(()))).action() is Introduce,
{
}

/// A run that is not complete sleeps for the seconds between polls and then passes again with its
/// ledger, unless it was asked for one pass alone; an error of a pass ends it.
pub proof fn runs_pass_until_they_are_complete(
    run: RunView,
    pass: PassView,
    event: EventView,
)
    requires
        run.phase == (RunPhaseView::Passing { pass }),
    ensures
        run.action() == (RunActionView::Pass { action: pass.action() }),
        ({
            let next = run.step(RunEventView::Pass(event));
            let after = pass.step(event);
            match after.phase {
                PhaseView::Ended(Err(error)) => next.phase == RunPhaseView::Ended(Err(error)),
                PhaseView::Ended(Ok(FinishStatus::Complete)) => next.phase == RunPhaseView::Ended(
                    Ok(output_for(after.ledger, FinishStatus::Complete)),
                ),
                PhaseView::Ended(Ok(FinishStatus::Active)) => if run.options.once {
                    next.phase == RunPhaseView::Ended(
                        Ok(output_for(after.ledger, FinishStatus::Active)),
                    )
                } else {
                    &&& next.action() == (RunActionView::Sleep {
                        seconds: run.options.poll_seconds,
                    })
                    &&& next.step(RunEventView::Woken).phase == (RunPhaseView::Passing {
                        pass: new_pass(after.ledger, run.options),
                    })
                },
                _ => next.phase == (RunPhaseView::Passing { pass: after }),
            }
        }),
{
}

/// The event is what comes back of the action.
pub open spec fn answers_run(action: RunActionView, event: RunEventView) -> bool {
    match action {
        RunActionView::Locate { path } => event is Located,
        RunActionView::FindQueues { search_root } => event is Queues,
        RunActionView::MakeDirectory { path } => event is Made,
        RunActionView::FindDirectory { path } => event is Directory,
        RunActionView::ReadGraph { queue, root_task_id } => event is Plan,
        RunActionView::Load { state_dir, root_task_id } => event is Loaded,
        RunActionView::NameRun { root_task_id } => event is Named,
        RunActionView::ReadPlan { queue, root_task_id, run_id, expected } => event is Plan,
        RunActionView::Preflight => event is Ready,
        RunActionView::Introduce => event is Introduced,
        RunActionView::ReadClock => event is Clock,
        RunActionView::SaveLedger { ledger } => event is Saved,
        RunActionView::Pass { action } => event is Pass,
        RunActionView::Sleep { seconds } => event is Woken,
        RunActionView::Rest => false,
    }
}

/// A run moves by what comes back of the action that it asked for, and by nothing else; its options
/// stay as they are.
pub proof fn runs_move_by_what_they_asked_for(run: RunView, event: RunEventView)
    ensures
        !answers_run(run.action(), event) ==> run.step(event) == run,
        run.step(event).options == run.options,
{
}

/// A run with options that are refused has ended with the reason; any other begins.
pub proof fn runs_begin_unless_refused(options: OptionsView)
    ensures
        RunView::begin(options).options == options,
        options.poll_seconds > 0 && options.lease_seconds > 0 ==> RunView::begin(options).phase
            is ResolvingRepo,
        options.poll_seconds == 0 ==> RunView::begin(options).phase == RunPhaseView::Ended(
            Err(ErrorView::InvalidInterval { option: "--poll-seconds"@ }),
        ),
        options.poll_seconds > 0 && options.lease_seconds == 0 ==> RunView::begin(options).phase
            == RunPhaseView::Ended(
            Err(ErrorView::InvalidInterval { option: "--lease-seconds"@ }),
        ),
{
}

/// A failure outside a pass ends the run, and is told as what it is.
pub proof fn failures_end_the_run(run: RunView, event: RunEventView)
    requires
        run.step(event) != run,
    ensures
        event matches RunEventView::Loaded(Err(e)) ==> run.step(event).phase == RunPhaseView::Ended(
            Err(ErrorView::Runtime(e)),
        ),
        event matches RunEventView::Named(Err(e)) ==> run.step(event).phase == RunPhaseView::Ended(
            Err(ErrorView::Runtime(e)),
        ),
        event matches RunEventView::Ready(Err(e)) ==> run.step(event).phase == RunPhaseView::Ended(
            Err(ErrorView::Herdr(e)),
        ),
        event matches RunEventView::Introduced(Err(e)) ==> run.step(event).phase
            == RunPhaseView::Ended(Err(ErrorView::Identity(e))),
        event matches RunEventView::Clock(Err(e)) ==> run.step(event).phase == RunPhaseView::Ended(
            Err(ErrorView::Runtime(e)),
        ),
        event matches RunEventView::Saved(Err(e)) ==> run.step(event).phase == RunPhaseView::Ended(
            Err(ErrorView::Runtime(e)),
        ),
        event matches RunEventView::Plan(Err(e)) ==> run.step(event).phase == RunPhaseView::Ended(
            Err(
                match e {
                    sq::ErrorView::UnownedInProgress { task_id } =>
                        ErrorView::UnownedInProgress { task_id },
                    _ => ErrorView::Sq(e),
                },
            ),
        ),
{
}

/// A path or a directory that fails is told with what it was for.
pub proof fn failed_paths_are_told(
    run: RunView,
    repo: PlaceView,
    queue: Seq<char>,
    root: Seq<char>,
    source: Seq<char>,
)
    ensures
        run.phase is ResolvingRepo ==> run.step(RunEventView::Located(Err(source))).phase
            == RunPhaseView::Ended(
            Err(
                ErrorView::Canonicalize {
                    kind: "repository"@,
                    path: run.options.repo,
                    source,
                },
            ),
        ),
        run.phase == (RunPhaseView::ResolvingQueue { repo, queue }) ==> run.step(
            RunEventView::Located(Err(source)),
        ).phase == RunPhaseView::Ended(
            Err(ErrorView::Canonicalize { kind: "SQ queue"@, path: queue, source }),
        ),
        run.phase == (RunPhaseView::MakingRoot { repo, queue, root }) ==> run.step(
            RunEventView::Made(Err(source)),
        ).phase == RunPhaseView::Ended(
            Err(ErrorView::CreateDirectory { kind: "worktree root"@, path: root, source }),
        ),
        run.phase == (RunPhaseView::ResolvingRoot { repo, queue, root }) ==> run.step(
            RunEventView::Located(Err(source)),
        ).phase == RunPhaseView::Ended(
            Err(ErrorView::Canonicalize { kind: "worktree root"@, path: root, source }),
        ),
{
}

} // verus!
