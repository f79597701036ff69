//! A run from its options to its output: the paths are resolved, the plan is judged, the ledger is
//! taken up or begun, and passes are made until the root is finished. As in a pass, what is decided
//! on is done outside, and its outcome comes back as an event.
use vstd::prelude::*;
use crate::finish::{
    absolute, absolute_path, choose_state_dir, choose_worktree_root, completed, completion_ready,
    fresh_error, orphan_error, output, output_for, plan_refused, refusal, reject_fresh_in_progress,
    reject_orphaned_in_progress, root_closed, state_dir_for, worktree_root_for, Error, ErrorView,
    FinishOptions, FinishOutput, FinishStatus, OptionsView, OutputView, PathsView, Place, PlaceView,
    ResolvedPaths, RuntimeSummary, SummaryView,
};
use crate::herdr;
use crate::identity;
use crate::identity::{Identity, IdentityView};
use crate::outcome::{seen, shown};
use crate::pass::{Action, ActionView, Event, EventView, Pass, PassView, PhaseView};
use crate::runtime;
use crate::runtime::{LedgerView, RunLedger, RuntimeStage, LEDGER_VERSION};
use crate::sq;
use crate::sq::{
    queue_path_for, resolve_queue_path, PlanSnapshot, PlanView, QueueCandidate, ScopedPlan,
    SnapshotView, TaskStatus,
};
use crate::table::{listed, listed_holds_the_keys};

verus! {

// ---------------------------------------------------------------------------------------------
// Events

/// The outcome of an action.
pub enum RunEvent {
    /// The canonical path of what was looked for.
    Located(Result<Place, String>),
    /// The queues that were found: the configured one, and those in the directories.
    Queues { configured: Option<String>, candidates: Vec<QueueCandidate> },
    /// A directory was made.
    Made(Result<(), String>),
    /// Whether a path is absolute, and the directory that a relative one starts from.
    Directory { is_absolute: bool, current: Result<String, String> },
    /// The plan that the queue holds.
    Plan(Result<ScopedPlan, sq::Error>),
    /// The ledger of the root, once it is locked.
    Loaded(Result<Option<RunLedger>, runtime::Error>),
    /// The ID of a new run.
    Named(Result<String, runtime::Error>),
    /// Herdr is ready.
    Ready(Result<(), herdr::Error>),
    /// The identity of the orchestrator.
    Introduced(Result<Identity, identity::Error>),
    /// The time.
    Clock(Result<u64, runtime::Error>),
    /// The ledger was saved.
    Saved(Result<(), runtime::Error>),
    /// The time between two passes is over.
    Woken,
    /// The outcome of an action of a pass.
    Pass(Event),
}

/// What an event says.
pub enum RunEventView {
    Located(Result<PlaceView, Seq<char>>),
    Queues { configured: Option<Seq<char>>, candidates: Seq<QueueCandidate> },
    Made(Result<(), Seq<char>>),
    Directory { is_absolute: bool, current: Result<Seq<char>, Seq<char>> },
    Plan(Result<PlanView, sq::ErrorView>),
    Loaded(Result<Option<LedgerView>, runtime::ErrorView>),
    Named(Result<Seq<char>, runtime::ErrorView>),
    Ready(Result<(), herdr::ErrorView>),
    Introduced(Result<IdentityView, identity::ErrorView>),
    Clock(Result<u64, runtime::ErrorView>),
    Saved(Result<(), runtime::ErrorView>),
    Woken,
    Pass(EventView),
}

impl View for RunEvent {
    type V = RunEventView;

    open spec fn view(&self) -> RunEventView {
        match *self {
            RunEvent::Located(r) => RunEventView::Located(seen(r)),
            RunEvent::Queues { configured, candidates } => RunEventView::Queues {
                configured: shown(configured),
                candidates: candidates@,
            },
            RunEvent::Made(r) => RunEventView::Made(seen(r)),
            RunEvent::Directory { is_absolute, current } => RunEventView::Directory {
                is_absolute,
                current: seen(current),
            },
            RunEvent::Plan(r) => RunEventView::Plan(seen(r)),
            RunEvent::Loaded(r) => RunEventView::Loaded(
                match r {
                    Ok(found) => Ok(shown(found)),
                    Err(error) => Err(error@),
                },
            ),
            RunEvent::Named(r) => RunEventView::Named(seen(r)),
            RunEvent::Ready(r) => RunEventView::Ready(seen(r)),
            RunEvent::Introduced(r) => RunEventView::Introduced(seen(r)),
            RunEvent::Clock(r) => RunEventView::Clock(seen(r)),
            RunEvent::Saved(r) => RunEventView::Saved(seen(r)),
            RunEvent::Woken => RunEventView::Woken,
            RunEvent::Pass(event) => RunEventView::Pass(event@),
        }
    }
}

// ---------------------------------------------------------------------------------------------
// Phases

/// What a run waits for.
#[allow(inconsistent_fields)]
pub enum RunPhase {
    /// The repository.
    ResolvingRepo,
    /// The queues that are there.
    FindingQueue { repo: Place },
    /// The queue.
    ResolvingQueue { repo: Place, queue: String },
    /// The directory of the worktrees being made.
    MakingRoot { repo: Place, queue: String, root: String },
    /// The directory of the worktrees.
    ResolvingRoot { repo: Place, queue: String, root: String },
    /// The directory of the ledgers.
    Settling { repo: Place, queue: String, root: String, state_dir: String },
    /// The plan, before anything else is touched.
    ReadingGraph { paths: ResolvedPaths },
    /// The ledger that is retained.
    Loading { paths: ResolvedPaths },
    /// The ID of a new run.
    Naming { paths: ResolvedPaths },
    /// The plan as the run may work on it.
    Validating { paths: ResolvedPaths, run_id: String, retained: Option<RunLedger> },
    /// Herdr.
    Preflighting {
        paths: ResolvedPaths,
        run_id: String,
        retained: Option<RunLedger>,
        plan: PlanSnapshot,
    },
    /// The identity of the orchestrator.
    Introducing {
        paths: ResolvedPaths,
        run_id: String,
        retained: Option<RunLedger>,
        plan: PlanSnapshot,
    },
    /// The time at which a new run begins.
    Stamping { paths: ResolvedPaths, run_id: String, plan: PlanSnapshot, orchestrator: Identity },
    /// The ledger of a new run being saved.
    Saving { ledger: RunLedger },
    /// A pass.
    Passing { pass: Pass },
    /// The time between two passes.
    Sleeping { ledger: RunLedger },
    /// Nothing more.
    Ended(Result<FinishOutput, Error>),
}

/// What a phase says.
#[allow(inconsistent_fields)]
pub enum RunPhaseView {
    ResolvingRepo,
    FindingQueue { repo: PlaceView },
    ResolvingQueue { repo: PlaceView, queue: Seq<char> },
    MakingRoot { repo: PlaceView, queue: Seq<char>, root: Seq<char> },
    ResolvingRoot { repo: PlaceView, queue: Seq<char>, root: Seq<char> },
    Settling { repo: PlaceView, queue: Seq<char>, root: Seq<char>, state_dir: Seq<char> },
    ReadingGraph { paths: PathsView },
    Loading { paths: PathsView },
    Naming { paths: PathsView },
    Validating { paths: PathsView, run_id: Seq<char>, retained: Option<LedgerView> },
    Preflighting {
        paths: PathsView,
        run_id: Seq<char>,
        retained: Option<LedgerView>,
        plan: SnapshotView,
    },
    Introducing {
        paths: PathsView,
        run_id: Seq<char>,
        retained: Option<LedgerView>,
        plan: SnapshotView,
    },
    Stamping {
        paths: PathsView,
        run_id: Seq<char>,
        plan: SnapshotView,
        orchestrator: IdentityView,
    },
    Saving { ledger: LedgerView },
    Passing { pass: PassView },
    Sleeping { ledger: LedgerView },
    Ended(Result<OutputView, ErrorView>),
}

impl View for RunPhase {
    type V = RunPhaseView;

    open spec fn view(&self) -> RunPhaseView {
        match *self {
            RunPhase::ResolvingRepo => RunPhaseView::ResolvingRepo,
            RunPhase::FindingQueue { repo } => RunPhaseView::FindingQueue { repo: repo@ },
            RunPhase::ResolvingQueue { repo, queue } => RunPhaseView::ResolvingQueue {
                repo: repo@,
                queue: queue@,
            },
            RunPhase::MakingRoot { repo, queue, root } => RunPhaseView::MakingRoot {
                repo: repo@,
                queue: queue@,
                root: root@,
            },
            RunPhase::ResolvingRoot { repo, queue, root } => RunPhaseView::ResolvingRoot {
                repo: repo@,
                queue: queue@,
                root: root@,
            },
            RunPhase::Settling { repo, queue, root, state_dir } => RunPhaseView::Settling {
                repo: repo@,
                queue: queue@,
                root: root@,
                state_dir: state_dir@,
            },
            RunPhase::ReadingGraph { paths } => RunPhaseView::ReadingGraph { paths: paths@ },
            RunPhase::Loading { paths } => RunPhaseView::Loading { paths: paths@ },
            RunPhase::Naming { paths } => RunPhaseView::Naming { paths: paths@ },
            RunPhase::Validating { paths, run_id, retained } => RunPhaseView::Validating {
                paths: paths@,
                run_id: run_id@,
                retained: shown(retained),
            },
            RunPhase::Preflighting { paths, run_id, retained, plan } =>
                RunPhaseView::Preflighting {
                paths: paths@,
                run_id: run_id@,
                retained: shown(retained),
                plan: plan@,
            },
            RunPhase::Introducing { paths, run_id, retained, plan } => RunPhaseView::Introducing {
                paths: paths@,
                run_id: run_id@,
                retained: shown(retained),
                plan: plan@,
            },
            RunPhase::Stamping { paths, run_id, plan, orchestrator } => RunPhaseView::Stamping {
                paths: paths@,
                run_id: run_id@,
                plan: plan@,
                orchestrator: orchestrator@,
            },
            RunPhase::Saving { ledger } => RunPhaseView::Saving { ledger: ledger@ },
            RunPhase::Passing { pass } => RunPhaseView::Passing { pass: pass@ },
            RunPhase::Sleeping { ledger } => RunPhaseView::Sleeping { ledger: ledger@ },
            RunPhase::Ended(r) => RunPhaseView::Ended(seen(r)),
        }
    }
}

/// What a run is about.
pub struct RunView {
    pub options: OptionsView,
    pub phase: RunPhaseView,
}

// ---------------------------------------------------------------------------------------------
// What a run does

/// A pass over a ledger that was not begun.
pub open spec fn new_pass(ledger: LedgerView, options: OptionsView) -> PassView {
    PassView {
        ledger,
        lease_seconds: options.lease_seconds,
        model: options.model,
        plan: None,
        tasks: Seq::empty(),
        index: 0,
        phase: PhaseView::Opening,
    }
}

/// The ledger of a run that begins.
pub open spec fn new_ledger(
    options: OptionsView,
    paths: PathsView,
    run_id: Seq<char>,
    plan: SnapshotView,
    orchestrator: IdentityView,
    now: u64,
) -> LedgerView {
    LedgerView {
        version: LEDGER_VERSION,
        run_id,
        root_task_id: options.root_task_id,
        queue: paths.queue,
        repo: paths.repo,
        worktree_root: paths.worktree_root,
        plan,
        orchestrator,
        created_at_unix: now,
        runtimes: Map::empty(),
    }
}

/// The output for a root that is closed without a run.
pub open spec fn closed_output(root_task_id: Seq<char>) -> OutputView {
    OutputView {
        status: FinishStatus::Complete,
        run_id: None,
        root_task_id,
        runtimes: Seq::empty(),
    }
}

impl RunView {
    /// A run with its options.
    pub open spec fn begin(options: OptionsView) -> RunView {
        RunView {
            options,
            phase: match options.fault() {
                Some(error) => RunPhaseView::Ended(Err(error)),
                None => RunPhaseView::ResolvingRepo,
            },
        }
    }

    pub open spec fn at(self, phase: RunPhaseView) -> RunView {
        RunView { phase, ..self }
    }

    pub open spec fn stop(self, error: ErrorView) -> RunView {
        self.at(RunPhaseView::Ended(Err(error)))
    }

    /// With the plan as the run may work on it: a plan that does not fit what is retained is
    /// refused, and a finished root is finished.
    pub open spec fn judged(
        self,
        paths: PathsView,
        run_id: Seq<char>,
        retained: Option<LedgerView>,
        plan: PlanView,
    ) -> RunView {
        let go_on = self.at(
            RunPhaseView::Preflighting { paths, run_id, retained, plan: plan.snapshot() },
        );
        match retained {
            Some(ledger) => match ledger.fault(
                self.options.root_task_id,
                paths.queue,
                paths.repo,
                paths.worktree_root,
            ) {
                Some(error) => self.stop(ErrorView::Runtime(error)),
                None => match orphan_error(plan, ledger) {
                    Some(error) => self.stop(error),
                    None => if completed(plan, ledger) {
                        self.at(
                            RunPhaseView::Ended(Ok(output_for(ledger, FinishStatus::Complete))),
                        )
                    } else {
                        go_on
                    },
                },
            },
            None => match fresh_error(plan) {
                Some(error) => self.stop(error),
                None => if plan.queue.tasks[plan.root_task_id].stored_status
                    == TaskStatus::Closed {
                    self.at(RunPhaseView::Ended(Ok(closed_output(self.options.root_task_id))))
                } else {
                    go_on
                },
            },
        }
    }

    /// With the identity of the orchestrator: a retained run is only taken up by its own.
    pub open spec fn introduced(
        self,
        paths: PathsView,
        run_id: Seq<char>,
        retained: Option<LedgerView>,
        plan: SnapshotView,
        orchestrator: IdentityView,
    ) -> RunView {
        match retained {
            Some(ledger) => if !ledger.orchestrator.same_agent(orchestrator) {
                self.stop(
                    ErrorView::OrchestratorMismatch {
                        expected: ledger.orchestrator.slug,
                        actual: orchestrator.slug,
                    },
                )
            } else {
                self.at(RunPhaseView::Passing { pass: new_pass(ledger, self.options) })
            },
            None => self.at(RunPhaseView::Stamping { paths, run_id, plan, orchestrator }),
        }
    }

    /// With a pass as it is now: one that has ended ends the run, unless the run goes on polling.
    pub open spec fn passed(self, pass: PassView) -> RunView {
        match pass.phase {
            PhaseView::Ended(Err(error)) => self.stop(error),
            PhaseView::Ended(Ok(status)) => if status == FinishStatus::Complete
                || self.options.once {
                self.at(RunPhaseView::Ended(Ok(output_for(pass.ledger, status))))
            } else {
                self.at(RunPhaseView::Sleeping { ledger: pass.ledger })
            },
            _ => self.at(RunPhaseView::Passing { pass }),
        }
    }

    /// After an event. One that the run does not wait for changes nothing.
    pub open spec fn step(self, event: RunEventView) -> RunView {
        match (self.phase, event) {
            (RunPhaseView::ResolvingRepo, RunEventView::Located(r)) => match r {
                Err(source) => self.stop(
                    ErrorView::Canonicalize {
                        kind: "repository"@,
                        path: self.options.repo,
                        source,
                    },
                ),
                Ok(repo) => self.at(RunPhaseView::FindingQueue { repo }),
            },
            (
                RunPhaseView::FindingQueue { repo },
                RunEventView::Queues { configured, candidates },
            ) => self.at(
                RunPhaseView::ResolvingQueue {
                    repo,
                    queue: queue_path_for(
                        self.options.queue,
                        configured,
                        repo.path,
                        candidates,
                    ),
                },
            ),
            (RunPhaseView::ResolvingQueue { repo, queue }, RunEventView::Located(r)) => match r {
                Err(source) => self.stop(
                    ErrorView::Canonicalize { kind: "SQ queue"@, path: queue, source },
                ),
                Ok(place) => self.at(
                    RunPhaseView::MakingRoot {
                        repo,
                        queue: place.path,
                        root: worktree_root_for(self.options.worktree_root, repo),
                    },
                ),
            },
            (RunPhaseView::MakingRoot { repo, queue, root }, RunEventView::Made(r)) => match r {
                Err(source) => self.stop(
                    ErrorView::CreateDirectory { kind: "worktree root"@, path: root, source },
                ),
                Ok(_) => self.at(RunPhaseView::ResolvingRoot { repo, queue, root }),
            },
            (RunPhaseView::ResolvingRoot { repo, queue, root }, RunEventView::Located(r)) => match r {
                Err(source) => self.stop(
                    ErrorView::Canonicalize { kind: "worktree root"@, path: root, source },
                ),
                Ok(place) => self.at(
                    RunPhaseView::Settling {
                        repo,
                        queue,
                        root: place.path,
                        state_dir: state_dir_for(self.options.state_dir, repo),
                    },
                ),
            },
            (
                RunPhaseView::Settling { repo, queue, root, state_dir },
                RunEventView::Directory { is_absolute, current },
            ) => match absolute_path(state_dir, is_absolute, current) {
                Err(error) => self.stop(error),
                Ok(state_dir) => self.at(
                    RunPhaseView::ReadingGraph {
                        paths: PathsView {
                            queue,
                            repo: repo.path,
                            state_dir,
                            worktree_root: root,
                        },
                    },
                ),
            },
            (RunPhaseView::ReadingGraph { paths }, RunEventView::Plan(r)) => match r {
                Err(error) => self.stop(refusal(error)),
                Ok(_) => self.at(RunPhaseView::Loading { paths }),
            },
            (RunPhaseView::Loading { paths }, RunEventView::Loaded(r)) => match r {
                Err(error) => self.stop(ErrorView::Runtime(error)),
                Ok(None) => self.at(RunPhaseView::Naming { paths }),
                Ok(Some(ledger)) => self.at(
                    RunPhaseView::Validating {
                        paths,
                        run_id: ledger.run_id,
                        retained: Some(ledger),
                    },
                ),
            },
            (RunPhaseView::Naming { paths }, RunEventView::Named(r)) => match r {
                Err(error) => self.stop(ErrorView::Runtime(error)),
                Ok(run_id) => self.at(RunPhaseView::Validating { paths, run_id, retained: None }),
            },
            (RunPhaseView::Validating { paths, run_id, retained }, RunEventView::Plan(r)) => match r {
                Err(error) => self.stop(refusal(error)),
                Ok(plan) => self.judged(paths, run_id, retained, plan),
            },
            (
                RunPhaseView::Preflighting { paths, run_id, retained, plan },
                RunEventView::Ready(r),
            ) => match r {
                Err(error) => self.stop(ErrorView::Herdr(error)),
                Ok(_) => self.at(RunPhaseView::Introducing { paths, run_id, retained, plan }),
            },
            (
                RunPhaseView::Introducing { paths, run_id, retained, plan },
                RunEventView::Introduced(r),
            ) => match r {
                Err(error) => self.stop(ErrorView::Identity(error)),
                Ok(orchestrator) => self.introduced(paths, run_id, retained, plan, orchestrator),
            },
            (
                RunPhaseView::Stamping { paths, run_id, plan, orchestrator },
                RunEventView::Clock(r),
            ) => match r {
                Err(error) => self.stop(ErrorView::Runtime(error)),
                Ok(now) => self.at(
                    RunPhaseView::Saving {
                        ledger: new_ledger(self.options, paths, run_id, plan, orchestrator, now),
                    },
                ),
            },
            (RunPhaseView::Saving { ledger }, RunEventView::Saved(r)) => match r {
                Err(error) => self.stop(ErrorView::Runtime(error)),
                Ok(_) => self.at(
                    RunPhaseView::Passing { pass: new_pass(ledger, self.options) },
                ),
            },
            (RunPhaseView::Passing { pass }, RunEventView::Pass(event)) => self.passed(
                pass.step(event),
            ),
            (RunPhaseView::Sleeping { ledger }, RunEventView::Woken) => self.at(
                RunPhaseView::Passing { pass: new_pass(ledger, self.options) },
            ),
            _ => self,
        }
    }
}

// ---------------------------------------------------------------------------------------------
// Actions

/// What is to be done next, and with what.
#[allow(inconsistent_fields)]
pub enum RunAction<'a> {
    /// Find the canonical path of something.
    Locate { path: &'a str },
    /// Look for queues from a directory upward.
    FindQueues { search_root: &'a str },
    /// Make a directory.
    MakeDirectory { path: &'a str },
    /// Tell whether a path is absolute, and the current directory.
    FindDirectory { path: &'a str },
    /// Read the plan of the queue.
    ReadGraph { queue: &'a str, root_task_id: &'a str },
    /// Lock and load the ledger of the root.
    Load { state_dir: &'a str, root_task_id: &'a str },
    /// Name a new run.
    NameRun { root_task_id: &'a str },
    /// Read the plan of the queue as the run may work on it.
    ReadPlan {
        queue: &'a str,
        root_task_id: &'a str,
        run_id: &'a str,
        expected: Option<&'a PlanSnapshot>,
    },
    /// Ask whether Herdr is ready.
    Preflight,
    /// Ask for the identity of the orchestrator.
    Introduce,
    /// Read the clock.
    ReadClock,
    /// Save the ledger.
    SaveLedger { ledger: &'a RunLedger },
    /// An action of a pass.
    Pass { action: Action<'a> },
    /// Wait.
    Sleep { seconds: u64 },
    /// Nothing.
    Rest,
}

/// What an action says.
#[allow(inconsistent_fields)]
pub enum RunActionView {
    Locate { path: Seq<char> },
    FindQueues { search_root: Seq<char> },
    MakeDirectory { path: Seq<char> },
    FindDirectory { path: Seq<char> },
    ReadGraph { queue: Seq<char>, root_task_id: Seq<char> },
    Load { state_dir: Seq<char>, root_task_id: Seq<char> },
    NameRun { root_task_id: Seq<char> },
    ReadPlan {
        queue: Seq<char>,
        root_task_id: Seq<char>,
        run_id: Seq<char>,
        expected: Option<SnapshotView>,
    },
    Preflight,
    Introduce,
    ReadClock,
    SaveLedger { ledger: LedgerView },
    Pass { action: ActionView },
    Sleep { seconds: u64 },
    Rest,
}

impl<'a> View for RunAction<'a> {
    type V = RunActionView;

    open spec fn view(&self) -> RunActionView {
        match *self {
            RunAction::Locate { path } => RunActionView::Locate { path: path@ },
            RunAction::FindQueues { search_root } => RunActionView::FindQueues {
                search_root: search_root@,
            },
            RunAction::MakeDirectory { path } => RunActionView::MakeDirectory { path: path@ },
            RunAction::FindDirectory { path } => RunActionView::FindDirectory { path: path@ },
            RunAction::ReadGraph { queue, root_task_id } => RunActionView::ReadGraph {
                queue: queue@,
                root_task_id: root_task_id@,
            },
            RunAction::Load { state_dir, root_task_id } => RunActionView::Load {
                state_dir: state_dir@,
                root_task_id: root_task_id@,
            },
            RunAction::NameRun { root_task_id } => RunActionView::NameRun {
                root_task_id: root_task_id@,
            },
            RunAction::ReadPlan { queue, root_task_id, run_id, expected } =>
                RunActionView::ReadPlan {
                queue: queue@,
                root_task_id: root_task_id@,
                run_id: run_id@,
                expected: shown(expected),
            },
            RunAction::Preflight => RunActionView::Preflight,
            RunAction::Introduce => RunActionView::Introduce,
            RunAction::ReadClock => RunActionView::ReadClock,
            RunAction::SaveLedger { ledger } => RunActionView::SaveLedger { ledger: ledger@ },
            RunAction::Pass { action } => RunActionView::Pass { action: action@ },
            RunAction::Sleep { seconds } => RunActionView::Sleep { seconds },
            RunAction::Rest => RunActionView::Rest,
        }
    }
}

impl RunView {
    /// What is to be done next.
    pub open spec fn action(self) -> RunActionView {
        match self.phase {
            RunPhaseView::ResolvingRepo => RunActionView::Locate { path: self.options.repo },
            RunPhaseView::FindingQueue { repo } => RunActionView::FindQueues {
                search_root: repo.path,
            },
            RunPhaseView::ResolvingQueue { repo, queue } => RunActionView::Locate { path: queue },
            RunPhaseView::MakingRoot { repo, queue, root } => RunActionView::MakeDirectory {
                path: root,
            },
            RunPhaseView::ResolvingRoot { repo, queue, root } => RunActionView::Locate {
                path: root,
            },
            RunPhaseView::Settling { repo, queue, root, state_dir } =>
                RunActionView::FindDirectory { path: state_dir },
            RunPhaseView::ReadingGraph { paths } => RunActionView::ReadGraph {
                queue: paths.queue,
                root_task_id: self.options.root_task_id,
            },
            RunPhaseView::Loading { paths } => RunActionView::Load {
                state_dir: paths.state_dir,
                root_task_id: self.options.root_task_id,
            },
            RunPhaseView::Naming { paths } => RunActionView::NameRun {
                root_task_id: self.options.root_task_id,
            },
            RunPhaseView::Validating { paths, run_id, retained } => RunActionView::ReadPlan {
                queue: paths.queue,
                root_task_id: self.options.root_task_id,
                run_id,
                expected: match retained {
                    Some(ledger) => Some(ledger.plan),
                    None => None,
                },
            },
            RunPhaseView::Preflighting { paths, run_id, retained, plan } =>
                RunActionView::Preflight,
            RunPhaseView::Introducing { paths, run_id, retained, plan } =>
                RunActionView::Introduce,
            RunPhaseView::Stamping { paths, run_id, plan, orchestrator } =>
                RunActionView::ReadClock,
            RunPhaseView::Saving { ledger } => RunActionView::SaveLedger { ledger },
            RunPhaseView::Passing { pass } => RunActionView::Pass { action: pass.action() },
            RunPhaseView::Sleeping { ledger } => RunActionView::Sleep {
                seconds: self.options.poll_seconds,
            },
            RunPhaseView::Ended(_) => RunActionView::Rest,
        }
    }
}

// ---------------------------------------------------------------------------------------------
// The run

/// A run from its options to its output.
pub struct Run {
    options: FinishOptions,
    phase: RunPhase,
}

impl View for Run {
    type V = RunView;

    closed spec fn view(&self) -> RunView {
        RunView { options: self.options@, phase: self.phase@ }
    }
}

/// The plan as the run may work on it, judged by what is retained.
fn judge(
    options: &FinishOptions,
    paths: ResolvedPaths,
    run_id: String,
    retained: Option<RunLedger>,
    plan: &ScopedPlan,
) -> (r: RunPhase)
    ensures
        forall|phase: RunPhaseView|
            (RunView { options: options@, phase: r@ }) == #[trigger] (RunView {
                options: options@,
                phase,
            }).judged(paths@, run_id@, shown(retained), plan@),
{
    match &retained {
        Some(ledger) => {
            if let Err(error) = ledger.validate(
                options.root_task_id.as_str(),
                paths.queue.as_str(),
                paths.repo.as_str(),
                paths.worktree_root.as_str(),
            ) {
                return RunPhase::Ended(Err(Error::Runtime(error)));
            }
            if let Err(error) = reject_orphaned_in_progress(plan, ledger) {
                return RunPhase::Ended(Err(error));
            }
            if completion_ready(plan, ledger) {
                return RunPhase::Ended(Ok(output(ledger, FinishStatus::Complete)));
            }
        },
        None => {
            if let Err(error) = reject_fresh_in_progress(plan) {
                return RunPhase::Ended(Err(error));
            }
            if root_closed(plan) {
                let runtimes: Vec<RuntimeSummary> = Vec::new();
                assert(runtimes@.map_values(|s: RuntimeSummary| s@) =~= Seq::<
                    SummaryView,
                >::empty());
                return RunPhase::Ended(
                    Ok(
                        FinishOutput {
                            status: FinishStatus::Complete,
                            run_id: None,
                            root_task_id: options.root_task_id.clone(),
                            runtimes,
                        },
                    ),
                );
            }
        },
    }
    let snapshot = plan.snapshot().clone();
    RunPhase::Preflighting { paths, run_id, retained, plan: snapshot }
}

impl Run {
    /// A run with its options.
    pub fn begin(options: FinishOptions) -> (r: Run)
        ensures
            r@ == RunView::begin(options@),
    {
        match options.validate() {
            Err(error) => Run { options, phase: RunPhase::Ended(Err(error)) },
            Ok(()) => Run { options, phase: RunPhase::ResolvingRepo },
        }
    }

    /// A pass over a ledger.
    fn pass_over(options: FinishOptions, ledger: RunLedger) -> (r: Run)
        ensures
            r@ == (RunView {
                options: options@,
                phase: RunPhaseView::Passing { pass: new_pass(ledger@, options@) },
            }),
    {
        let pass = Pass::new(ledger, options.lease_seconds, options.model.clone());
        Run { options, phase: RunPhase::Passing { pass } }
    }

    /// The phase after a pass as it is now.
    fn after(options: &FinishOptions, pass: Pass) -> (r: RunPhase)
        ensures
            forall|phase: RunPhaseView|
                (RunView { options: options@, phase: r@ }) == #[trigger] (RunView {
                    options: options@,
                    phase,
                }).passed(pass@),
    {
        if !pass.has_ended() {
            return RunPhase::Passing { pass };
        }
        let (ledger, end) = pass.into_end();
        match end {
            Err(error) => RunPhase::Ended(Err(error)),
            Ok(status) => if status == FinishStatus::Complete || options.once {
                RunPhase::Ended(Ok(output(&ledger, status)))
            } else {
                RunPhase::Sleeping { ledger }
            },
        }
    }

    /// Goes on with the outcome of the action that the run waits for.
    pub fn step(self, event: RunEvent) -> (r: Run)
        ensures
            r@ == self@.step(event@),
    {
        let Run { options, phase } = self;
        match (phase, event) {
            (RunPhase::ResolvingRepo, RunEvent::Located(result)) => match result {
                Err(source) => {
                    let path = options.repo.clone();
                    Run {
                        options,
                        phase: RunPhase::Ended(
                            Err(Error::Canonicalize { kind: "repository", path, source }),
                        ),
                    }
                },
                Ok(repo) => Run { options, phase: RunPhase::FindingQueue { repo } },
            },
            (
                RunPhase::FindingQueue { repo },
                RunEvent::Queues { configured, candidates },
            ) => {
                let explicit = match &options.queue {
                    Some(queue) => Some(queue.as_str()),
                    None => None,
                };
                let named = match &configured {
                    Some(queue) => Some(queue.as_str()),
                    None => None,
                };
                let queue = resolve_queue_path(explicit, named, repo.path.as_str(), &candidates);
                Run { options, phase: RunPhase::ResolvingQueue { repo, queue } }
            },
            (RunPhase::ResolvingQueue { repo, queue }, RunEvent::Located(result)) => match result {
                Err(source) => Run {
                    options,
                    phase: RunPhase::Ended(
                        Err(Error::Canonicalize { kind: "SQ queue", path: queue, source }),
                    ),
                },
                Ok(place) => {
                    let root = choose_worktree_root(&options.worktree_root, &repo);
                    Run {
                        options,
                        phase: RunPhase::MakingRoot { repo, queue: place.path, root },
                    }
                },
            },
            (RunPhase::MakingRoot { repo, queue, root }, RunEvent::Made(result)) => match result {
                Err(source) => Run {
                    options,
                    phase: RunPhase::Ended(
                        Err(Error::CreateDirectory { kind: "worktree root", path: root, source }),
                    ),
                },
                Ok(()) => Run { options, phase: RunPhase::ResolvingRoot { repo, queue, root } },
            },
            (RunPhase::ResolvingRoot { repo, queue, root }, RunEvent::Located(result)) => match result {
                Err(source) => Run {
                    options,
                    phase: RunPhase::Ended(
                        Err(Error::Canonicalize { kind: "worktree root", path: root, source }),
                    ),
                },
                Ok(place) => {
                    let state_dir = choose_state_dir(&options.state_dir, &repo);
                    Run {
                        options,
                        phase: RunPhase::Settling { repo, queue, root: place.path, state_dir },
                    }
                },
            },
            (
                RunPhase::Settling { repo, queue, root, state_dir },
                RunEvent::Directory { is_absolute, current },
            ) => match absolute(state_dir, is_absolute, current) {
                Err(error) => Run { options, phase: RunPhase::Ended(Err(error)) },
                Ok(state_dir) => Run {
                    options,
                    phase: RunPhase::ReadingGraph {
                        paths: ResolvedPaths {
                            queue,
                            repo: repo.path,
                            state_dir,
                            worktree_root: root,
                        },
                    },
                },
            },
            (RunPhase::ReadingGraph { paths }, RunEvent::Plan(result)) => match result {
                Err(error) => Run { options, phase: RunPhase::Ended(Err(plan_refused(error))) },
                Ok(_) => Run { options, phase: RunPhase::Loading { paths } },
            },
            (RunPhase::Loading { paths }, RunEvent::Loaded(result)) => match result {
                Err(error) => Run { options, phase: RunPhase::Ended(Err(Error::Runtime(error))) },
                Ok(None) => Run { options, phase: RunPhase::Naming { paths } },
                Ok(Some(ledger)) => {
                    let run_id = ledger.run_id.clone();
                    Run {
                        options,
                        phase: RunPhase::Validating { paths, run_id, retained: Some(ledger) },
                    }
                },
            },
            (RunPhase::Naming { paths }, RunEvent::Named(result)) => match result {
                Err(error) => Run { options, phase: RunPhase::Ended(Err(Error::Runtime(error))) },
                Ok(run_id) => Run {
                    options,
                    phase: RunPhase::Validating { paths, run_id, retained: None },
                },
            },
            (
                RunPhase::Validating { paths, run_id, retained },
                RunEvent::Plan(result),
            ) => match result {
                Err(error) => Run { options, phase: RunPhase::Ended(Err(plan_refused(error))) },
                Ok(plan) => {
                    let phase = judge(&options, paths, run_id, retained, &plan);
                    Run { options, phase }
                },
            },
            (
                RunPhase::Preflighting { paths, run_id, retained, plan },
                RunEvent::Ready(result),
            ) => match result {
                Err(error) => Run { options, phase: RunPhase::Ended(Err(Error::Herdr(error))) },
                Ok(()) => Run {
                    options,
                    phase: RunPhase::Introducing { paths, run_id, retained, plan },
                },
            },
            (
                RunPhase::Introducing { paths, run_id, retained, plan },
                RunEvent::Introduced(result),
            ) => match result {
                Err(error) => Run { options, phase: RunPhase::Ended(Err(Error::Identity(error))) },
                Ok(orchestrator) => match retained {
                    None => Run {
                        options,
                        phase: RunPhase::Stamping { paths, run_id, plan, orchestrator },
                    },
                    Some(ledger) => if ledger.orchestrator.is_same_agent(&orchestrator) {
                        Run::pass_over(options, ledger)
                    } else {
                        Run {
                            options,
                            phase: RunPhase::Ended(
                                Err(
                                    Error::OrchestratorMismatch {
                                        expected: ledger.orchestrator.slug,
                                        actual: orchestrator.slug,
                                    },
                                ),
                            ),
                        }
                    },
                },
            },
            (
                RunPhase::Stamping { paths, run_id, plan, orchestrator },
                RunEvent::Clock(result),
            ) => match result {
                Err(error) => Run { options, phase: RunPhase::Ended(Err(Error::Runtime(error))) },
                Ok(now) => {
                    let ledger = RunLedger::new(
                        run_id,
                        options.root_task_id.clone(),
                        paths.queue,
                        paths.repo,
                        paths.worktree_root,
                        plan,
                        orchestrator,
                        now,
                    );
                    Run { options, phase: RunPhase::Saving { ledger } }
                },
            },
            (RunPhase::Saving { ledger }, RunEvent::Saved(result)) => match result {
                Err(error) => Run { options, phase: RunPhase::Ended(Err(Error::Runtime(error))) },
                Ok(()) => Run::pass_over(options, ledger),
            },
            (RunPhase::Passing { pass }, RunEvent::Pass(event)) => {
                let phase = Run::after(&options, pass.step(event));
                Run { options, phase }
            },
            (RunPhase::Sleeping { ledger }, RunEvent::Woken) => Run::pass_over(options, ledger),
            (phase, _) => Run { options, phase },
        }
    }

    /// What is to be done next.
    pub fn action<'a>(&'a self) -> (r: RunAction<'a>)
        ensures
            r@ == self@.action(),
    {
        let root_task_id = self.options.root_task_id.as_str();
        match &self.phase {
            RunPhase::ResolvingRepo => RunAction::Locate { path: self.options.repo.as_str() },
            RunPhase::FindingQueue { repo } => RunAction::FindQueues {
                search_root: repo.path.as_str(),
            },
            RunPhase::ResolvingQueue { queue, .. } => RunAction::Locate { path: queue.as_str() },
            RunPhase::MakingRoot { root, .. } => RunAction::MakeDirectory { path: root.as_str() },
            RunPhase::ResolvingRoot { root, .. } => RunAction::Locate { path: root.as_str() },
            RunPhase::Settling { state_dir, .. } => RunAction::FindDirectory {
                path: state_dir.as_str(),
            },
            RunPhase::ReadingGraph { paths } => RunAction::ReadGraph {
                queue: paths.queue.as_str(),
                root_task_id,
            },
            RunPhase::Loading { paths } => RunAction::Load {
                state_dir: paths.state_dir.as_str(),
                root_task_id,
            },
            RunPhase::Naming { .. } => RunAction::NameRun { root_task_id },
            RunPhase::Validating { paths, run_id, retained } => RunAction::ReadPlan {
                queue: paths.queue.as_str(),
                root_task_id,
                run_id: run_id.as_str(),
                expected: match retained {
                    Some(ledger) => Some(&ledger.plan),
                    None => None,
                },
            },
            RunPhase::Preflighting { .. } => RunAction::Preflight,
            RunPhase::Introducing { .. } => RunAction::Introduce,
            RunPhase::Stamping { .. } => RunAction::ReadClock,
            RunPhase::Saving { ledger } => RunAction::SaveLedger { ledger },
            RunPhase::Passing { pass } => RunAction::Pass { action: pass.action() },
            RunPhase::Sleeping { .. } => RunAction::Sleep { seconds: self.options.poll_seconds },
            RunPhase::Ended(_) => RunAction::Rest,
        }
    }

    /// Whether the run has ended.
    pub fn has_ended(&self) -> (r: bool)
        ensures
            r == (self@.phase is Ended),
    {
        matches!(self.phase, RunPhase::Ended(_))
    }

    /// The end of a run that has ended.
    pub fn into_end(self) -> (r: Option<Result<FinishOutput, Error>>)
        ensures
            r is Some <==> self@.phase is Ended,
            r matches Some(end) ==> self@.phase == RunPhaseView::Ended(seen(end)),
    {
        match self.phase {
            RunPhase::Ended(end) => Some(end),
            _ => None,
        }
    }
}

// ---------------------------------------------------------------------------------------------
// Laws

/// A run that has ended does nothing more.
pub proof fn an_ended_run_stays_ended(run: RunView, event: RunEventView)
    requires
        run.phase is Ended,
    ensures
        run.step(event) == run,
        run.action() == RunActionView::Rest,
{
}

/// Options that are refused end the run before it does anything.
pub proof fn refused_options_touch_nothing(options: OptionsView)
    requires
        options.poll_seconds == 0 || options.lease_seconds == 0,
    ensures
        RunView::begin(options).phase matches RunPhaseView::Ended(Err(_)),
        RunView::begin(options).action() == RunActionView::Rest,
{
}

/// Herdr is not asked for anything before the plan is known to fit what is retained and to be
/// unfinished: until then a run does nothing but resolve its paths, read the queue and its ledger,
/// and name itself.
pub proof fn the_queue_comes_before_herdr(run: RunView, event: RunEventView)
    requires
        !(run.phase is Preflighting),
        run.step(event).phase is Preflighting,
    ensures
        run.phase matches RunPhaseView::Validating { paths, run_id, retained }
            && event matches RunEventView::Plan(Ok(plan)) && match retained {
            Some(ledger) => ledger.fault(
                run.options.root_task_id,
                paths.queue,
                paths.repo,
                paths.worktree_root,
            ) is None && orphan_error(plan, ledger) is None && !completed(plan, ledger),
            None => fresh_error(plan) is None
                && plan.queue.tasks[plan.root_task_id].stored_status != TaskStatus::Closed,
        },
{
}

/// No pass is made, and so no task is claimed, before Herdr is ready and the orchestrator is known.
pub proof fn passes_follow_the_preflight(run: RunView, event: RunEventView)
    ensures
        run.step(event).phase is Passing && !(run.phase is Passing) ==> run.phase is Introducing
            || run.phase is Saving || run.phase is Sleeping,
        run.step(event).phase is Saving && !(run.phase is Saving) ==> run.phase is Stamping,
        run.step(event).phase is Stamping && !(run.phase is Stamping) ==> run.phase is Introducing
            && event matches RunEventView::Introduced(Ok(_)),
        run.step(event).phase is Introducing && !(run.phase is Introducing)
            ==> run.phase is Preflighting && event matches RunEventView::Ready(Ok(_)),
        run.step(event).phase is Sleeping && !(run.phase is Sleeping) ==> run.phase is Passing,
{
}

/// A closed root without a run is finished at once, without a run.
pub proof fn a_closed_root_needs_no_run(
    run: RunView,
    paths: PathsView,
    run_id: Seq<char>,
    plan: PlanView,
)
    requires
        run.phase == (RunPhaseView::Validating { paths, run_id, retained: None }),
        fresh_error(plan) is None,
        plan.queue.tasks[plan.root_task_id].stored_status == TaskStatus::Closed,
    ensures
        run.step(RunEventView::Plan(Ok(plan))).phase == RunPhaseView::Ended(
            Ok(closed_output(run.options.root_task_id)),
        ),
{
}

/// A run holds no pass that has ended.
pub open spec fn in_motion(run: RunView) -> bool {
    run.phase matches RunPhaseView::Passing { pass } ==> !(pass.phase is Ended)
}

/// A run never holds a pass that has ended.
pub proof fn runs_stay_in_motion(options: OptionsView, run: RunView, event: RunEventView)
    ensures
        in_motion(RunView::begin(options)),
        in_motion(run) ==> in_motion(run.step(event)),
{
}

/// The ledger that a run holds, where it holds one that it may finish with.
pub open spec fn ledger_held(run: RunView) -> Option<LedgerView> {
    match run.phase {
        RunPhaseView::Validating { paths, run_id, retained } => retained,
        RunPhaseView::Passing { pass } => Some(pass.ledger),
        _ => None,
    }
}

/// The plan that an event tells of.
pub open spec fn plan_read(event: RunEventView) -> Option<PlanView> {
    match event {
        RunEventView::Plan(Ok(plan)) => Some(plan),
        RunEventView::Pass(EventView::Plan(Ok(plan))) => Some(plan),
        _ => None,
    }
}

/// A run ends as complete only when a plan was just read whose root is closed, and only with every
/// task that it claimed completed.
pub proof fn completion_is_earned(run: RunView, event: RunEventView)
    requires
        !(run.phase is Ended),
        in_motion(run),
        ledger_held(run) matches Some(ledger) ==> ledger.runtimes.dom().finite(),
        run.step(event).phase matches RunPhaseView::Ended(Ok(output)) && output.status
            == FinishStatus::Complete,
    ensures
        plan_read(event) matches Some(plan) && plan.queue.tasks[plan.root_task_id].stored_status
            == TaskStatus::Closed,
        run.step(event).phase matches RunPhaseView::Ended(Ok(output)) && forall|i: int|
            0 <= i < output.runtimes.len() ==> (#[trigger] output.runtimes[i]).stage
                == RuntimeStage::Completed,
{
    if let RunPhaseView::Passing { pass } = run.phase {
        if let RunEventView::Pass(e) = event {
            crate::pass_laws::completion_needs_a_closed_root(pass, e);
            crate::pass_laws::every_change_is_saved(pass, e);
            complete_output_is_completed(pass.ledger);
        }
    }
    if let RunPhaseView::Validating { paths, run_id, retained } = run.phase {
        if let Some(ledger) = retained {
            if ledger.complete() {
                complete_output_is_completed(ledger);
            }
        }
    }
}

proof fn complete_output_is_completed(ledger: LedgerView)
    requires
        ledger.runtimes.dom().finite(),
        ledger.complete(),
    ensures
        forall|i: int|
            0 <= i < output_for(ledger, FinishStatus::Complete).runtimes.len() ==> (
            #[trigger] output_for(ledger, FinishStatus::Complete).runtimes[i]).stage
                == RuntimeStage::Completed,
{
    let ids = listed(ledger.runtimes.dom());
    listed_holds_the_keys(ledger.runtimes.dom());
    assert forall|i: int|
        0 <= i < output_for(ledger, FinishStatus::Complete).runtimes.len() implies (
    #[trigger] output_for(ledger, FinishStatus::Complete).runtimes[i]).stage
        == RuntimeStage::Completed by {
        assert(ids.to_set().contains(ids[i]));
        assert(ledger.runtimes.contains_key(ids[i]));
    }
}

} // verus!
