//! What the runtimes of tasks and the ledgers of runs must satisfy.
use vstd::arithmetic::power::pow;
use vstd::prelude::*;
use vstd::utf8::encode_utf8;
use crate::hash::{hash_of, little_endian, BASIS, PRIME};
use crate::herdr::{WorkerView, WorkspaceView};
use crate::identity::IdentityView;
use crate::mail::{ReportStatus, ReportView};
use crate::runtime::{
    claimed_record, lease_end, ledger_file, lock_file, run_id_for, temp_file, ErrorView, LedgerView,
    RecordView, RuntimeStage,
};
use crate::sq_laws::first_faults_come_first;
use crate::text::{blank, decimal, hex, occurs, occurs_at};
use crate::text_laws::{
    begins, end_occurs, ends, hexadecimals_are_read_back, numeral_value,
    paths_below_keep_both_parts, says, says_something,
};
use crate::worktree::WorktreeView;

verus! {

// ---------------------------------------------------------------------------------------------
// What changes keep

/// The task, its worktree and the time of its claim are the same.
pub open spec fn same_claim(a: RecordView, b: RecordView) -> bool {
    a.task_id == b.task_id && a.worktree == b.worktree && a.claimed_at_unix == b.claimed_at_unix
}

/// The workspace is the same.
pub open spec fn same_workspace(a: RecordView, b: RecordView) -> bool {
    a.workspace_id == b.workspace_id && a.pane_id == b.pane_id
}

/// The worker and its identity are the same.
pub open spec fn same_worker(a: RecordView, b: RecordView) -> bool {
    a.worker_name == b.worker_name && a.worker_identity == b.worker_identity
}

/// The handoff and the report are the same.
pub open spec fn same_mail(a: RecordView, b: RecordView) -> bool {
    a.handoff_receipt == b.handoff_receipt && a.report_message_id == b.report_message_id && a.report
        == b.report
}

/// The lease and what became of the last observation are the same.
pub open spec fn same_lease(a: RecordView, b: RecordView) -> bool {
    a.lease_started_at_unix == b.lease_started_at_unix && a.lease_expires_at_unix
        == b.lease_expires_at_unix && a.heartbeat_at_unix == b.heartbeat_at_unix
        && a.last_observation_error == b.last_observation_error
}

/// The change is refused exactly when the runtime is at another stage than the one it starts from.
pub open spec fn refused_elsewhere(
    record: RecordView,
    from: RuntimeStage,
    changed: Result<RecordView, ErrorView>,
) -> bool {
    record.stage != from <==> changed == Err::<RecordView, ErrorView>(
        ErrorView::WrongStage { task_id: record.task_id, expected: from, actual: record.stage },
    )
}

// ---------------------------------------------------------------------------------------------
// Provisioning

/// The runtime of a task that was just claimed has its worktree and the time, and nothing else yet.
pub proof fn claims_begin_a_runtime(worktree: WorktreeView, now: u64)
    ensures
        ({
            let record = claimed_record(worktree, now);
            &&& record.task_id == worktree.task_id
            &&& record.worktree == worktree
            &&& record.claimed_at_unix == now
            &&& record.stage is Claimed
            &&& record.workspace_id is None && record.pane_id is None
            &&& record.worker_name is None && record.worker_identity is None
            &&& record.handoff_receipt is None && record.report_message_id is None
            &&& record.report is None && record.last_observation_error is None
            &&& record.lease_started_at_unix is None && record.lease_expires_at_unix is None
            &&& record.heartbeat_at_unix is None
        }),
{
}

/// A claimed runtime takes its workspace and its pane, and keeps the rest.
pub proof fn workspaces_are_retained(record: RecordView, workspace: WorkspaceView)
    ensures
        refused_elsewhere(record, RuntimeStage::Claimed, record.with_workspace(workspace)),
        record.stage is Claimed ==> (record.with_workspace(workspace) matches Ok(after)
            && after.stage is WorktreeCreated && after.workspace_id == Some(workspace.workspace_id)
            && after.pane_id == Some(workspace.pane_id) && same_claim(record, after) && same_worker(
            record,
            after,
        ) && same_mail(record, after) && same_lease(record, after)),
{
}

/// A runtime with a workspace notes that the queue is linked, and keeps all else.
pub proof fn queue_links_are_noted(record: RecordView)
    ensures
        refused_elsewhere(record, RuntimeStage::WorktreeCreated, record.with_queue_link()),
        record.stage is WorktreeCreated ==> (record.with_queue_link() matches Ok(after)
            && after.stage is QueueLinked && same_claim(record, after) && same_workspace(
            record,
            after,
        ) && same_worker(record, after) && same_mail(record, after) && same_lease(record, after)),
{
}

/// A runtime takes the worker that was started in its own workspace and pane, and no other.
pub proof fn workers_are_retained(record: RecordView, worker: WorkerView)
    ensures
        refused_elsewhere(record, RuntimeStage::QueueLinked, record.with_worker(worker)),
        record.with_worker(worker) is Ok <==> record.stage is QueueLinked && record.workspace_id
            == Some(worker.workspace_id) && record.pane_id == Some(worker.pane_id),
        record.with_worker(worker) matches Ok(after) ==> after.stage is WorkerStarted
            && after.worker_name == Some(worker.name) && after.worker_identity
            == record.worker_identity && same_claim(record, after) && same_workspace(record, after)
            && same_mail(record, after) && same_lease(record, after),
        record.stage is QueueLinked ==> (record.with_worker(worker) matches Err(e)
            ==> e matches ErrorView::HandleMismatch { task_id, detail } && task_id
            == record.task_id && detail
            == "started worker does not match retained workspace and pane"@),
{
}

/// A runtime takes the identity of its worker, and keeps the rest.
pub proof fn identities_are_retained(record: RecordView, identity: IdentityView)
    ensures
        refused_elsewhere(record, RuntimeStage::WorkerStarted, record.with_identity(identity)),
        record.stage is WorkerStarted ==> (record.with_identity(identity) matches Ok(after)
            && after.stage is WorkerIdentified && after.worker_identity == Some(identity)
            && after.worker_name == record.worker_name && same_claim(record, after)
            && same_workspace(record, after) && same_mail(record, after) && same_lease(
            record,
            after,
        )),
{
}

/// A runtime takes a receipt that says something, and keeps the rest.
pub proof fn receipts_are_retained(record: RecordView, receipt: Seq<char>)
    ensures
        refused_elsewhere(record, RuntimeStage::WorkerIdentified, record.with_handoff(receipt)),
        record.with_handoff(receipt) is Ok <==> record.stage is WorkerIdentified && says_something(
            receipt,
        ),
        record.with_handoff(receipt) matches Ok(after) ==> after.stage is HandoffSent
            && after.handoff_receipt == Some(receipt) && after.report_message_id
            == record.report_message_id && after.report == record.report && same_claim(
            record,
            after,
        ) && same_workspace(record, after) && same_worker(record, after) && same_lease(
            record,
            after,
        ),
        record.stage is WorkerIdentified && !says_something(receipt) ==> record.with_handoff(receipt)
            == Err::<RecordView, ErrorView>(
            ErrorView::HandleMismatch {
                task_id: record.task_id,
                detail: "handoff receipt is empty"@,
            },
        ),
{
    assert(says_something(receipt) <==> !blank(receipt));
}

// ---------------------------------------------------------------------------------------------
// Leases

/// A lease lasts for its seconds, as far as the clock reaches.
pub proof fn leases_last_for_their_seconds(now: u64, lease_seconds: u64)
    ensures
        now + lease_seconds <= u64::MAX ==> lease_end(now, lease_seconds) == now + lease_seconds,
        now + lease_seconds > u64::MAX ==> lease_end(now, lease_seconds) == u64::MAX,
{
}

/// The lease starts when the worker was prompted, and the worker counts as seen then.
pub proof fn leases_start_with_the_prompt(record: RecordView, now: u64, lease_seconds: u64)
    ensures
        refused_elsewhere(record, RuntimeStage::HandoffSent, record.activated(now, lease_seconds)),
        record.stage is HandoffSent ==> (record.activated(now, lease_seconds) matches Ok(after)
            && after.stage is Active && after.lease_started_at_unix == Some(now)
            && after.heartbeat_at_unix == Some(now) && after.lease_expires_at_unix == Some(
            lease_end(now, lease_seconds),
        ) && after.last_observation_error == record.last_observation_error && same_claim(
            record,
            after,
        ) && same_workspace(record, after) && same_worker(record, after) && same_mail(
            record,
            after,
        )),
{
}

/// An observation counts as seen, forgets what went wrong before, and keeps when the lease started.
pub proof fn observations_are_noted(record: RecordView, now: u64, lease_seconds: u64)
    ensures
        refused_elsewhere(record, RuntimeStage::Active, record.observed(now, lease_seconds)),
        record.stage is Active ==> (record.observed(now, lease_seconds) matches Ok(after)
            && after.stage is Active && after.lease_started_at_unix == record.lease_started_at_unix
            && after.heartbeat_at_unix == Some(now) && after.lease_expires_at_unix == Some(
            lease_end(now, lease_seconds),
        ) && after.last_observation_error is None && same_claim(record, after) && same_workspace(
            record,
            after,
        ) && same_worker(record, after) && same_mail(record, after)),
{
}

/// A failed observation notes what went wrong and changes nothing else.
pub proof fn failed_observations_are_noted(record: RecordView, detail: Seq<char>)
    ensures
        refused_elsewhere(record, RuntimeStage::Active, record.unobserved(detail)),
        record.stage is Active ==> (record.unobserved(detail) matches Ok(after)
            && after.stage is Active && after.last_observation_error == Some(detail)
            && after.lease_started_at_unix == record.lease_started_at_unix
            && after.heartbeat_at_unix == record.heartbeat_at_unix && after.lease_expires_at_unix
            == record.lease_expires_at_unix && same_claim(record, after) && same_workspace(
            record,
            after,
        ) && same_worker(record, after) && same_mail(record, after)),
{
}

/// A lease has ended from its last second on, and not before.
pub proof fn leases_end_at_their_deadline(record: RecordView, now: u64)
    ensures
        record.lease_expires_at_unix matches Some(deadline) ==> record.expired(now) == Ok::<
            bool,
            ErrorView,
        >(deadline <= now),
        record.lease_expires_at_unix is None ==> record.expired(now) == Err::<bool, ErrorView>(
            ErrorView::MissingHandle { task_id: record.task_id, field: "lease_expires_at_unix"@ },
        ),
{
}

// ---------------------------------------------------------------------------------------------
// Reports

/// An active runtime takes a report with the ID of its message, and keeps the rest.
pub proof fn reports_are_retained(record: RecordView, message_id: Seq<char>, report: ReportView)
    ensures
        refused_elsewhere(record, RuntimeStage::Active, record.with_report(message_id, report)),
        record.with_report(message_id, report) is Ok <==> record.stage is Active && says_something(
            message_id,
        ),
        record.with_report(message_id, report) matches Ok(after) ==> after.stage is ReportReceived
            && after.report_message_id == Some(message_id) && after.report == Some(report)
            && after.handoff_receipt == record.handoff_receipt && same_claim(record, after)
            && same_workspace(record, after) && same_worker(record, after) && same_lease(
            record,
            after,
        ),
        record.stage is Active && !says_something(message_id) ==> record.with_report(
            message_id,
            report,
        ) == Err::<RecordView, ErrorView>(
            ErrorView::HandleMismatch {
                task_id: record.task_id,
                detail: "worker report message ID is empty"@,
            },
        ),
{
    assert(says_something(message_id) <==> !blank(message_id));
}

/// Settling a report moves the runtime to what the report says, and keeps all else.
pub proof fn settling_follows_the_report(record: RecordView)
    ensures
        refused_elsewhere(record, RuntimeStage::ReportReceived, record.settled()),
        record.settled() is Ok <==> record.stage is ReportReceived && record.report is Some,
        record.settled() matches Ok(after) ==> (after.stage is Completed <==> record.report->0.status
            == ReportStatus::Completed) && (after.stage is Blocked <==> record.report->0.status
            == ReportStatus::Blocked) && (after.stage is Failed <==> record.report->0.status
            == ReportStatus::Failed) && same_claim(record, after) && same_workspace(record, after)
            && same_worker(record, after) && same_mail(record, after) && same_lease(record, after),
        record.stage is ReportReceived && record.report is None ==> record.settled() == Err::<
            RecordView,
            ErrorView,
        >(
            ErrorView::HandleMismatch {
                task_id: record.task_id,
                detail: "report status is missing"@,
            },
        ),
{
}

// ---------------------------------------------------------------------------------------------
// Taking up again

/// The retained workspace, worker, identity and receipt are given back as they are; what is missing
/// or blank is named.
pub proof fn handles_are_given_back(record: RecordView)
    ensures
        record.workspace() is Ok <==> says(record.workspace_id) && says(record.pane_id),
        record.workspace() matches Ok(w) ==> record.workspace_id == Some(w.workspace_id)
            && record.pane_id == Some(w.pane_id),
        record.worker() is Ok <==> says(record.workspace_id) && says(record.pane_id) && says(
            record.worker_name,
        ),
        record.worker() matches Ok(w) ==> record.workspace_id == Some(w.workspace_id)
            && record.pane_id == Some(w.pane_id) && record.worker_name == Some(w.name),
        record.identity() is Ok <==> record.worker_identity is Some,
        record.identity() matches Ok(identity) ==> record.worker_identity == Some(identity),
        record.receipt() is Ok <==> says(record.handoff_receipt),
        record.receipt() matches Ok(receipt) ==> record.handoff_receipt == Some(receipt),
        !says(record.workspace_id) ==> record.workspace() == Err::<WorkspaceView, ErrorView>(
            ErrorView::MissingHandle { task_id: record.task_id, field: "workspace_id"@ },
        ),
        says(record.workspace_id) && !says(record.pane_id) ==> record.workspace() == Err::<
            WorkspaceView,
            ErrorView,
        >(ErrorView::MissingHandle { task_id: record.task_id, field: "pane_id"@ }),
        says(record.workspace_id) && says(record.pane_id) && !says(record.worker_name)
            ==> record.worker() == Err::<WorkerView, ErrorView>(
            ErrorView::MissingHandle { task_id: record.task_id, field: "worker_name"@ },
        ),
        record.worker_identity is None ==> record.identity() == Err::<IdentityView, ErrorView>(
            ErrorView::MissingHandle { task_id: record.task_id, field: "worker_identity"@ },
        ),
        !says(record.handoff_receipt) ==> record.receipt() == Err::<Seq<char>, ErrorView>(
            ErrorView::MissingHandle { task_id: record.task_id, field: "handoff_receipt"@ },
        ),
{
    written_is_said(record.workspace_id);
    written_is_said(record.pane_id);
    written_is_said(record.worker_name);
    written_is_said(record.handoff_receipt);
}

proof fn written_is_said(value: Option<Seq<char>>)
    ensures
        says(value) <==> value is Some && !blank(value->0),
{
}

/// The worker of the runtime can be found again: its workspace, pane, name, identity, receipt, lease
/// and last observation are all there.
pub open spec fn has_its_worker(record: RecordView) -> bool {
    &&& says(record.workspace_id) && says(record.pane_id) && says(record.worker_name)
    &&& record.worker_identity is Some
    &&& says(record.handoff_receipt)
    &&& record.lease_started_at_unix is Some && record.lease_expires_at_unix is Some
    &&& record.heartbeat_at_unix is Some
}

/// A runtime can be taken up again exactly when it is active with its worker, has a report beside
/// that, or was settled as its report says; a completed one needs its worker no more.
pub proof fn runtimes_are_taken_up_with_their_worker(record: RecordView)
    ensures
        record.fault() is None <==> match record.stage {
            RuntimeStage::Active => has_its_worker(record),
            RuntimeStage::ReportReceived => has_its_worker(record) && record.report_message_id
                is Some && record.report is Some,
            RuntimeStage::Completed => record.report_message_id is Some && (
            record.report matches Some(report) && report.status == ReportStatus::Completed),
            RuntimeStage::Blocked => has_its_worker(record) && record.report_message_id is Some && (
            record.report matches Some(report) && report.status == ReportStatus::Blocked),
            RuntimeStage::Failed => has_its_worker(record) && record.report_message_id is Some && (
            record.report matches Some(report) && report.status == ReportStatus::Failed),
            _ => false,
        },
        record.fault() matches Some(e) ==> match e {
            ErrorView::InterruptedProvisioning { task_id, stage } => task_id == record.task_id
                && stage == record.stage,
            ErrorView::HandleMismatch { task_id, detail } => task_id == record.task_id,
            ErrorView::MissingHandle { task_id, field } => task_id == record.task_id,
            _ => false,
        },
{
    handles_are_given_back(record);
}

/// A ledger is accepted exactly when it is of this version, of the root, the queue, the repository
/// and the worktrees that are asked for, and every runtime stands under the ID of its task and can be
/// taken up again.
pub proof fn ledgers_are_those_asked_for(
    ledger: LedgerView,
    root_task_id: Seq<char>,
    queue: Seq<char>,
    repo: Seq<char>,
    worktree_root: Seq<char>,
)
    requires
        ledger.runtimes.dom().finite(),
    ensures
        ledger.fault(root_task_id, queue, repo, worktree_root) is None <==> {
            &&& ledger.version == 1
            &&& ledger.root_task_id == root_task_id
            &&& ledger.queue == queue
            &&& ledger.repo == repo
            &&& ledger.worktree_root == worktree_root
            &&& forall|id: Seq<char>| #[trigger]
                ledger.runtimes.contains_key(id) ==> ledger.runtimes[id].task_id == id
                    && ledger.runtimes[id].worktree.task_id == id && ledger.runtimes[id].fault()
                    is None
        },
{
    let fault = |id: Seq<char>| ledger.runtime_fault(id);
    first_faults_come_first(ledger.runtimes.dom(), fault);
    if forall|id: Seq<char>| #[trigger]
        ledger.runtimes.contains_key(id) ==> ledger.runtimes[id].task_id == id
            && ledger.runtimes[id].worktree.task_id == id && ledger.runtimes[id].fault() is None {
        assert forall|id: Seq<char>| #[trigger] ledger.runtimes.dom().contains(id) implies fault(id)
            is None by {
            assert(ledger.runtimes.contains_key(id));
        }
    }
    if forall|id: Seq<char>| #[trigger]
        ledger.runtimes.dom().contains(id) ==> fault(id) is None {
        assert forall|id: Seq<char>| #[trigger] ledger.runtimes.contains_key(id) implies (
        ledger.runtimes[id].task_id == id && ledger.runtimes[id].worktree.task_id == id
            && ledger.runtimes[id].fault() is None) by {
            assert(ledger.runtimes.dom().contains(id));
            assert(fault(id) is None);
        }
    }
}

/// A ledger that is not the one asked for is refused for the first thing in which it differs, with
/// what was asked for and what was found.
pub proof fn other_ledgers_are_refused_for_what_differs(
    ledger: LedgerView,
    root_task_id: Seq<char>,
    queue: Seq<char>,
    repo: Seq<char>,
    worktree_root: Seq<char>,
)
    ensures
        ledger.version != 1 ==> ledger.fault(root_task_id, queue, repo, worktree_root) == Some(
            ErrorView::UnsupportedVersion { actual: ledger.version, expected: 1 },
        ),
        ledger.version == 1 && ledger.root_task_id != root_task_id ==> ledger.fault(
            root_task_id,
            queue,
            repo,
            worktree_root,
        ) == Some(
            ErrorView::LedgerMismatch {
                field: "root_task_id"@,
                expected: root_task_id,
                actual: ledger.root_task_id,
            },
        ),
        ledger.version == 1 && ledger.root_task_id == root_task_id && ledger.queue != queue
            ==> ledger.fault(root_task_id, queue, repo, worktree_root) == Some(
            ErrorView::LedgerMismatch {
                field: "queue"@,
                expected: queue,
                actual: ledger.queue,
            },
        ),
        ledger.version == 1 && ledger.root_task_id == root_task_id && ledger.queue == queue
            && ledger.repo != repo ==> ledger.fault(root_task_id, queue, repo, worktree_root)
            == Some(
            ErrorView::LedgerMismatch { field: "repo"@, expected: repo, actual: ledger.repo },
        ),
        ledger.version == 1 && ledger.root_task_id == root_task_id && ledger.queue == queue
            && ledger.repo == repo && ledger.worktree_root != worktree_root ==> ledger.fault(
            root_task_id,
            queue,
            repo,
            worktree_root,
        ) == Some(
            ErrorView::LedgerMismatch {
                field: "worktree_root"@,
                expected: worktree_root,
                actual: ledger.worktree_root,
            },
        ),
{
}

/// A run is complete exactly when no runtime of it is at another stage than completed.
pub proof fn runs_are_complete_without_open_runtimes(ledger: LedgerView)
    ensures
        ledger.complete() <==> !exists|id: Seq<char>| #[trigger]
            ledger.runtimes.contains_key(id) && !(ledger.runtimes[id].stage is Completed),
{
}

/// Putting the runtime of a task into a ledger changes that runtime alone.
pub proof fn other_runtimes_stay(
    ledger: LedgerView,
    task_id: Seq<char>,
    runtime: RecordView,
    other: Seq<char>,
)
    ensures
        ({
            let after = ledger.with_runtime(task_id, runtime);
            &&& after.runtimes.contains_key(task_id) && after.runtimes[task_id] == runtime
            &&& other != task_id ==> (after.runtimes.contains_key(other)
                <==> ledger.runtimes.contains_key(other))
            &&& other != task_id && ledger.runtimes.contains_key(other) ==> after.runtimes[other]
                == ledger.runtimes[other]
            &&& after.version == ledger.version && after.run_id == ledger.run_id
            &&& after.root_task_id == ledger.root_task_id && after.queue == ledger.queue
            &&& after.repo == ledger.repo && after.worktree_root == ledger.worktree_root
            &&& after.plan == ledger.plan && after.orchestrator == ledger.orchestrator
            &&& after.created_at_unix == ledger.created_at_unix
        }),
{
}

// ---------------------------------------------------------------------------------------------
// Names

/// The ledger, its lock and what is written before it stand in the directory under the name of the
/// root, and are three different files.
pub proof fn ledgers_stand_under_their_root(
    directory: Seq<char>,
    root: Seq<char>,
    process_id: u32,
)
    ensures
        begins(ledger_file(directory, root), directory),
        ends(ledger_file(directory, root), root + ".json"@),
        begins(lock_file(directory, root), directory),
        ends(lock_file(directory, root), root + ".lock"@),
        begins(temp_file(directory, root, process_id), directory),
        ends(temp_file(directory, root, process_id), ".tmp"@),
        occurs(
            temp_file(directory, root, process_id),
            "."@ + root + ".json."@ + decimal(process_id as nat),
        ),
        ledger_file(directory, root) != lock_file(directory, root),
        ledger_file(directory, root) != temp_file(directory, root, process_id),
        lock_file(directory, root) != temp_file(directory, root, process_id),
{
    reveal_strlit(".json");
    reveal_strlit(".lock");
    reveal_strlit(".tmp");
    let name = "."@ + root + ".json."@ + decimal(process_id as nat);
    paths_below_keep_both_parts(directory, root + ".json"@);
    paths_below_keep_both_parts(directory, root + ".lock"@);
    paths_below_keep_both_parts(directory, name + ".tmp"@);
    let ledger = ledger_file(directory, root);
    let lock = lock_file(directory, root);
    let temp = temp_file(directory, root, process_id);
    last_of_end(ledger, root + ".json"@);
    last_of_end(lock, root + ".lock"@);
    last_of_end(temp, name + ".tmp"@);
    assert(ledger.last() == 'n' && lock.last() == 'k' && temp.last() == 'p');
    assert((name + ".tmp"@).skip(name.len() as int) =~= ".tmp"@);
    assert(temp.skip(temp.len() - 4) =~= temp.skip(temp.len() - (name + ".tmp"@).len()).skip(
        name.len() as int,
    ));
    end_occurs(temp, name + ".tmp"@);
    part_of_part_occurs(temp, name, ".tmp"@);
}

proof fn last_of_end(s: Seq<char>, part: Seq<char>)
    requires
        ends(s, part),
        part.len() > 0,
    ensures
        s.len() > 0 && s.last() == part.last(),
{
    assert(s.skip(s.len() - part.len())[part.len() - 1] == s[s.len() - 1]);
}

/// What holds two texts in a row holds the first.
proof fn part_of_part_occurs(s: Seq<char>, a: Seq<char>, b: Seq<char>)
    requires
        occurs(s, a + b),
    ensures
        occurs(s, a),
{
    let i = choose|i: int| occurs_at(s, a + b, i);
    assert(s.subrange(i, i + a.len()) =~= s.subrange(i, i + (a + b).len()).take(a.len() as int));
    assert((a + b).take(a.len() as int) =~= a);
    assert(occurs_at(s, a, i));
}

/// The ID of a run is a word and sixteen hexadecimal digits, the hash of the root, the process and
/// the time.
pub proof fn run_ids_are_hashes(root_task_id: Seq<char>, process_id: u32, nanoseconds: u128)
    ensures
        ({
            let id = run_id_for(root_task_id, process_id, nanoseconds);
            &&& id.len() == 20
            &&& begins(id, "run-"@)
            &&& forall|i: int|
                4 <= i < 20 ==> '0' <= #[trigger] id[i] <= '9' || 'a' <= id[i] <= 'f'
            &&& numeral_value(id.skip(4), 16) == hash_of(
                encode_utf8(root_task_id) + little_endian(process_id as nat, 4)
                    + little_endian(nanoseconds as nat, 16),
            )
        }),
{
    reveal_strlit("run-");
    let hash = hash_of(
        encode_utf8(root_task_id) + little_endian(process_id as nat, 4)
            + little_endian(nanoseconds as nat, 16),
    );
    let digits = hex(hash as nat, 16);
    hexadecimals_are_read_back(hash as nat, 16);
    let id = "run-"@ + digits;
    assert(id.take(4) =~= "run-"@);
    assert(id.skip(4) =~= digits);
    assert forall|i: int| 4 <= i < 20 implies '0' <= #[trigger] id[i] <= '9' || 'a' <= id[i]
        <= 'f' by {
        assert(id[i] == digits[i - 4]);
    }
    assert(pow(16, 16) == 0x1_0000_0000_0000_0000) by {
        reveal_with_fuel(pow, 17);
    }
    vstd::arithmetic::div_mod::lemma_small_mod(hash as nat, 0x1_0000_0000_0000_0000);
}

/// The hash is that of Fowler, Noll and Vo in 64 bits: it starts from the offset basis, and each byte
/// is combined by exclusive or before the product with the prime.
pub proof fn hashes_take_one_byte_after_another(bytes: Seq<u8>, byte: u8)
    ensures
        BASIS == 14695981039346656037,
        PRIME == 1099511628211,
        hash_of(Seq::empty()) == 14695981039346656037,
        hash_of(bytes.push(byte)) == ((hash_of(bytes) ^ (byte as u64)) * 1099511628211)
            % 0x1_0000_0000_0000_0000,
{
    assert(bytes.push(byte).drop_last() =~= bytes);
}

/// The bytes of a number, the lowest first, are its digits to the base of 256.
pub proof fn low_bytes_come_first(value: nat, bytes: nat, i: int)
    requires
        0 <= i < bytes,
    ensures
        little_endian(value, bytes).len() == bytes,
        little_endian(value, bytes)[i] == (value as int / pow(256, i as nat)) % 256,
    decreases bytes,
{
    vstd::arithmetic::power::lemma_pow0(256);
    let rest = little_endian(value / 256, (bytes - 1) as nat);
    if i > 0 {
        low_bytes_come_first(value / 256, (bytes - 1) as nat, i - 1);
        vstd::arithmetic::power::lemma_pow_adds(256, 1, (i - 1) as nat);
        vstd::arithmetic::power::lemma_pow1(256);
        vstd::arithmetic::power::lemma_pow_positive(256, (i - 1) as nat);
        vstd::arithmetic::div_mod::lemma_div_denominator(
            value as int,
            256,
            pow(256, (i - 1) as nat),
        );
    } else if bytes > 1 {
        low_bytes_come_first(value / 256, (bytes - 1) as nat, 0);
    }
}

/// The stages are shown by their names.
pub proof fn stages_are_shown_by_name()
    ensures
        RuntimeStage::Claimed.title() == "Claimed"@,
        RuntimeStage::WorktreeCreated.title() == "WorktreeCreated"@,
        RuntimeStage::QueueLinked.title() == "QueueLinked"@,
        RuntimeStage::WorkerStarted.title() == "WorkerStarted"@,
        RuntimeStage::WorkerIdentified.title() == "WorkerIdentified"@,
        RuntimeStage::HandoffSent.title() == "HandoffSent"@,
        RuntimeStage::Active.title() == "Active"@,
        RuntimeStage::ReportReceived.title() == "ReportReceived"@,
        RuntimeStage::Completed.title() == "Completed"@,
        RuntimeStage::Blocked.title() == "Blocked"@,
        RuntimeStage::Failed.title() == "Failed"@,
{
}

} // verus!
