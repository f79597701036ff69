use agent_orchestrator::herdr::{Worker, WorkerWorkspace};
use agent_orchestrator::identity::Identity;
use agent_orchestrator::json::{Json, Member};
use agent_orchestrator::mail::{ReportStatus, WorkerReport};
use agent_orchestrator::runtime::{
    new_run_id, now_unix, Error, LedgerStore, RunLedger, RuntimeRecord, RuntimeStage,
};
use agent_orchestrator::sq::Queue;
use agent_orchestrator::worktree::WorktreePlan;

fn identity(cwd: &str) -> Identity {
    Identity {
        session_id: "session-1".to_owned(),
        name: "Worker Agent".to_owned(),
        slug: "worker-agent".to_owned(),
        cwd: cwd.to_owned(),
        state: None,
        extensions: vec![Member {
            name: "omp".to_owned(),
            value: Json::Object(vec![Member {
                name: "state".to_owned(),
                value: Json::Text("working".to_owned()),
            }]),
        }],
    }
}

fn claimed(task_id: &str) -> RuntimeRecord {
    RuntimeRecord::claimed(
        WorktreePlan {
            task_id: task_id.to_owned(),
            branch: format!("agent-orchestrator/root/{task_id}"),
            base: "base-commit".to_owned(),
            path: format!("/worktrees/repo.{task_id}"),
        },
        10,
    )
}

fn workspace() -> WorkerWorkspace {
    WorkerWorkspace {
        workspace_id: "workspace-1".to_owned(),
        pane_id: "workspace-1:pane-1".to_owned(),
    }
}

fn worker() -> Worker {
    Worker {
        name: "ao-root-123".to_owned(),
        workspace_id: "workspace-1".to_owned(),
        pane_id: "workspace-1:pane-1".to_owned(),
    }
}

fn active(task_id: &str) -> RuntimeRecord {
    let mut runtime = claimed(task_id);
    runtime.record_workspace(&workspace()).unwrap();
    runtime.record_queue_link().unwrap();
    runtime.record_worker(&worker()).unwrap();
    runtime.record_identity(identity("/repo")).unwrap();
    runtime.record_handoff("message-1".to_owned()).unwrap();
    runtime.activate(20, 900).unwrap();
    runtime
}

fn report(status: ReportStatus) -> WorkerReport {
    WorkerReport {
        task_id: "root".to_owned(),
        run_id: "run-1".to_owned(),
        status,
        commit: Some("abc".to_owned()),
        artifact: None,
        evidence: vec!["ran it".to_owned()],
        summary: Some("why".to_owned()),
    }
}

fn ledger() -> RunLedger {
    let line = "{\"id\":\"root\",\"title\":\"root task\",\"description\":\"Implement root\",\"status\":\"pending\",\"sources\":[],\"metadata\":{},\"blocked_by\":[]}";
    let plan = Queue::read("/issues.jsonl".to_owned(), &vec![Ok(line.to_owned())])
        .unwrap()
        .scope("root")
        .unwrap();
    RunLedger::new(
        "run-1".to_owned(),
        "root".to_owned(),
        "/issues.jsonl".to_owned(),
        "/repo".to_owned(),
        "/worktrees".to_owned(),
        plan.snapshot().clone(),
        identity("/repo"),
        10,
    )
}

#[test]
fn runtime_ledger_locks_and_persists_every_supervision_handle() {
    let runtime = active("root");
    assert_eq!(runtime.stage, RuntimeStage::Active);
    assert_eq!(runtime.heartbeat_at_unix, Some(20));
    assert_eq!(runtime.lease_expires_at_unix, Some(920));
    assert_eq!(runtime.worker().unwrap().name, "ao-root-123");
    assert_eq!(runtime.workspace().unwrap().pane_id, "workspace-1:pane-1");
    assert_eq!(runtime.identity().unwrap().slug, "worker-agent");
    assert_eq!(runtime.receipt().unwrap(), "message-1");

    let mut ledger = ledger();
    assert!(ledger.is_complete());
    ledger.set_runtime("root".to_owned(), runtime);
    assert!(!ledger.is_complete());
    ledger
        .validate("root", "/issues.jsonl", "/repo", "/worktrees")
        .unwrap();

    let store = LedgerStore::acquire("/state", "root").unwrap();
    assert_eq!(store.path(), "/state/root.json");
    assert_eq!(store.lock_path(), "/state/root.lock");
    assert_eq!(store.temp_path(42), "/state/.root.json.42.tmp");
    assert_eq!(store.directory(), "/state");
    let error = LedgerStore::acquire("/state", "../root").unwrap_err();
    assert_eq!(
        error.message(),
        "root task ID `../root` is not safe in a ledger path"
    );
}

#[test]
fn ledgers_of_another_run_are_refused() {
    let ledger = ledger();
    let refused = |root: &str, queue: &str, repo: &str, worktrees: &str| {
        ledger
            .validate(root, queue, repo, worktrees)
            .unwrap_err()
            .message()
    };
    assert_eq!(
        refused("other", "q", "r", "w"),
        "runtime ledger root_task_id `root` does not match requested `other`"
    );
    assert_eq!(
        refused("root", "q", "r", "w"),
        "runtime ledger queue `/issues.jsonl` does not match requested `q`"
    );
    assert_eq!(
        refused("root", "/issues.jsonl", "r", "w"),
        "runtime ledger repo `/repo` does not match requested `r`"
    );
    assert_eq!(
        refused("root", "/issues.jsonl", "/repo", "w"),
        "runtime ledger worktree_root `/worktrees` does not match requested `w`"
    );
    let mut newer = self::ledger();
    newer.version = 2;
    assert_eq!(
        newer
            .validate("root", "/issues.jsonl", "/repo", "/worktrees")
            .unwrap_err()
            .message(),
        "runtime ledger version `2` is unsupported; expected `1`"
    );
}

#[test]
fn the_first_unusable_runtime_is_the_one_that_is_named() {
    let mut ledger = ledger();
    ledger.set_runtime("b".to_owned(), claimed("b"));
    ledger.set_runtime("c".to_owned(), claimed("c"));
    ledger.set_runtime("a".to_owned(), active("a"));
    let validate = |ledger: &RunLedger| {
        ledger
            .validate("root", "/issues.jsonl", "/repo", "/worktrees")
            .unwrap_err()
            .message()
    };
    assert_eq!(
        validate(&ledger),
        "task `b` has interrupted provisioning at stage `Claimed`; refusing a silent retry"
    );
    ledger.set_runtime("a".to_owned(), active("b"));
    assert_eq!(
        validate(&ledger),
        "task `a` retained handles disagree: runtime map key and retained task IDs disagree"
    );
}

#[test]
fn stages_follow_each_other() {
    let mut runtime = claimed("root");
    assert_eq!(runtime.stage, RuntimeStage::Claimed);
    let error = runtime.record_queue_link().unwrap_err();
    assert_eq!(
        error.message(),
        "task `root` runtime stage is `Claimed`, expected `WorktreeCreated`"
    );
    runtime.record_workspace(&workspace()).unwrap();
    assert!(matches!(
        runtime.record_workspace(&workspace()),
        Err(Error::WrongStage { .. })
    ));
    runtime.record_queue_link().unwrap();
    let mut elsewhere = worker();
    elsewhere.pane_id = "other".to_owned();
    assert_eq!(
        runtime.record_worker(&elsewhere).unwrap_err().message(),
        "task `root` retained handles disagree: started worker does not match retained workspace and pane"
    );
    runtime.record_worker(&worker()).unwrap();
    runtime.record_identity(identity("/repo")).unwrap();
    assert_eq!(
        runtime.record_handoff(" ".to_owned()).unwrap_err().message(),
        "task `root` retained handles disagree: handoff receipt is empty"
    );
    assert_eq!(runtime.stage, RuntimeStage::WorkerIdentified);
    assert_eq!(
        runtime.receipt().unwrap_err().message(),
        "task `root` runtime is missing retained `handoff_receipt`"
    );
    assert_eq!(
        runtime.lease_expired(0).unwrap_err().message(),
        "task `root` runtime is missing retained `lease_expires_at_unix`"
    );
    runtime.record_handoff("m".to_owned()).unwrap();
    assert!(runtime.heartbeat(1, 1).is_err());
    runtime.activate(u64::MAX - 1, 5).unwrap();
    assert_eq!(runtime.lease_expires_at_unix, Some(u64::MAX));
}

#[test]
fn leases_are_renewed_by_observations_only() {
    let mut runtime = active("root");
    assert!(!runtime.lease_expired(919).unwrap());
    assert!(runtime.lease_expired(920).unwrap());
    runtime.record_observation_error("not found".to_owned()).unwrap();
    assert_eq!(runtime.last_observation_error.as_deref(), Some("not found"));
    assert_eq!(runtime.lease_expires_at_unix, Some(920));
    runtime.heartbeat(100, 50).unwrap();
    assert_eq!(runtime.lease_expires_at_unix, Some(150));
    assert_eq!(runtime.heartbeat_at_unix, Some(100));
    assert_eq!(runtime.lease_started_at_unix, Some(20));
    assert_eq!(runtime.last_observation_error, None);
    assert!(!runtime.lease_expired(149).unwrap());
    assert!(runtime.lease_expired(150).unwrap());
}

#[test]
fn reports_settle_the_runtime() {
    for (status, stage) in [
        (ReportStatus::Completed, RuntimeStage::Completed),
        (ReportStatus::Blocked, RuntimeStage::Blocked),
        (ReportStatus::Failed, RuntimeStage::Failed),
    ] {
        let mut runtime = active("root");
        assert!(runtime.settle_report().is_err());
        assert_eq!(
            runtime
                .record_report(" ".to_owned(), report(status))
                .unwrap_err()
                .message(),
            "task `root` retained handles disagree: worker report message ID is empty"
        );
        runtime.record_report("m".to_owned(), report(status)).unwrap();
        assert_eq!(runtime.stage, RuntimeStage::ReportReceived);
        assert!(runtime.validate_reconcilable().is_ok());
        runtime.settle_report().unwrap();
        assert_eq!(runtime.stage, stage);
        assert!(runtime.validate_reconcilable().is_ok());
        assert_eq!(runtime.report.as_ref().unwrap().evidence, ["ran it"]);
        let copy = runtime.clone();
        assert_eq!(copy.stage, stage);
        assert_eq!(copy.report.unwrap().summary.as_deref(), Some("why"));
    }
}

#[test]
fn unusable_runtimes_say_what_is_missing() {
    let refused = |change: &dyn Fn(&mut RuntimeRecord)| {
        let mut runtime = active("root");
        change(&mut runtime);
        runtime.validate_reconcilable().unwrap_err().message()
    };
    let missing = |field: &str| format!("task `root` runtime is missing retained `{field}`");
    assert_eq!(refused(&|r| r.workspace_id = None), missing("workspace_id"));
    assert_eq!(refused(&|r| r.pane_id = Some(" ".to_owned())), missing("pane_id"));
    assert_eq!(refused(&|r| r.worker_name = None), missing("worker_name"));
    assert_eq!(refused(&|r| r.worker_identity = None), missing("worker_identity"));
    assert_eq!(refused(&|r| r.handoff_receipt = None), missing("handoff_receipt"));
    assert_eq!(refused(&|r| r.heartbeat_at_unix = None), missing("lease or heartbeat"));
    assert_eq!(
        refused(&|r| r.stage = RuntimeStage::ReportReceived),
        missing("worker report")
    );
    assert_eq!(
        refused(&|r| r.stage = RuntimeStage::Failed),
        "task `root` retained handles disagree: Failed runtime does not retain its matching worker report"
    );
    assert_eq!(
        refused(&|r| r.stage = RuntimeStage::HandoffSent),
        "task `root` has interrupted provisioning at stage `HandoffSent`; refusing a silent retry"
    );
}

#[test]
fn stages_know_what_they_are() {
    for stage in [
        RuntimeStage::Claimed,
        RuntimeStage::WorktreeCreated,
        RuntimeStage::QueueLinked,
        RuntimeStage::WorkerStarted,
        RuntimeStage::WorkerIdentified,
        RuntimeStage::HandoffSent,
    ] {
        assert!(!stage.is_reconcilable());
        assert!(!stage.is_complete());
    }
    for stage in [
        RuntimeStage::Active,
        RuntimeStage::ReportReceived,
        RuntimeStage::Completed,
        RuntimeStage::Blocked,
        RuntimeStage::Failed,
    ] {
        assert!(stage.is_reconcilable());
        assert_eq!(stage.is_complete(), stage == RuntimeStage::Completed);
    }
    assert_eq!(RuntimeStage::ReportReceived.name(), "ReportReceived");
}

#[test]
fn run_ids_and_clocks() {
    assert_eq!(
        new_run_id("root", 4242, Ok(1234567890123456789)).unwrap(),
        "run-173971accf505fba"
    );
    assert_eq!(new_run_id("", 0, Ok(0)).unwrap(), "run-ee85fafd354b0935");
    assert_eq!(now_unix(Ok(7)).unwrap(), 7);
    for error in [
        now_unix(Err("too early".to_owned())).unwrap_err(),
        new_run_id("root", 1, Err("too early".to_owned())).unwrap_err(),
    ] {
        assert_eq!(
            error.message(),
            "system clock is before Unix epoch: too early"
        );
    }
}

#[test]
fn storage_errors_name_the_file() {
    let path = || "p".to_owned();
    let source = || "s".to_owned();
    for (error, expected) in [
        (
            Error::CreateStateDirectory { path: path(), source: source() },
            "cannot create runtime state directory `p`: s",
        ),
        (
            Error::OpenLock { path: path(), source: source() },
            "cannot open runtime ledger lock `p`: s",
        ),
        (
            Error::LockBusy { path: path(), source: source() },
            "runtime ledger `p` is locked by another finish process: s",
        ),
        (
            Error::ReadLedger { path: path(), source: source() },
            "cannot read runtime ledger `p`: s",
        ),
        (
            Error::InvalidLedger { path: path(), source: source() },
            "runtime ledger `p` is invalid JSON: s",
        ),
        (
            Error::SerializeLedger { source: source() },
            "cannot serialize runtime ledger: s",
        ),
        (
            Error::WriteLedger { path: path(), source: source() },
            "cannot write runtime ledger `p`: s",
        ),
    ] {
        assert_eq!(error.message(), expected);
    }
}
