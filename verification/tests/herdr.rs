use agent_orchestrator::command::Finished;
use agent_orchestrator::herdr::{
    reconcile_worker, worker_name, AgentResponse, AgentStatus, Error, HerdrClient, ServerStatus,
    Worker, WorkerDisposition, WorkerStop, WorkerWorkspace, WorktreeSpec,
};

fn client() -> HerdrClient {
    HerdrClient::with_executable("fake-herdr".to_owned(), "orchestrator-test".to_owned())
}

fn wrote(stdout: &str) -> Result<Finished, String> {
    Ok(Finished {
        success: true,
        code: Some(0),
        status: "exit status: 0".to_owned(),
        stdout: stdout.as_bytes().to_vec(),
        stderr: String::new(),
    })
}

fn broke(stderr: &str) -> Result<Finished, String> {
    Ok(Finished {
        success: false,
        code: Some(2),
        status: "exit status: 2".to_owned(),
        stdout: Vec::new(),
        stderr: stderr.to_owned(),
    })
}

fn workspace() -> WorkerWorkspace {
    WorkerWorkspace {
        workspace_id: "w7".to_owned(),
        pane_id: "w7:p9".to_owned(),
    }
}

fn agent(name: Option<&str>, status: &str) -> AgentResponse {
    AgentResponse {
        name: name.map(str::to_owned),
        workspace_id: "w7".to_owned(),
        pane_id: "w7:p9".to_owned(),
        agent_status: status.to_owned(),
    }
}

fn assert_valid_herdr_name(name: &str) {
    let mut bytes = name.bytes();
    assert!(matches!(bytes.next(), Some(b'a'..=b'z')));
    assert!(bytes.all(|byte| matches!(byte, b'a'..=b'z' | b'0'..=b'9' | b'-' | b'_')));
}

#[test]
fn herdr_creates_worktree_and_retains_returned_handles() {
    let client = client();
    let arguments = client.create_worktree(WorktreeSpec {
        repo: "/fixtures/repo",
        branch: "agent-orchestrator/root/task",
        base: "base-branch",
        path: "/fixtures/repo.task",
        task_label: "task: Implement parser",
    });
    let workspace = client
        .worktree_created(wrote(
            "{\"id\":\"request-1\",\"result\":{\"type\":\"worktree_created\",\"workspace\":{\"workspace_id\":\"w7\"},\"root_pane\":{\"pane_id\":\"w7:p9\"}}}\n",
        ))
        .unwrap();

    assert_eq!(workspace.workspace_id, "w7");
    assert_eq!(workspace.pane_id, "w7:p9");
    assert_eq!(
        arguments,
        vec![
            "--session".to_owned(),
            "orchestrator-test".to_owned(),
            "worktree".to_owned(),
            "create".to_owned(),
            "--cwd".to_owned(),
            "/fixtures/repo".to_owned(),
            "--branch".to_owned(),
            "agent-orchestrator/root/task".to_owned(),
            "--base".to_owned(),
            "base-branch".to_owned(),
            "--path".to_owned(),
            "/fixtures/repo.task".to_owned(),
            "--label".to_owned(),
            "task: Implement parser".to_owned(),
            "--no-focus".to_owned(),
        ]
    );
}

#[test]
fn herdr_starts_named_omp_and_prompts_only_with_handoff_receipt() {
    let client = client();
    let workspace = workspace();
    let arguments = client.start_omp(&workspace, "run-123", "Task/With Spaces", None);
    let name = worker_name("run-123", "Task/With Spaces");
    let worker = client
        .omp_started(
            &workspace,
            "run-123",
            "Task/With Spaces",
            &agent(Some(&name), "idle"),
        )
        .unwrap();
    assert_eq!(worker.name, worker_name("run-123", "Task/With Spaces"));
    assert!(worker.name.len() <= 32);
    assert_valid_herdr_name(&worker.name);
    assert_eq!(
        &arguments[3..],
        ["start", &worker.name, "--kind", "omp", "--pane", "w7:p9"]
    );

    let error = client
        .prompt_after_handoff(&worker, "  ", "Execute the handoff")
        .unwrap_err();
    assert!(error
        .message()
        .contains("durable AgentMail handoff receipt"));

    let arguments = client
        .prompt_after_handoff(&worker, "01MESSAGE", "Execute the handoff")
        .unwrap();
    assert_eq!(
        &arguments[2..],
        ["agent", "prompt", &worker.name, "Execute the handoff"]
    );
    client
        .prompted(&worker, &agent(Some(&name), "working"))
        .unwrap();
    assert_eq!(&client.status(&worker)[2..], ["agent", "get", &worker.name]);
    assert_eq!(
        client
            .status_of(&worker, &agent(Some(&name), "unknown"))
            .unwrap(),
        AgentStatus::Unknown
    );
}

#[test]
fn herdr_worker_names_and_lifecycle_are_deterministic_and_non_terminal_by_default() {
    let name = worker_name("run-123", "123/Very Long Task With Punctuation!!!");
    assert_eq!(
        name,
        worker_name("run-123", "123/Very Long Task With Punctuation!!!")
    );
    assert_ne!(
        name,
        worker_name("run-456", "123/Very Long Task With Punctuation!!!")
    );
    assert!(name.len() <= 32);
    assert_valid_herdr_name(&name);

    assert_eq!(
        reconcile_worker(AgentStatus::Working, false),
        WorkerDisposition::Active
    );
    assert_eq!(
        reconcile_worker(AgentStatus::Unknown, false),
        WorkerDisposition::Active
    );
    assert_eq!(
        reconcile_worker(AgentStatus::Idle, false),
        WorkerDisposition::Stop(WorkerStop::SettledWithoutReport(AgentStatus::Idle))
    );
    assert_eq!(
        reconcile_worker(AgentStatus::Done, false),
        WorkerDisposition::Stop(WorkerStop::SettledWithoutReport(AgentStatus::Done))
    );
    assert_eq!(
        reconcile_worker(AgentStatus::Blocked, false),
        WorkerDisposition::Stop(WorkerStop::Blocked)
    );
    assert_eq!(
        reconcile_worker(AgentStatus::Done, true),
        WorkerDisposition::ReportPresent
    );
}

#[test]
fn worker_names_are_exactly_these() {
    assert_eq!(
        worker_name("run-123", "123/Very Long Task With Punctuation!!!"),
        "ao-123-very-lon-b56eccceac312e42"
    );
    assert_eq!(
        worker_name("run-123", "Task/With Spaces"),
        "ao-task-with-sp-160785a2ef41c0d4"
    );
    assert_eq!(worker_name("run-1", "!!!"), "ao-task-81d98be649a97471");
    assert_eq!(worker_name("r", "--a__b--"), "ao-a_b-476536b6b2a6c11a");
    assert_eq!(worker_name("r", "\u{e9}"), "ao-task-8984072072194c37");
    assert_eq!(worker_name("run-1", "root"), "ao-root-81396abe04830a84");
}

#[test]
fn a_model_is_handed_to_the_worker() {
    let arguments = client().start_omp(&workspace(), "r", "t", Some("fast"));
    assert_eq!(arguments.len(), 12);
    assert_eq!(&arguments[8..], ["w7:p9", "--", "--model", "fast"]);
}

#[test]
fn preflight_tells_what_is_missing() {
    let client = client();
    assert_eq!(
        client.preflight(),
        ["--session", "orchestrator-test", "status", "server", "--json"]
    );
    let error = client
        .check_preflight(Err("No such file".to_owned()))
        .unwrap_err();
    assert!(error.message().contains("Herdr is required for `finish`"));
    assert!(error.message().contains("cannot start Herdr executable `fake-herdr`"));
    assert!(error.message().contains("orchestrator-test"));
    assert_eq!(
        client.check_preflight(broke("")).unwrap_err().message(),
        "Herdr session `orchestrator-test` is unavailable: process exited with exit status: 2"
    );
    assert_eq!(client.check_preflight(wrote("{}")).unwrap(), b"{}");
    let status = |running, compatible| {
        client.check_server(ServerStatus {
            running,
            compatible,
        })
    };
    assert_eq!(
        status(false, None).unwrap_err().message(),
        "Herdr session `orchestrator-test` is unavailable: server is not running"
    );
    assert_eq!(
        status(true, Some(false)).unwrap_err().message(),
        "Herdr session `orchestrator-test` is unavailable: server protocol is incompatible"
    );
    assert!(status(true, Some(true)).is_ok());
    assert!(status(true, None).is_ok());
}

#[test]
fn unexpected_replies_are_named() {
    let client = client();
    let created = |stdout: &str| client.worktree_created(wrote(stdout)).unwrap_err().message();
    let prefix = "Herdr returned an unexpected response while creating Herdr worktree: ";
    assert_eq!(
        created("{}"),
        format!("{prefix}returned result type `<missing>`, expected `worktree_created`")
    );
    assert_eq!(
        created("{\"result\":{\"type\":\"worktree_created\",\"workspace\":{\"workspace_id\":\"\"}}}"),
        format!("{prefix}missing non-empty `/result/workspace/workspace_id`")
    );
    assert_eq!(
        created("{\"result\":{\"type\":\"worktree_created\",\"workspace\":{\"workspace_id\":\"w\"}}}"),
        format!("{prefix}missing non-empty `/result/root_pane/pane_id`")
    );
    assert!(created("nonsense").starts_with("Herdr returned invalid JSON while creating Herdr worktree: "));
    assert_eq!(
        client.worktree_created(broke(" no disk ")).unwrap_err().message(),
        "Herdr failed while creating Herdr worktree (exit status: 2): no disk"
    );
    assert!(matches!(
        client.worktree_created(Err("gone".to_owned())),
        Err(Error::Start { .. })
    ));
}

#[test]
fn agents_are_held_to_their_worker() {
    let client = client();
    let worker = Worker {
        name: "ao-a".to_owned(),
        workspace_id: "w7".to_owned(),
        pane_id: "w7:p9".to_owned(),
    };
    let status = |agent: AgentResponse| client.status_of(&worker, &agent);
    assert_eq!(status(agent(Some("ao-a"), "done")).unwrap(), AgentStatus::Done);
    let prefix = "Herdr returned an unexpected response while reading OMP worker: ";
    assert_eq!(
        status(agent(Some("ao-b"), "done")).unwrap_err().message(),
        format!("{prefix}returned agent name `ao-b`, expected `ao-a`")
    );
    assert_eq!(
        status(agent(None, "done")).unwrap_err().message(),
        format!("{prefix}returned agent name `<missing>`, expected `ao-a`")
    );
    assert_eq!(
        status(agent(Some("ao-a"), "mystery")).unwrap_err().message(),
        format!("{prefix}unsupported agent state mystery")
    );
    let mut moved = agent(Some("ao-a"), "idle");
    moved.pane_id = "w7:p1".to_owned();
    assert_eq!(
        status(moved).unwrap_err().message(),
        format!("{prefix}returned workspace/pane `w7/w7:p1`, expected `w7/w7:p9`")
    );
}

#[test]
fn agents_are_found_in_replies() {
    let client = client();
    let reply = "{\"result\":{\"type\":\"agent_info\",\"agent\":{\"pane_id\":\"w7:p9\"}}}";
    let agent = client
        .agent_reply("reading OMP worker", "agent_info", wrote(reply))
        .unwrap();
    assert_eq!(agent.field("pane_id").unwrap().text(), Some("w7:p9"));
    assert_eq!(
        client
            .agent_reply("reading OMP worker", "agent_started", wrote(reply))
            .unwrap_err()
            .message(),
        "Herdr returned an unexpected response while reading OMP worker: returned result type `agent_info`, expected `agent_started`"
    );
    assert_eq!(
        client
            .agent_reply(
                "reading OMP worker",
                "agent_info",
                wrote("{\"result\":{\"type\":\"agent_info\"}}")
            )
            .unwrap_err()
            .message(),
        "Herdr returned an unexpected response while reading OMP worker: missing `result.agent`"
    );
    assert_eq!(client.close_workspace("w7")[2..], ["workspace", "close", "w7"]);
    assert!(client
        .workspace_closed(wrote("{\"result\":{\"type\":\"ok\"}}"))
        .is_ok());
    assert!(client
        .workspace_closed(wrote("{\"result\":{\"type\":\"no\"}}"))
        .is_err());
}

#[test]
fn herdr_is_configured_with_defaults() {
    let client = HerdrClient::configured(Some(String::new()), None);
    assert_eq!(client.executable(), "herdr");
    assert_eq!(client.session(), "default");
    let client = HerdrClient::configured(Some("h".to_owned()), Some("s".to_owned()));
    assert_eq!(client.executable(), "h");
    assert_eq!(client.session(), "s");
}
