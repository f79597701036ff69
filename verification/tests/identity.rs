use agent_orchestrator::command::Finished;
use agent_orchestrator::identity::{AgentId, AgentIdClient, Error, Identity, IdentityState};
use agent_orchestrator::json::{Json, Member};

fn identity(session: &str, slug: &str, cwd: &str, omp: bool) -> Identity {
    let mut extensions = Vec::new();
    if omp {
        extensions.push(Member {
            name: "omp".to_owned(),
            value: Json::Object(Vec::new()),
        });
    }
    Identity {
        session_id: session.to_owned(),
        name: format!("Worker {slug}"),
        slug: slug.to_owned(),
        cwd: cwd.to_owned(),
        state: None,
        extensions,
    }
}

fn client() -> AgentIdClient {
    AgentIdClient::with_executable("fake-agent-id".to_owned())
}

#[test]
fn rejects_identity_without_omp_registration() {
    let identity = Identity {
        session_id: "session".to_owned(),
        name: "Worker".to_owned(),
        slug: "worker".to_owned(),
        cwd: String::new(),
        state: None,
        extensions: Vec::new(),
    };

    assert!(identity.validate_omp_registration().is_err());
}

#[test]
fn identity_current_requires_complete_omp_registration() {
    let client = client();
    assert_eq!(client.current_arguments(), ["current", "--json"]);
    let mut registered = identity("session-1", "orchestrator-agent", "/orchestrator", true);
    registered.name = "Orchestrator Agent".to_owned();
    let found = client.current(registered).unwrap();
    assert_eq!(found.session_id, "session-1");
    assert_eq!(found.name, "Orchestrator Agent");
    assert_eq!(found.slug, "orchestrator-agent");
    assert_eq!(found.cwd, "/orchestrator");
    assert!(found.extensions.iter().any(|member| member.name == "omp"));

    let error = client
        .current(identity("session-1", "orchestrator-agent", "/orchestrator", false))
        .unwrap_err();
    assert!(matches!(error, Error::MissingOmpRegistration { .. }));
    assert!(error.message().contains("extensions.omp"));

    let error = client.invalid_json(" {} \n", "missing field `cwd`".to_owned());
    assert!(matches!(error, Error::InvalidJson { .. }));
    assert!(error.message().contains("invalid identity JSON"));
    assert_eq!(
        error.message(),
        "Agent ID returned invalid identity JSON: {}: missing field `cwd`"
    );
}

#[test]
fn identity_discovery_matches_one_canonical_worktree_cwd() {
    let client = client();
    assert_eq!(
        client.discover_arguments(),
        ["discover", "--recent", "24", "--json"]
    );
    let found = vec![
        identity("other-session", "other", "/other", true),
        identity("worker-session", "worker", "/worktree-link", true),
    ];
    let worker = client
        .discover_worker("/worktree", &found, &vec![false, true])
        .unwrap();
    assert_eq!(worker.slug, "worker");

    let error = client
        .discover_worker("/worktree", &Vec::new(), &Vec::new())
        .unwrap_err();
    assert!(matches!(error, Error::WorkerNotFound { .. }));
    assert!(error.message().contains("found none"));

    let found = vec![
        identity("worker-1", "worker-one", "/worktree", true),
        identity("worker-2", "worker-two", "/worktree-link", true),
    ];
    let error = client
        .discover_worker("/worktree", &found, &vec![true, true])
        .unwrap_err();
    assert!(matches!(error, Error::MultipleWorkers { .. }));
    assert!(error.message().contains("worker-one, worker-two"));
}

#[test]
fn unregistered_agents_are_passed_over_and_incomplete_ones_refused() {
    let client = client();
    let found = vec![
        identity("a", "unregistered", "/worktree", false),
        identity("b", "worker", "/worktree", true),
    ];
    assert_eq!(
        client
            .discover_worker("/worktree", &found, &vec![true, true])
            .unwrap()
            .session_id,
        "b"
    );
    let found = vec![identity(" ", "worker", "/worktree", true)];
    let error = client
        .discover_worker("/worktree", &found, &vec![true])
        .unwrap_err();
    assert_eq!(error.message(), "Agent ID returned an incomplete identity");
}

#[test]
fn failed_commands_say_why() {
    let client = client();
    assert_eq!(
        client.check(Err("No such file".to_owned())).unwrap_err().message(),
        "cannot start Agent ID executable `fake-agent-id`: No such file"
    );
    let output = |success: bool, stderr: &str| {
        Ok(Finished {
            success,
            code: Some(1),
            status: "exit status: 1".to_owned(),
            stdout: b"[]".to_vec(),
            stderr: stderr.to_owned(),
        })
    };
    assert_eq!(client.check(output(true, "noise")).unwrap(), b"[]");
    assert_eq!(
        client.check(output(false, " no daemon\n")).unwrap_err().message(),
        "Agent ID command failed: no daemon"
    );
    assert_eq!(
        client.check(output(false, " \n")).unwrap_err().message(),
        "Agent ID command failed: exit status exit status: 1"
    );
}

#[test]
fn the_environment_names_the_executable() {
    assert_eq!(AgentId::from_environment(None).executable(), "agent-id");
    assert_eq!(
        AgentId::from_environment(Some("/bin/id".to_owned())).executable(),
        "/bin/id"
    );
    assert_eq!(AgentId::from_environment(Some(String::new())).executable(), "");
}

#[test]
fn copies_say_the_same() {
    let mut one = identity("s", "w", "/c", true);
    one.state = Some(IdentityState {
        value: "working".to_owned(),
    });
    let copy = one.clone();
    assert_eq!(copy.state.as_ref().unwrap().value, "working");
    assert_eq!(copy.extensions.len(), 1);
    assert!(copy.is_same_agent(&one));
    assert!(!copy.is_same_agent(&identity("s", "x", "/c", true)));
    assert!(!copy.is_same_agent(&identity("t", "w", "/c", true)));
}
