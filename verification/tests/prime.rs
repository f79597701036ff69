use agent_orchestrator::cli::{
    Cli, Command, FinishArgs, DEFAULT_LEASE_SECONDS, DEFAULT_POLL_SECONDS,
};
use agent_orchestrator::prime::{execute, MANUAL};

#[test]
fn prime_contains_the_agent_workflow() {
    assert!(MANUAL.contains("finish ROOT_TASK_ID"));
    assert!(MANUAL.contains("SQ status remains authoritative"));
    assert!(MANUAL.contains("AgentMail handoff"));
    assert!(MANUAL.contains("Herdr workspace and pane"));
    assert!(MANUAL.contains("runtime ledger"));
}

#[test]
fn prime_documents_the_scoped_workflow() {
    assert!(execute().contains("finish ROOT_TASK_ID"));
    assert!(execute().contains("SQ status remains authoritative"));
}

#[test]
fn the_manual_explains_each_topic() {
    for expected in [
        "Scoped SQ workflow",
        "External integrations",
        "Completion contract",
        "One-pass diagnosis",
    ] {
        assert!(execute().contains(expected), "prime should explain {expected}");
    }
}

fn args(repo: Option<&str>) -> FinishArgs {
    FinishArgs {
        root_task_id: "root".to_owned(),
        queue: None,
        model: Some("fast".to_owned()),
        repo: repo.map(str::to_owned),
        state_dir: None,
        worktree_root: None,
        once: true,
        poll_seconds: DEFAULT_POLL_SECONDS,
        lease_seconds: DEFAULT_LEASE_SECONDS,
    }
}

#[test]
fn the_repository_is_the_current_directory_unless_it_is_given() {
    let cli = Cli {
        command: Command::Finish(args(None)),
    };
    let Command::Finish(found) = cli.command else {
        panic!("finish was asked for");
    };
    let options = found.into_options(Ok("/here".to_owned())).unwrap();
    assert_eq!(options.repo, "/here");
    assert_eq!(options.root_task_id, "root");
    assert_eq!(options.model.as_deref(), Some("fast"));
    assert_eq!(options.poll_seconds, 5);
    assert_eq!(options.lease_seconds, 900);
    assert!(options.once);

    let options = args(Some("/there"))
        .into_options(Err("gone".to_owned()))
        .unwrap();
    assert_eq!(options.repo, "/there");

    let error = args(None).into_options(Err("gone".to_owned())).unwrap_err();
    assert_eq!(error.message(), "cannot determine current directory: gone");
}
