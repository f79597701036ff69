use agent_orchestrator::command::Finished;
use agent_orchestrator::identity::Identity;
use agent_orchestrator::json::{Json, Member};
use agent_orchestrator::mail::{
    handoff_body, handoff_subject, message_body, message_header, reconcile_report, report_subject,
    validate_receipt, AgentMailClient, Error, Handoff, MailHeader, MailReceipt, ReportDisposition,
    ReportStatus, WorkerReport,
};
use agent_orchestrator::sq::TaskStatus;

fn identity(name: &str, slug: &str, cwd: &str) -> Identity {
    Identity {
        session_id: format!("{slug}-session"),
        name: name.to_owned(),
        slug: slug.to_owned(),
        cwd: cwd.to_owned(),
        state: None,
        extensions: vec![Member {
            name: "omp".to_owned(),
            value: Json::Object(Vec::new()),
        }],
    }
}

fn client() -> AgentMailClient {
    AgentMailClient::with_executable("fake-agent-mail".to_owned())
}

fn header(id: &str, sender: &str, subject: &str) -> MailHeader {
    MailHeader {
        id: id.to_owned(),
        sender: sender.to_owned(),
        subject: subject.to_owned(),
    }
}

fn report(
    status: ReportStatus,
    commit: Option<&str>,
    evidence: &[&str],
    summary: Option<&str>,
) -> WorkerReport {
    WorkerReport {
        task_id: "task-1".to_owned(),
        run_id: "run-1".to_owned(),
        status,
        commit: commit.map(str::to_owned),
        artifact: None,
        evidence: evidence.iter().map(|value| (*value).to_owned()).collect(),
        summary: summary.map(str::to_owned),
    }
}

#[test]
fn mail_handoff_contains_every_execution_and_ownership_boundary() {
    let orchestrator = identity("Orchestrator Agent", "orchestrator", "/repo");
    let worker = identity("Worker Agent", "worker", "/repo.task");
    let dependencies = vec!["dep-a".to_owned(), "dep-b".to_owned()];
    let acceptance = vec!["observable behavior".to_owned()];
    let checks = vec!["cargo test --locked focused".to_owned()];
    let handoff = Handoff {
        run_id: "run-1",
        task_id: "task-1",
        title: "Implement task one",
        description: "Build the first task without changing unrelated work.",
        queue: "/repo/issues.jsonl",
        worktree: "/repo.task",
        branch: "agent-orchestrator/root/task-1",
        dependencies: &dependencies,
        acceptance_criteria: &acceptance,
        validation_checks: &checks,
        orchestrator: &orchestrator,
        worker: &worker,
    };
    let body = handoff_body(&handoff);

    for expected in [
        "Orchestrator: Orchestrator Agent (orchestrator)",
        "Worker: Worker Agent (worker)",
        "Run ID: run-1",
        "Task ID: task-1",
        "Task: Implement task one",
        "Description: Build the first task without changing unrelated work.",
        "Canonical SQ queue: /repo/issues.jsonl",
        "Worktree: /repo.task",
        "Branch: agent-orchestrator/root/task-1",
        "Dependencies: dep-a, dep-b",
        "observable behavior",
        "cargo test --locked focused",
        "Update only task task-1",
        "first produce and validate the reported commit or durable artifact",
        "agent-orchestrator report task-1 run-1",
        "a JSON-only body",
    ] {
        assert!(body.contains(expected), "missing `{expected}`");
    }
}

#[test]
fn mail_send_handoff_uses_expected_envelope_and_validates_receipt() {
    let orchestrator = identity("Orchestrator Agent", "orchestrator", "/repo");
    let worker = identity("Worker Agent", "worker", "/repo.task");
    let dependencies = Vec::new();
    let acceptance = vec!["works".to_owned()];
    let checks = vec!["cargo test".to_owned()];
    let handoff = Handoff {
        run_id: "run-1",
        task_id: "task-1",
        title: "Implement task one",
        description: "Build the first task.",
        queue: "/repo/issues.jsonl",
        worktree: "/repo.task",
        branch: "agent-orchestrator/root/task-1",
        dependencies: &dependencies,
        acceptance_criteria: &acceptance,
        validation_checks: &checks,
        orchestrator: &orchestrator,
        worker: &worker,
    };
    let args = client().send_handoff(&handoff);
    assert_eq!(args[0], "send");
    assert!(args.windows(2).any(|pair| pair == ["--to", "worker"]));
    assert!(args
        .windows(2)
        .any(|pair| pair == ["--from", "orchestrator"]));
    assert!(args.windows(2).any(|pair| {
        pair[0] == "--subject" && pair[1] == "agent-orchestrator handoff task-1 run-1"
    }));
    assert!(args
        .windows(2)
        .any(|pair| pair[0] == "--body" && pair[1].contains("Update only task task-1")));
    assert_eq!(args[11], "--json");
    assert!(args[10].contains("Dependencies: none\n"));
    assert!(args[10].contains("Acceptance criteria:\n1. works\n"));
    assert!(args[10].contains("Validation expectations:\n1. cargo test\n"));

    let receipt = |change: &dyn Fn(&mut MailReceipt)| {
        let mut receipt = MailReceipt {
            id: "MSG-HANDOFF".to_owned(),
            recipient: "worker".to_owned(),
            sender: "orchestrator".to_owned(),
            subject: "agent-orchestrator handoff task-1 run-1".to_owned(),
            timestamp: String::new(),
            mailbox: String::new(),
            state: "delivered".to_owned(),
        };
        change(&mut receipt);
        validate_receipt(&receipt, &handoff)
    };
    assert!(receipt(&|_| {}).is_ok());
    assert!(receipt(&|r| r.sender = "Orchestrator Agent".to_owned()).is_ok());
    let prefix = "AgentMail returned an invalid handoff receipt: ";
    let refused = |change: &dyn Fn(&mut MailReceipt)| receipt(change).unwrap_err().message();
    assert_eq!(
        refused(&|r| r.id = " ".to_owned()),
        format!("{prefix}missing non-empty `id`")
    );
    assert_eq!(
        refused(&|r| r.recipient = "other".to_owned()),
        format!("{prefix}recipient `other`, expected `worker`")
    );
    assert_eq!(
        refused(&|r| r.sender = "worker".to_owned()),
        format!("{prefix}sender `worker`, expected `orchestrator`")
    );
    assert_eq!(
        refused(&|r| r.subject = "hello".to_owned()),
        format!("{prefix}subject `hello`, expected `agent-orchestrator handoff task-1 run-1`")
    );
    assert_eq!(
        refused(&|r| r.state = "queued".to_owned()),
        format!("{prefix}state `queued`, expected `delivered`")
    );
}

#[test]
fn mail_report_requires_expected_unread_envelope_and_closed_sq() {
    let client = client();
    let orchestrator = identity("Orchestrator Agent", "orchestrator", "/repo");
    let worker = identity("Worker Agent", "worker", "/repo.task");
    assert_eq!(
        client.scan_report(&orchestrator),
        ["scan", "--to", "orchestrator", "--json"]
    );
    let headers = vec![
        header("OTHER", "someone-else", "agent-orchestrator report task-1 run-1"),
        header("MSG-REPORT", "Worker Agent", "agent-orchestrator report task-1 run-1"),
    ];
    let message_id = client
        .select_report(&headers, &worker, "task-1", "run-1")
        .unwrap()
        .expect("the expected unread report should match");
    assert_eq!(message_id, "MSG-REPORT");
    assert_eq!(client.peek(&message_id), ["read", "MSG-REPORT", "--peek"]);
    let body = client
        .report_body(
            "From: worker\nMessage-ID: MSG-REPORT\nSubject: agent-orchestrator report task-1 run-1\n\n{\"task_id\":\"task-1\"}\n",
            &message_id,
            &worker,
            "task-1",
            "run-1",
        )
        .unwrap();
    assert_eq!(body, "{\"task_id\":\"task-1\"}");

    let report = report(
        ReportStatus::Completed,
        Some("abc123"),
        &["cargo test: passed"],
        None,
    );
    assert_eq!(
        reconcile_report(&TaskStatus::Closed, &report).unwrap(),
        ReportDisposition::Completed
    );
    let error = reconcile_report(&TaskStatus::InProgress, &report).unwrap_err();
    assert!(matches!(error, Error::SqStatusMismatch { .. }));
    assert_eq!(
        error.message(),
        "worker reported task `task-1` Completed but SQ status is `in_progress`"
    );
}

#[test]
fn mail_report_validation_rejects_incomplete_terminal_reports() {
    let report = |status, commit: Option<String>, evidence: Vec<String>, summary| WorkerReport {
        task_id: "task-1".to_owned(),
        run_id: "run-1".to_owned(),
        status,
        commit,
        artifact: None,
        evidence,
        summary,
    };

    assert!(matches!(
        report(ReportStatus::Completed, None, Vec::new(), None).validate("task-1", "run-1"),
        Err(Error::CompletedWithoutDeliverable)
    ));
    assert!(matches!(
        report(
            ReportStatus::Completed,
            Some("abc123".to_owned()),
            vec![" ".to_owned()],
            None
        )
        .validate("task-1", "run-1"),
        Err(Error::CompletedWithoutEvidence)
    ));
    for status in [ReportStatus::Blocked, ReportStatus::Failed] {
        assert!(matches!(
            report(status, None, Vec::new(), Some(" ".to_owned())).validate("task-1", "run-1"),
            Err(Error::TerminalReportWithoutSummary { .. })
        ));
    }
    assert!(matches!(
        report(
            ReportStatus::Completed,
            Some("abc123".to_owned()),
            vec!["cargo test: passed".to_owned()],
            None
        )
        .validate("other-task", "run-1"),
        Err(Error::ReportCorrelation { .. })
    ));
}

#[test]
fn complete_reports_are_accepted() {
    assert!(report(ReportStatus::Completed, Some("abc"), &["", "ran it"], None)
        .validate("task-1", "run-1")
        .is_ok());
    let mut artifact = report(ReportStatus::Completed, Some(" "), &["ran it"], None);
    artifact.artifact = Some("out.bin".to_owned());
    assert!(artifact.validate("task-1", "run-1").is_ok());
    assert!(report(ReportStatus::Failed, None, &[], Some("no disk"))
        .validate("task-1", "run-1")
        .is_ok());
    let error = report(ReportStatus::Failed, None, &[], Some("no disk"))
        .validate("task-1", "run-2")
        .unwrap_err();
    assert_eq!(
        error.message(),
        "worker report belongs to task `task-1` run `run-1`, expected task `task-1` run `run-2`"
    );
    assert_eq!(
        report(ReportStatus::Blocked, None, &[], None)
            .validate("task-1", "run-1")
            .unwrap_err()
            .message(),
        "Blocked worker report must include a non-empty summary"
    );
}

#[test]
fn reports_and_the_queue_must_agree() {
    let statuses = [
        TaskStatus::Pending,
        TaskStatus::Blocked,
        TaskStatus::InProgress,
        TaskStatus::Closed,
    ];
    for status in statuses {
        let closed = status == TaskStatus::Closed;
        let completed = report(ReportStatus::Completed, Some("a"), &["b"], None);
        let blocked = report(ReportStatus::Blocked, None, &[], Some("c"));
        let failed = report(ReportStatus::Failed, None, &[], Some("c"));
        assert_eq!(reconcile_report(&status, &completed).is_ok(), closed);
        assert_eq!(
            reconcile_report(&status, &blocked).ok(),
            if closed { None } else { Some(ReportDisposition::Blocked) }
        );
        assert_eq!(
            reconcile_report(&status, &failed).ok(),
            if closed { None } else { Some(ReportDisposition::Failed) }
        );
    }
}

#[test]
fn one_announced_report_is_read() {
    let client = client();
    let worker = identity("Worker Agent", "worker", "/repo.task");
    let subject = report_subject("task-1", "run-1");
    assert_eq!(subject, "agent-orchestrator report task-1 run-1");
    assert_eq!(
        handoff_subject("task-1", "run-1"),
        "agent-orchestrator handoff task-1 run-1"
    );
    let select = |headers: Vec<MailHeader>| client.select_report(&headers, &worker, "task-1", "run-1");
    assert_eq!(select(Vec::new()).unwrap(), None);
    assert_eq!(select(vec![header("a", "worker", "other")]).unwrap(), None);
    let error = select(vec![
        header("a", "worker", &subject),
        header("b", "Worker Agent", &subject),
    ])
    .unwrap_err();
    assert_eq!(
        error.message(),
        "multiple unread AgentMail reports match task `task-1` run `run-1`: found 2"
    );
    let error = select(vec![header(" ", "worker", &subject)]).unwrap_err();
    assert_eq!(
        error.message(),
        "AgentMail returned an invalid report envelope: matching report has an empty message ID"
    );
}

#[test]
fn envelopes_are_held_to_what_was_announced() {
    let client = client();
    let worker = identity("Worker Agent", "worker", "/repo.task");
    let subject = report_subject("task-1", "run-1");
    let body = |message: String| client.report_body(&message, "id-1", &worker, "task-1", "run-1");
    let prefix = "AgentMail returned an invalid report envelope: ";
    assert_eq!(
        body(format!("Subject: {subject}\n\nx")).unwrap_err().message(),
        format!("{prefix}message is missing `From`")
    );
    assert_eq!(
        body(format!("From: mallory\nSubject: {subject}\n\nx")).unwrap_err().message(),
        format!("{prefix}sender `mallory`, expected `worker`")
    );
    assert_eq!(
        body("From: worker\n\nx".to_owned()).unwrap_err().message(),
        format!("{prefix}message is missing `Subject`")
    );
    assert_eq!(
        body("From: worker\nSubject: other\n\nx".to_owned()).unwrap_err().message(),
        format!("{prefix}subject `other`, expected `{subject}`")
    );
    assert_eq!(
        body(format!("From: worker\nSubject: {subject}\nMessage-ID: id-2\n\nx"))
            .unwrap_err()
            .message(),
        format!("{prefix}message ID `id-2`, expected `id-1`")
    );
    assert_eq!(
        body(format!("from: Worker Agent\r\nSUBJECT: {subject}\r\n\r\n x \r\n")).unwrap(),
        "x"
    );
}

#[test]
fn headers_end_at_the_first_blank_line() {
    let message = "A: 1\n b : \nno colon\na: 2\nB:3\r\n \t\nC: 4\n";
    assert_eq!(message_header(message, "a").as_deref(), Some("1"));
    assert_eq!(message_header(message, "b").as_deref(), Some("3"));
    assert_eq!(message_header(message, "C"), None);
    assert_eq!(message_header("", "a"), None);
    assert_eq!(message_header("a: x:y", "A").as_deref(), Some("x:y"));
}

#[test]
fn bodies_follow_the_first_empty_line() {
    assert_eq!(message_body("a: b\n\n one \n\n two \n"), "one \n\n two");
    assert_eq!(message_body("a: b\r\n\r\n body"), "body");
    assert_eq!(message_body("  only text "), "only text");
    assert_eq!(message_body("a\n\nb\r\n\r\nc"), "c");
}

#[test]
fn mail_commands_say_why_they_failed() {
    let client = client();
    assert_eq!(client.executable(), "fake-agent-mail");
    assert_eq!(AgentMailClient::configured(None).executable(), "agent-mail");
    assert_eq!(client.mark_read("id-1").unwrap(), ["read", "id-1"]);
    assert_eq!(
        client.mark_read(" ").unwrap_err().message(),
        "AgentMail returned an invalid report envelope: cannot mark an empty message ID as read"
    );
    assert_eq!(
        client.output("sending the worker handoff", Err("gone".to_owned())).unwrap_err().message(),
        "cannot start AgentMail executable `fake-agent-mail` while sending the worker handoff: gone"
    );
    let output = |success: bool| {
        client.output(
            "sending the worker handoff",
            Ok(Finished {
                success,
                code: Some(1),
                status: "exit status: 1".to_owned(),
                stdout: b"out".to_vec(),
                stderr: String::new(),
            }),
        )
    };
    assert_eq!(output(true).unwrap(), b"out");
    assert_eq!(
        output(false).unwrap_err().message(),
        "AgentMail failed while sending the worker handoff (exit status: 1): process exited with exit status: 1"
    );
    assert_eq!(
        client
            .invalid_json("sending the worker handoff", " oops ", "expected value".to_owned())
            .message(),
        "AgentMail returned invalid JSON while sending the worker handoff: oops"
    );
    assert_eq!(
        Error::InvalidReportJson {
            message_id: "m".to_owned(),
            source: "x".to_owned()
        }
        .message(),
        "AgentMail report `m` body is not valid report JSON"
    );
    assert_eq!(
        Error::InvalidUtf8 {
            operation: "reading the unread worker report",
            source: "x".to_owned()
        }
        .message(),
        "AgentMail returned non-UTF-8 output while reading the unread worker report"
    );
}

#[test]
fn expectations_are_numbered() {
    let orchestrator = identity("O", "o", "/repo");
    let worker = identity("W", "w", "/repo.task");
    let none = Vec::new();
    let many: Vec<String> = (1..=10).map(|n| format!("check {n}")).collect();
    let body = handoff_body(&Handoff {
        run_id: "r",
        task_id: "t",
        title: "T",
        description: "D",
        queue: "/q",
        worktree: "/w",
        branch: "b",
        dependencies: &none,
        acceptance_criteria: &none,
        validation_checks: &many,
        orchestrator: &orchestrator,
        worker: &worker,
    });
    assert!(body.contains(
        "Acceptance criteria:\n1. None declared; report the focused command or scenario you used.\n"
    ));
    assert!(body.contains("\n9. check 9\n10. check 10\n\nUpdate only task t "));
    assert!(body.ends_with("Pane exit alone is not completion.\n"));
}
