use agent_orchestrator::command::Finished;
use agent_orchestrator::json::{Json, Member};
use agent_orchestrator::sq::{
    parse_task, queue_in, resolve_queue_path, Error, PlanSnapshot, Queue, QueueCandidate, SqClient,
    TaskStatus,
};
use serde_json::Value;

fn text(value: &str) -> Value {
    Value::from(value)
}

fn object(members: &[(&str, Value)]) -> Value {
    let mut map = serde_json::Map::new();
    for (name, value) in members {
        map.insert((*name).to_owned(), value.clone());
    }
    Value::Object(map)
}

fn array(values: &[&str]) -> Value {
    Value::Array(values.iter().map(|value| text(value)).collect())
}

fn task(id: &str, status: &str, blocked_by: &[&str], metadata: Value) -> Value {
    object(&[
        ("id", text(id)),
        ("title", text(&format!("{id} task"))),
        ("description", text(&format!("Implement {id}"))),
        ("status", text(status)),
        ("sources", array(&[])),
        ("metadata", metadata),
        ("created_at", text("2026-09-03T00:00:00Z")),
        ("updated_at", text("2026-09-03T00:00:00Z")),
        ("blocked_by", array(blocked_by)),
    ])
}

fn none() -> Value {
    object(&[])
}

fn owned_by(run_id: &str) -> Value {
    object(&[("agent_orchestrator", object(&[("run_id", text(run_id))]))])
}

fn lines(tasks: &[Value]) -> Vec<Result<String, String>> {
    tasks.iter().map(|task| Ok(task.to_string())).collect()
}

fn read(tasks: &[Value]) -> Result<Queue, Error> {
    Queue::read("issues.jsonl".to_owned(), &lines(tasks))
}

fn client() -> SqClient {
    SqClient::with_executable("issues.jsonl".to_owned(), "unused-sq".to_owned())
}

fn finished(success: bool, code: Option<i32>, stderr: &str) -> Finished {
    Finished {
        success,
        code,
        status: "exit status: 3".to_owned(),
        stdout: Vec::new(),
        stderr: stderr.to_owned(),
    }
}

#[test]
fn sq_scope_contains_only_transitive_blockers_and_models_readiness() {
    let plan = read(&[
        task("leaf", "closed", &[], none()),
        task("ready", "pending", &["leaf"], none()),
        task("running", "in_progress", &[], none()),
        task("held", "blocked", &[], none()),
        task("root", "pending", &["ready", "running", "held"], none()),
        task("unrelated", "pending", &[], none()),
    ])
    .expect("queue should load")
    .scope("root")
    .expect("root scope should validate");

    assert_eq!(plan.task_ids(), ["held", "leaf", "ready", "root", "running"]);
    assert!(plan.task("unrelated").is_none());
    assert_eq!(plan.status("leaf").unwrap(), TaskStatus::Closed);
    assert_eq!(plan.status("ready").unwrap(), TaskStatus::Pending);
    assert_eq!(plan.status("running").unwrap(), TaskStatus::InProgress);
    assert_eq!(plan.status("held").unwrap(), TaskStatus::Blocked);
    assert_eq!(plan.status("root").unwrap(), TaskStatus::Blocked);
    assert_eq!(plan.ready_task_ids(), ["ready"]);
}

#[test]
fn sq_graph_errors_identify_missing_and_duplicate_tasks_and_cycles() {
    let error = read(&[task("root", "pending", &[], none())])
        .unwrap()
        .scope("absent")
        .unwrap_err();
    assert!(matches!(error, Error::MissingRoot { .. }));
    assert_eq!(error.message(), "SQ root task `absent` is missing");

    let error = read(&[task("root", "pending", &["absent"], none())])
        .unwrap()
        .scope("root")
        .unwrap_err();
    assert!(matches!(error, Error::MissingBlocker { .. }));
    assert_eq!(
        error.message(),
        "SQ task `root` declares missing blocker `absent`"
    );

    let error = read(&[
        task("same", "pending", &[], none()),
        task("same", "closed", &[], none()),
    ])
    .unwrap_err();
    assert!(matches!(error, Error::DuplicateTask { .. }));
    assert_eq!(
        error.message(),
        "SQ queue contains duplicate task ID `same`"
    );

    let error = read(&[
        task("root", "pending", &["middle"], none()),
        task("middle", "pending", &["root"], none()),
    ])
    .unwrap()
    .scope("root")
    .unwrap_err();
    assert!(matches!(error, Error::DependencyCycle { .. }));
    assert_eq!(
        error.message(),
        "SQ dependency cycle: root -> middle -> root"
    );
}

#[test]
fn sq_snapshot_ignores_runtime_ownership_but_detects_plan_drift() {
    let baseline = task(
        "root",
        "pending",
        &[],
        object(&[("role", text("implementation"))]),
    );
    let client = client();
    let plan = client
        .plan("root", &lines(&[baseline.clone()]))
        .expect("baseline plan should load");

    let mut claimed = baseline.clone();
    claimed["status"] = text("in_progress");
    claimed["updated_at"] = text("2026-09-03T01:00:00Z");
    claimed["metadata"]["agent_orchestrator"] = object(&[("run_id", text("run-a"))]);
    client
        .validated_plan("root", "run-a", Some(plan.snapshot()), &lines(&[claimed.clone()]))
        .expect("status, timestamps, and run ownership are runtime state");

    let mut drifted = claimed.clone();
    drifted["title"] = text("changed plan");
    let error = client
        .validated_plan("root", "run-a", Some(plan.snapshot()), &lines(&[drifted]))
        .unwrap_err();
    assert!(matches!(error, Error::PlanDrift { .. }));
    assert_eq!(error.message(), "SQ plan drift for root task `root`");

    claimed["metadata"]["agent_orchestrator"] = object(&[("run_id", text("run-b"))]);
    let error = client
        .validated_plan("root", "run-a", Some(plan.snapshot()), &lines(&[claimed]))
        .unwrap_err();
    assert!(matches!(error, Error::ForeignOwnership { .. }));
    assert!(error
        .message()
        .contains("foreign agent_orchestrator.run_id `run-b`"));
}

#[test]
fn sq_closed_foreign_ownership_is_historical() {
    let plan = client()
        .validated_plan(
            "root",
            "current-run",
            None,
            &lines(&[
                task("legacy", "closed", &[], owned_by("older-run")),
                task("root", "pending", &["legacy"], none()),
            ]),
        )
        .expect("closed ownership is provenance, not an active claim");

    assert_eq!(plan.status("legacy").unwrap(), TaskStatus::Closed);
    assert_eq!(plan.ready_task_ids(), ["root"]);
}

#[test]
fn sq_rejects_unowned_in_progress_tasks() {
    let error = client()
        .validated_plan(
            "root",
            "current-run",
            None,
            &lines(&[task("root", "in_progress", &[], none())]),
        )
        .unwrap_err();

    assert!(matches!(error, Error::UnownedInProgress { .. }));
    assert_eq!(
        error.message(),
        "SQ task `root` is in_progress without agent_orchestrator.run_id ownership"
    );
}

#[test]
fn sq_claim_uses_configured_executable_and_verifies_persisted_state() {
    let baseline = task(
        "root",
        "pending",
        &[],
        object(&[("role", text("implementation"))]),
    );
    let mut claimed = baseline.clone();
    claimed["status"] = text("in_progress");
    claimed["updated_at"] = text("2026-09-03T01:00:00Z");
    claimed["metadata"]["agent_orchestrator"] = object(&[("run_id", text("run-a"))]);

    let client = SqClient::with_executable("/queues/issues.jsonl".to_owned(), "fake-sq".to_owned());
    assert_eq!(client.executable(), "fake-sq");
    let before = lines(&[baseline]);
    let plan = client
        .validated_plan("root", "run-a", None, &before)
        .expect("unowned root should be claimable");
    let arguments = client
        .claim(&plan, "root", "run-a", &before)
        .expect("a ready task can be claimed");
    assert_eq!(
        arguments,
        [
            "edit",
            "root",
            "--queue",
            "/queues/issues.jsonl",
            "--set-status",
            "in_progress",
            "--merge-metadata",
            "{\"agent_orchestrator\":{\"run_id\":\"run-a\"}}",
            "--json",
        ]
    );
    client
        .check_edit(&Ok(finished(true, Some(0), "")))
        .expect("a successful edit is accepted");
    let claimed_plan = client
        .confirm_claim(&plan, "root", "run-a", &lines(&[claimed]))
        .expect("claim should be persisted and verified");
    assert_eq!(
        claimed_plan.task("root").unwrap().stored_status(),
        TaskStatus::InProgress
    );
    assert_eq!(
        claimed_plan.task("root").unwrap().owner_run_id(),
        Some("run-a")
    );
}

#[test]
fn sq_claim_rejects_success_without_both_persisted_values() {
    let baseline = task(
        "root",
        "pending",
        &[],
        object(&[("role", text("implementation"))]),
    );
    let client = client();
    let before = lines(&[baseline.clone()]);
    let plan = client.plan("root", &before).unwrap();
    client.claim(&plan, "root", "run-a", &before).unwrap();
    client
        .check_edit(&Ok(finished(true, Some(0), "")))
        .unwrap();

    let mut incomplete = baseline.clone();
    incomplete["status"] = text("in_progress");
    let error = client
        .confirm_claim(&plan, "root", "run-a", &lines(&[incomplete]))
        .unwrap_err();
    assert!(matches!(error, Error::ClaimNotPersisted { .. }));
    assert!(error.message().contains("run <missing>"));
    assert_eq!(
        error.message(),
        "SQ did not persist claim for task `root`: expected status in_progress and run `run-a`, got status in_progress and run <missing>"
    );

    let mut unchanged = baseline.clone();
    unchanged["updated_at"] = text("2026-09-03T01:00:00Z");
    let error = client
        .confirm_claim(&plan, "root", "run-a", &lines(&[unchanged]))
        .unwrap_err();
    assert!(matches!(error, Error::ClaimNotPersisted { .. }));
    assert!(error.message().contains("run <missing>"));
    assert_eq!(
        error.message(),
        "SQ did not persist claim for task `root`: expected status in_progress and run `run-a`, got status pending and run <missing>"
    );

    let mut owned_only = baseline;
    owned_only["metadata"]["agent_orchestrator"] = object(&[("run_id", text("run-a"))]);
    let error = client
        .confirm_claim(&plan, "root", "run-a", &lines(&[owned_only]))
        .unwrap_err();
    assert!(error.message().ends_with("got status pending and run run-a"));
}

#[test]
fn a_stray_task_beside_the_claimed_one_is_named_as_such() {
    let tasks = [
        task("a", "pending", &[], none()),
        task("root", "pending", &["a"], none()),
        task("z", "pending", &[], none()),
    ];
    let client = client();
    let plan = client.plan("root", &lines(&tasks)).unwrap();
    let mut stored = tasks.clone();
    stored[0] = task("a", "in_progress", &[], owned_by("run-a"));
    stored[1]["status"] = text("in_progress");
    let error = client
        .confirm_claim(&plan, "a", "run-a", &lines(&stored))
        .unwrap_err();
    assert!(matches!(error, Error::UnownedInProgress { task_id } if task_id == "root"));
}

#[test]
fn first_timestamps_are_no_drift_and_changed_metadata_is() {
    let mut bare = task("root", "pending", &[], object(&[("role", text("a"))]));
    bare.as_object_mut().unwrap().remove("updated_at");
    bare.as_object_mut().unwrap().remove("created_at");
    let client = client();
    let plan = client.plan("root", &lines(&[bare.clone()])).unwrap();
    let mut stamped = bare.clone();
    stamped["updated_at"] = text("2026-09-03T01:00:00Z");
    stamped["created_at"] = text("2026-09-03T01:00:00Z");
    stamped["metadata"]["agent_orchestrator"] = object(&[("run_id", text("run-a"))]);
    let again = client
        .validated_plan("root", "run-a", Some(plan.snapshot()), &lines(&[stamped.clone()]))
        .unwrap();
    assert!(again.snapshot().same_as(plan.snapshot()));
    stamped["metadata"]["role"] = text("b");
    let error = client
        .validated_plan("root", "run-a", Some(plan.snapshot()), &lines(&[stamped]))
        .unwrap_err();
    assert!(matches!(error, Error::PlanDrift { .. }));
}

#[test]
fn ownership_texts_escape_what_json_escapes() {
    let baseline = task("root", "pending", &[], none());
    let client = client();
    let before = lines(&[baseline]);
    let plan = client.plan("root", &before).unwrap();
    let arguments = client.claim(&plan, "root", "run \"x\"\n", &before).unwrap();
    assert_eq!(
        arguments[7],
        "{\"agent_orchestrator\":{\"run_id\":\"run \\\"x\\\"\\n\"}}"
    );
}

#[test]
fn only_ready_tasks_of_an_unchanged_plan_are_claimed() {
    let tasks = [
        task("leaf", "pending", &[], none()),
        task("root", "pending", &["leaf"], none()),
        task("other", "pending", &[], none()),
    ];
    let client = client();
    let before = lines(&tasks);
    let plan = client.plan("root", &before).unwrap();
    assert!(client.claim(&plan, "leaf", "run-a", &before).is_ok());

    let error = client.claim(&plan, "root", "run-a", &before).unwrap_err();
    assert_eq!(
        error.message(),
        "SQ task `root` is not ready (status: blocked)"
    );
    let error = client.claim(&plan, "other", "run-a", &before).unwrap_err();
    assert_eq!(
        error.message(),
        "SQ task `other` is outside root `root` dependency scope"
    );
    let mut drifted = tasks.clone();
    drifted[0]["description"] = text("something else");
    let error = client
        .claim(&plan, "leaf", "run-a", &lines(&drifted))
        .unwrap_err();
    assert!(matches!(error, Error::PlanDrift { .. }));
}

#[test]
fn failed_edits_name_the_executable() {
    let client = SqClient::with_executable("q".to_owned(), "my-sq".to_owned());
    assert_eq!(
        client
            .check_edit(&Err("No such file".to_owned()))
            .unwrap_err()
            .message(),
        "cannot start configured SQ executable `my-sq`: No such file"
    );
    assert_eq!(
        client
            .check_edit(&Ok(finished(false, Some(3), " broken \n")))
            .unwrap_err()
            .message(),
        "configured SQ executable `my-sq` failed with status 3: broken"
    );
    assert_eq!(
        client
            .check_edit(&Ok(finished(false, None, "")))
            .unwrap_err()
            .message(),
        "configured SQ executable `my-sq` failed with status signal: "
    );
}

#[test]
fn unreadable_and_malformed_lines_are_named() {
    let error = Queue::read("q.jsonl".to_owned(), &vec![Err("gone".to_owned())]).unwrap_err();
    assert_eq!(error.message(), "cannot read SQ queue `q.jsonl`: gone");

    let error = Queue::read(
        "q.jsonl".to_owned(),
        &vec![Ok("  ".to_owned()), Ok("{".to_owned())],
    )
    .unwrap_err();
    assert!(error
        .message()
        .starts_with("invalid JSON in SQ queue `q.jsonl` at line 2: "));

    // The first error counts, also where a later line cannot be read.
    let error = Queue::read(
        "q.jsonl".to_owned(),
        &vec![Ok("[]".to_owned()), Err("gone".to_owned())],
    )
    .unwrap_err();
    assert_eq!(
        error.message(),
        "invalid SQ task at line 1: task must be a JSON object"
    );
}

#[test]
fn refused_tasks_say_why() {
    let base = task("a", "pending", &[], none());
    let with = |name: &str, value: Value| {
        let mut changed = base.clone();
        changed[name] = value;
        changed
    };
    let reason = |value: Value| match read(&[value]).unwrap_err() {
        Error::InvalidTask { line, reason } => {
            assert_eq!(line, 1);
            reason
        }
        other => panic!("unexpected {other:?}"),
    };
    assert_eq!(reason(with("id", Value::Null)), "`id` must be a string");
    assert_eq!(reason(with("title", Value::Bool(true))), "`title` must be a string");
    assert_eq!(
        reason(with("description", array(&[]))),
        "`description` must be a string"
    );
    assert_eq!(reason(with("id", text(""))), "`id` must not be empty");
    assert_eq!(reason(with("status", Value::Null)), "`status` must be a string");
    assert_eq!(
        reason(with("status", text("done"))),
        "unsupported status `done`"
    );
    assert_eq!(
        reason(with("blocked_by", text("b"))),
        "`blocked_by` must be an array"
    );
    assert_eq!(
        reason(with("blocked_by", array(&["b", ""]))),
        "`blocked_by` must contain non-empty strings"
    );
    assert_eq!(
        reason(with("metadata", text("m"))),
        "`metadata` must be an object"
    );
    assert_eq!(
        reason(with("metadata", object(&[("agent_orchestrator", text("x"))]))),
        "`metadata.agent_orchestrator` must be an object"
    );
    assert_eq!(
        reason(with(
            "metadata",
            object(&[("agent_orchestrator", object(&[("run_id", Value::Null)]))])
        )),
        "`metadata.agent_orchestrator.run_id` must be a string"
    );
    assert_eq!(
        reason(with("metadata", object(&[("acceptance_criteria", Value::Null)]))),
        "`metadata.acceptance_criteria` must be an array"
    );
    assert_eq!(
        reason(with("metadata", object(&[("checks", array(&["ok", " \t"]))]))),
        "`metadata.checks` must contain non-empty strings"
    );
}

#[test]
fn tasks_hold_what_the_queue_says() {
    let mut value = task(
        "a",
        "blocked",
        &["b", "c"],
        object(&[
            ("acceptance_criteria", array(&["works"])),
            ("checks", array(&["cargo test", "cargo fmt"])),
            ("agent_orchestrator", Value::Null),
        ]),
    );
    value["extra"] = Value::from(7);
    let queue = read(&[value, task("b", "closed", &[], Value::Null)]).unwrap();
    assert_eq!(queue.path(), "issues.jsonl");
    let a = queue.task("a").unwrap();
    assert_eq!(a.id(), "a");
    assert_eq!(a.title(), "a task");
    assert_eq!(a.description(), "Implement a");
    assert_eq!(a.stored_status(), TaskStatus::Blocked);
    assert_eq!(a.blocked_by(), &["b", "c"]);
    assert_eq!(a.acceptance_criteria(), &["works"]);
    assert_eq!(a.validation_checks(), &["cargo test", "cargo fmt"]);
    assert_eq!(a.owner_run_id(), None);
    assert_eq!(a.metadata().unwrap().len(), 3);
    assert!(matches!(a.raw().field("extra"), Some(Json::Number(n)) if n == "7"));
    assert!(queue.task("b").unwrap().metadata().is_none());
    assert!(queue.task("c").is_none());
}

#[test]
fn parsed_values_need_no_text() {
    let member = |name: &str, value: Json| Member {
        name: name.to_owned(),
        value,
    };
    let raw = Json::Object(vec![
        member("description", Json::Text("d".to_owned())),
        member("id", Json::Text("x".to_owned())),
        member("status", Json::Text("closed".to_owned())),
        member("title", Json::Text("t".to_owned())),
    ]);
    let task = parse_task(raw, 4).unwrap();
    assert_eq!(task.id(), "x");
    assert_eq!(task.stored_status(), TaskStatus::Closed);
    let error = parse_task(Json::Array(Vec::new()), 4).unwrap_err();
    assert_eq!(
        error.message(),
        "invalid SQ task at line 4: task must be a JSON object"
    );
}

#[test]
fn shared_blockers_are_visited_once_and_longer_cycles_are_cut_to_the_cycle() {
    let plan = read(&[
        task("base", "closed", &[], none()),
        task("left", "closed", &["base"], none()),
        task("right", "pending", &["base"], none()),
        task("root", "pending", &["left", "right", "left"], none()),
    ])
    .unwrap()
    .scope("root")
    .unwrap();
    assert_eq!(plan.task_ids(), ["base", "left", "right", "root"]);
    assert_eq!(plan.root_task_id(), "root");
    assert_eq!(plan.queue_path(), "issues.jsonl");

    let error = read(&[
        task("root", "pending", &["a"], none()),
        task("a", "pending", &["b"], none()),
        task("b", "pending", &["a"], none()),
    ])
    .unwrap()
    .scope("root")
    .unwrap_err();
    assert_eq!(error.message(), "SQ dependency cycle: a -> b -> a");
}

#[test]
fn defects_out_of_reach_of_the_root_do_not_matter() {
    let plan = read(&[
        task("root", "pending", &[], none()),
        task("loop", "pending", &["loop"], none()),
        task("stray", "pending", &["absent"], none()),
    ])
    .unwrap()
    .scope("root")
    .unwrap();
    assert_eq!(plan.task_ids(), ["root"]);
    let error = plan.status("loop").unwrap_err();
    assert_eq!(
        error.message(),
        "SQ task `loop` is outside root `root` dependency scope"
    );
}

#[test]
fn first_ownership_is_no_drift_and_missing_blockers_lists_are_not_either() {
    let mut bare = task("root", "pending", &[], none());
    bare.as_object_mut().unwrap().remove("metadata");
    bare.as_object_mut().unwrap().remove("blocked_by");
    let client = client();
    let plan = client.plan("root", &lines(&[bare])).unwrap();
    let claimed = task("root", "in_progress", &[], owned_by("run-a"));
    client
        .validated_plan("root", "run-a", Some(plan.snapshot()), &lines(&[claimed]))
        .expect("ownership and an empty list are no drift");
}

#[test]
fn snapshots_compare_by_what_they_say() {
    let client = client();
    let one = client
        .plan("root", &lines(&[task("root", "pending", &[], none())]))
        .unwrap();
    let copy: PlanSnapshot = one.snapshot().clone();
    assert!(copy.same_as(one.snapshot()));
    assert_eq!(copy.root_task_id(), "root");
    assert_eq!(copy.tasks().len(), 1);
    let wider = client
        .plan(
            "root",
            &lines(&[
                task("a", "closed", &[], none()),
                task("root", "pending", &["a"], none()),
            ]),
        )
        .unwrap();
    assert!(!copy.same_as(wider.snapshot()));
    assert!(!wider.snapshot().same_as(&copy));
}

#[test]
fn the_first_stray_task_is_the_one_that_is_named() {
    let error = client()
        .validated_plan(
            "root",
            "run-a",
            None,
            &lines(&[
                task("z", "in_progress", &[], none()),
                task("m", "pending", &[], owned_by("run-b")),
                task("root", "pending", &["z", "m"], none()),
            ]),
        )
        .unwrap_err();
    assert_eq!(
        error.message(),
        "SQ task `m` is owned by foreign agent_orchestrator.run_id `run-b` (current run `run-a`)"
    );
}

#[test]
fn queues_are_found_in_their_order() {
    let candidates = |flags: [bool; 2]| {
        vec![
            QueueCandidate {
                path: queue_in("/work/repo"),
                is_file: flags[0],
            },
            QueueCandidate {
                path: queue_in("/work"),
                is_file: flags[1],
            },
        ]
    };
    assert_eq!(
        resolve_queue_path(Some("given"), Some("env"), "/work/repo", &candidates([true, true])),
        "given"
    );
    assert_eq!(
        resolve_queue_path(None, Some("env"), "/work/repo", &candidates([true, true])),
        "env"
    );
    assert_eq!(
        resolve_queue_path(None, Some(""), "/work/repo", &candidates([true, true])),
        "/work/repo/.sift/issues.jsonl"
    );
    assert_eq!(
        resolve_queue_path(None, None, "/work/repo", &candidates([false, true])),
        "/work/.sift/issues.jsonl"
    );
    assert_eq!(
        resolve_queue_path(None, None, "/work/repo", &candidates([false, false])),
        "/work/repo/.sift/issues.jsonl"
    );
    assert_eq!(queue_in("/"), "/.sift/issues.jsonl");
}

#[test]
fn an_empty_executable_configures_none() {
    let named = |name: Option<&str>| {
        SqClient::configured("q".to_owned(), name.map(str::to_owned))
            .executable()
            .to_owned()
    };
    assert_eq!(named(None), "sq");
    assert_eq!(named(Some("")), "sq");
    assert_eq!(named(Some("/bin/sq")), "/bin/sq");
    assert_eq!(TaskStatus::parse("in_progress"), Some(TaskStatus::InProgress));
    assert_eq!(TaskStatus::parse("In_progress"), None);
    assert_eq!(TaskStatus::Closed.as_str(), "closed");
}
