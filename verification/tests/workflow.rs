use agent_orchestrator::command::Finished;
use agent_orchestrator::finish::{
    execute, FinishOptions, FinishOutput, FinishStatus, Place,
};
use agent_orchestrator::herdr::{worker_name, AgentResponse, HerdrClient, ServerStatus, WorktreeSpec};
use agent_orchestrator::identity::{AgentIdClient, Identity};
use agent_orchestrator::json::{Json, Member};
use agent_orchestrator::mail::{
    handoff_body, handoff_subject, report_subject, validate_receipt, AgentMailClient, MailHeader,
    MailReceipt, ReportStatus, WorkerReport,
};
use agent_orchestrator::pass::{Action, Event, Received};
use agent_orchestrator::run::{RunAction, RunEvent};
use agent_orchestrator::runtime::{
    new_run_id, now_unix, LedgerStore, RunLedger, RuntimeRecord, RuntimeStage,
};
use agent_orchestrator::sq::{Queue, ScopedPlan, SqClient, TaskStatus};
use agent_orchestrator::table::Table;
use agent_orchestrator::worktree;
use agent_orchestrator::worktree::{
    artifact_path, create_queue_link, verify_queue_link, AtLink, Deliverable, ExpectedQueue,
    GitClient, Inquiry, Inspected, LinkStep, Step, WorktreePlan,
};
use serde_json::Value;

const QUEUE: &str = "/fixture/issues.jsonl";
const REPO: &str = "/fixture/repo";
const WORKTREES: &str = "/fixture/worktrees";

/// Everything outside the library, in memory.
struct World {
    tasks: Vec<Value>,
    ledger: Option<RunLedger>,
    saves: usize,
    worktrees: Vec<(String, String)>,
    branches: Vec<(String, String)>,
    links: Vec<String>,
    missing: &'static str,
    server_running: bool,
    agent_status: String,
    worker_slug: String,
    worker_gone: bool,
    orchestrator_slug: String,
    report: Option<WorkerReport>,
    commits: Vec<String>,
    read: Vec<String>,
    handoffs: Vec<String>,
    prompts: Vec<String>,
    calls: Vec<String>,
    clock: u64,
    once: bool,
    model: Option<String>,
    claims_persist: bool,
    claims_name_owner: bool,
}

fn text(value: &str) -> Value {
    Value::from(value)
}

fn object(members: &[(&str, Value)]) -> Value {
    let mut map = serde_json::Map::new();
    for (name, value) in members {
        map.insert((*name).to_owned(), value.clone());
    }
    Value::Object(map)
}

fn array(values: &[String]) -> Value {
    Value::Array(values.iter().map(|value| text(value)).collect())
}

fn task(id: &str, status: &str, blocked_by: &[&str]) -> Value {
    let blockers: Vec<String> = blocked_by.iter().map(|id| (*id).to_owned()).collect();
    object(&[
        ("id", text(id)),
        ("title", text(&format!("Implement {id}"))),
        ("description", text(&format!("Complete {id}"))),
        ("status", text(status)),
        ("sources", array(&[])),
        (
            "metadata",
            object(&[
                ("acceptance_criteria", array(&[format!("{id} acceptance")])),
                ("checks", array(&[format!("check {id}")])),
            ]),
        ),
        ("blocked_by", array(&blockers)),
    ])
}

fn owned(mut task: Value, run_id: &str) -> Value {
    task["metadata"]["agent_orchestrator"] = object(&[("run_id", text(run_id))]);
    task
}

fn identity(session: &str, name: &str, slug: &str, cwd: &str) -> Identity {
    Identity {
        session_id: session.to_owned(),
        name: name.to_owned(),
        slug: slug.to_owned(),
        cwd: cwd.to_owned(),
        state: None,
        extensions: vec![Member {
            name: "omp".to_owned(),
            value: Json::Object(Vec::new()),
        }],
    }
}

fn copy_of(ledger: &RunLedger) -> RunLedger {
    let mut runtimes: Table<RuntimeRecord> = Table::new();
    for i in 0..ledger.runtimes.len() {
        let row = ledger.runtimes.row(i);
        runtimes.insert(row.key.clone(), row.value.clone());
    }
    RunLedger {
        version: ledger.version,
        run_id: ledger.run_id.clone(),
        root_task_id: ledger.root_task_id.clone(),
        queue: ledger.queue.clone(),
        repo: ledger.repo.clone(),
        worktree_root: ledger.worktree_root.clone(),
        plan: ledger.plan.clone(),
        orchestrator: ledger.orchestrator.clone(),
        created_at_unix: ledger.created_at_unix,
        runtimes,
    }
}

impl World {
    fn new(tasks: &[Value]) -> World {
        World {
            tasks: tasks.to_vec(),
            ledger: None,
            saves: 0,
            worktrees: Vec::new(),
            branches: Vec::new(),
            links: Vec::new(),
            missing: "",
            server_running: true,
            agent_status: "working".to_owned(),
            worker_slug: "worker".to_owned(),
            worker_gone: false,
            orchestrator_slug: "orchestrator".to_owned(),
            report: None,
            commits: Vec::new(),
            read: Vec::new(),
            handoffs: Vec::new(),
            prompts: Vec::new(),
            calls: Vec::new(),
            clock: 1000,
            once: true,
            model: None,
            claims_persist: true,
            claims_name_owner: true,
        }
    }

    fn provisioned_root() -> World {
        let mut world = World::new(&[task("root", "pending", &[])]);
        let output = world.finish().unwrap();
        assert_eq!(output.status, FinishStatus::Active);
        assert_eq!(output.runtimes[0].stage, RuntimeStage::Active);
        world
    }

    fn options(&self) -> FinishOptions {
        FinishOptions {
            root_task_id: "root".to_owned(),
            queue: Some(QUEUE.to_owned()),
            model: self.model.clone(),
            repo: REPO.to_owned(),
            state_dir: Some("/fixture/state".to_owned()),
            worktree_root: Some(WORKTREES.to_owned()),
            once: self.once,
            poll_seconds: 5,
            lease_seconds: 900,
        }
    }

    fn finish(&mut self) -> Result<FinishOutput, String> {
        self.finish_with(self.options())
    }

    fn finish_with(&mut self, options: FinishOptions) -> Result<FinishOutput, String> {
        let mut run = execute(options);
        while !run.has_ended() {
            let event = self.perform(run.action());
            run = run.step(event);
        }
        run.into_end().unwrap().map_err(|error| error.message())
    }

    fn lines(&self) -> Vec<Result<String, String>> {
        self.tasks.iter().map(|task| Ok(task.to_string())).collect()
    }

    /// What a command of an integration comes to.
    fn ran(&mut self, integration: &'static str, arguments: &[String], stdout: &str) -> Result<Finished, String> {
        if self.missing == integration {
            return Err("No such file or directory".to_owned());
        }
        self.calls.push(format!("{integration} {}", arguments.join(" ")));
        Ok(Finished {
            success: true,
            code: Some(0),
            status: "exit status: 0".to_owned(),
            stdout: stdout.as_bytes().to_vec(),
            stderr: String::new(),
        })
    }

    fn sq(&self) -> SqClient {
        SqClient::with_executable(QUEUE.to_owned(), "missing-sq".to_owned())
    }

    fn git(&self) -> GitClient {
        GitClient::with_executable(REPO.to_owned(), "missing-git".to_owned())
    }

    fn herdr(&self) -> HerdrClient {
        HerdrClient::with_executable("missing-herdr".to_owned(), "workflow-test".to_owned())
    }

    fn mail(&self) -> AgentMailClient {
        AgentMailClient::with_executable("missing-agent-mail".to_owned())
    }

    fn identities(&self) -> AgentIdClient {
        AgentIdClient::with_executable("missing-agent-id".to_owned())
    }

    fn perform(&mut self, action: RunAction<'_>) -> RunEvent {
        match action {
            RunAction::Locate { path } => RunEvent::Located(Ok(Place {
                path: path.to_owned(),
                parent: path.rsplit_once('/').map(|(parent, _)| parent.to_owned()),
                name: path.rsplit_once('/').map(|(_, name)| name.to_owned()),
            })),
            RunAction::FindQueues { .. } => RunEvent::Queues {
                configured: None,
                candidates: Vec::new(),
            },
            RunAction::MakeDirectory { .. } => RunEvent::Made(Ok(())),
            RunAction::FindDirectory { path } => RunEvent::Directory {
                is_absolute: path.starts_with('/'),
                current: Ok("/cwd".to_owned()),
            },
            RunAction::ReadGraph { root_task_id, .. } => {
                RunEvent::Plan(self.sq().plan(root_task_id, &self.lines()))
            }
            RunAction::Load {
                state_dir,
                root_task_id,
            } => RunEvent::Loaded(
                LedgerStore::acquire(state_dir, root_task_id)
                    .map(|_| self.ledger.as_ref().map(copy_of)),
            ),
            RunAction::NameRun { root_task_id } => {
                RunEvent::Named(new_run_id(root_task_id, 1, Ok(1)))
            }
            RunAction::ReadPlan {
                root_task_id,
                run_id,
                expected,
                ..
            } => RunEvent::Plan(self.sq().validated_plan(
                root_task_id,
                run_id,
                expected,
                &self.lines(),
            )),
            RunAction::Preflight => {
                let client = self.herdr();
                let ran = self.ran("herdr", &client.preflight(), "{}");
                let running = self.server_running;
                RunEvent::Ready(client.check_preflight(ran).and_then(|_| {
                    client.check_server(ServerStatus {
                        running,
                        compatible: None,
                    })
                }))
            }
            RunAction::Introduce => {
                let client = self.identities();
                let ran = self.ran("agent-id", &client.current_arguments(), "{}");
                let me = identity(
                    "orchestrator-session",
                    "Orchestrator Agent",
                    &self.orchestrator_slug,
                    REPO,
                );
                RunEvent::Introduced(client.check(ran).and_then(|_| client.current(me)))
            }
            RunAction::ReadClock => RunEvent::Clock(now_unix(Ok(self.clock))),
            RunAction::SaveLedger { ledger } => {
                self.ledger = Some(copy_of(ledger));
                self.saves += 1;
                RunEvent::Saved(Ok(()))
            }
            RunAction::Pass { action } => RunEvent::Pass(self.act(action)),
            RunAction::Sleep { seconds } => {
                self.clock += seconds;
                self.calls.push(format!("sleep {seconds}"));
                self.while_asleep();
                RunEvent::Woken
            }
            RunAction::Rest => unreachable!("an ended run is not asked"),
        }
    }

    /// Between two passes the worker finishes what is in progress.
    fn while_asleep(&mut self) {
        let run_id = self.ledger.as_ref().unwrap().run_id.clone();
        for task in &mut self.tasks {
            if task["status"] == "in_progress" {
                task["status"] = text("closed");
                let id = task["id"].as_str().unwrap().to_owned();
                self.report = Some(completed(&id, &run_id, "abc"));
                self.commits = vec!["abc".to_owned()];
            }
        }
    }

    fn plan_worktree(&mut self, plan: &ScopedPlan, root: &str, task_id: &str) -> Result<WorktreePlan, worktree::Error> {
        let client = self.git();
        let mut planning = client.plan_task(plan, root, Some("repo"), task_id)?;
        loop {
            let yes = match planning.inquiry() {
                Inquiry::Path(path) => self.worktrees.iter().any(|(known, _)| *known == path),
                Inquiry::Branch(branch) => {
                    let ran = self.ran("git", &client.branch_exists(&branch), "");
                    client.answer("checking Git branch", ran)?;
                    self.branches.iter().any(|(known, _)| *known == branch)
                }
                Inquiry::Ancestor {
                    ancestor,
                    descendant,
                } => ancestor == descendant,
                Inquiry::Head => return Ok(planning.resolved("main-commit".to_owned())),
            };
            match planning.answered(yes) {
                Step::Ask(next) => planning = next,
                Step::Done(result) => return result,
            }
        }
    }

    fn claim(&mut self, plan: &ScopedPlan, task_id: &str, run_id: &str) -> Result<ScopedPlan, agent_orchestrator::sq::Error> {
        let client = self.sq();
        let arguments = client.claim(plan, task_id, run_id, &self.lines())?;
        let ran = self.ran("sq", &arguments, "{}");
        client.check_edit(&ran)?;
        if self.claims_persist {
            for task in &mut self.tasks {
                if task["id"] == task_id {
                    task["status"] = text(&arguments[5]);
                    if self.claims_name_owner {
                        let merged: Value = serde_json::from_str(&arguments[7]).unwrap();
                        task["metadata"]["agent_orchestrator"] =
                            merged["agent_orchestrator"].clone();
                    }
                }
            }
        }
        client.confirm_claim(plan, task_id, run_id, &self.lines())
    }

    fn verify_worktree(&self, worktree: &WorktreePlan, queue: &str) -> Result<(), worktree::Error> {
        let current = self
            .worktrees
            .iter()
            .find(|(path, _)| *path == worktree.path)
            .map(|(_, branch)| branch.clone());
        let target = if self.links.contains(&worktree.path) {
            Ok(QUEUE.to_owned())
        } else {
            Err("no link".to_owned())
        };
        self.git().verify_retained(
            worktree,
            current.is_some(),
            Ok(self.branches.iter().any(|(branch, _)| *branch == worktree.branch)),
            Ok(current.unwrap_or_default()),
            verify_queue_link(&worktree.path, target.clone(), true, None),
        )?;
        verify_queue_link(
            &worktree.path,
            target,
            true,
            Some(ExpectedQueue {
                queue: queue.to_owned(),
                canonical: Ok(queue.to_owned()),
            }),
        )
    }

    fn scan(&mut self, worker: &Identity, task_id: &str, run_id: &str, arguments: Vec<String>) -> Result<Option<Received>, agent_orchestrator::mail::Error> {
        let client = self.mail();
        let ran = self.ran("agent-mail", &arguments, "[]");
        client.output("scanning unread worker reports", ran)?;
        let headers: Vec<MailHeader> = self
            .report
            .iter()
            .map(|report| MailHeader {
                id: format!("REPORT-{}", report.task_id),
                sender: worker.slug.clone(),
                subject: report_subject(&report.task_id, &report.run_id),
            })
            .filter(|header| !self.read.contains(&header.id))
            .collect();
        let Some(message_id) = client.select_report(&headers, worker, task_id, run_id)? else {
            return Ok(None);
        };
        let ran = self.ran("agent-mail", &client.peek(&message_id), "");
        client.output("reading the unread worker report", ran)?;
        let message = format!(
            "From: {}\nMessage-ID: {message_id}\nSubject: {}\n\n{{}}\n",
            worker.slug,
            report_subject(task_id, run_id)
        );
        let body = client.report_body(&message, &message_id, worker, task_id, run_id)?;
        assert_eq!(body, "{}");
        Ok(Some(Received {
            message_id,
            report: self.report.as_ref().unwrap().clone(),
        }))
    }

    fn agent(&self, name: &str) -> AgentResponse {
        AgentResponse {
            name: Some(name.to_owned()),
            workspace_id: "w1".to_owned(),
            pane_id: "w1:p1".to_owned(),
            agent_status: self.agent_status.clone(),
        }
    }

    fn act(&mut self, action: Action<'_>) -> Event {
        match action {
            Action::ReadPlan {
                root_task_id,
                run_id,
                expected,
                ..
            } => Event::Plan(self.sq().validated_plan(
                root_task_id,
                run_id,
                Some(expected),
                &self.lines(),
            )),
            Action::VerifyWorktree { worktree, queue } => {
                Event::Checked(self.verify_worktree(worktree, queue))
            }
            Action::ScanReport {
                orchestrator,
                worker,
                task_id,
                run_id,
            } => {
                let arguments = self.mail().scan_report(orchestrator);
                Event::Scanned(self.scan(worker, task_id, run_id, arguments))
            }
            Action::VerifyDeliverable {
                worktree,
                deliverable,
            } => {
                let inspected = match deliverable {
                    Deliverable::Commit(commit) => Inspected::Commit {
                        resolved: Ok(commit.clone()),
                        on_branch: Ok(self.commits.contains(&commit)),
                        commit,
                    },
                    Deliverable::Artifact(artifact) => {
                        let path = artifact_path(worktree, &artifact, artifact.starts_with('/'));
                        Inspected::Artifact {
                            exists: self.commits.contains(&path),
                            path,
                        }
                    }
                };
                Event::Checked(self.git().verify_report_deliverable(worktree, inspected))
            }
            Action::MarkRead { message_id } => Event::Marked(
                self.mail()
                    .mark_read(message_id)
                    .map(|arguments| self.read.push(arguments[1].clone())),
            ),
            Action::SaveLedger { ledger } => {
                self.ledger = Some(copy_of(ledger));
                self.saves += 1;
                Event::Saved(Ok(()))
            }
            Action::DiscoverWorker { worktree } => {
                let client = self.identities();
                let ran = self.ran("agent-id", &client.discover_arguments(), "[]");
                let found = if self.worker_gone {
                    Vec::new()
                } else {
                    vec![identity("worker-session", "Worker Agent", &self.worker_slug, worktree)]
                };
                let here = vec![true; found.len()];
                Event::Discovered(
                    client
                        .check(ran)
                        .and_then(|_| client.discover_worker(worktree, &found, &here)),
                )
            }
            Action::ObserveWorker { worker } => {
                let client = self.herdr();
                let ran = self.ran("herdr", &client.status(worker), "{\"result\":{\"type\":\"agent_info\",\"agent\":{}}}");
                let agent = self.agent(&worker.name);
                Event::Observed(
                    client
                        .agent_reply("reading OMP worker", "agent_info", ran)
                        .and_then(|_| client.status_of(worker, &agent)),
                )
            }
            Action::ReadClock => Event::Clock(now_unix(Ok(self.clock))),
            Action::PlanWorktree {
                plan,
                worktree_root,
                task_id,
            } => Event::Worktree(self.plan_worktree(plan, worktree_root, task_id)),
            Action::Claim {
                plan,
                task_id,
                run_id,
            } => Event::Plan(self.claim(plan, task_id, run_id)),
            Action::CreateWorktree {
                repo,
                branch,
                base,
                path,
                task_label,
            } => {
                let client = self.herdr();
                let arguments = client.create_worktree(WorktreeSpec {
                    repo,
                    branch,
                    base,
                    path,
                    task_label: &task_label,
                });
                let ran = self.ran("herdr", &arguments, "{\"result\":{\"type\":\"worktree_created\",\"workspace\":{\"workspace_id\":\"w1\"},\"root_pane\":{\"pane_id\":\"w1:p1\"}}}");
                self.worktrees.push((path.to_owned(), branch.to_owned()));
                self.branches.push((branch.to_owned(), base.to_owned()));
                Event::Workspace(client.worktree_created(ran))
            }
            Action::LinkQueue { worktree, queue } => {
                let step = create_queue_link(worktree, queue, false, &AtLink::Nothing);
                Event::Checked(step.map(|step| {
                    assert_eq!(step, LinkStep::Create);
                    self.links.push(worktree.to_owned());
                }))
            }
            Action::StartWorker {
                workspace,
                run_id,
                task_id,
                model,
            } => {
                let client = self.herdr();
                let arguments = client.start_omp(&workspace, run_id, task_id, model);
                let ran = self.ran("herdr", &arguments, "{\"result\":{\"type\":\"agent_started\",\"agent\":{}}}");
                let mut agent = self.agent(&worker_name(run_id, task_id));
                agent.agent_status = "idle".to_owned();
                Event::Started(
                    client
                        .agent_reply("starting OMP worker", "agent_started", ran)
                        .and_then(|_| client.omp_started(&workspace, run_id, task_id, &agent)),
                )
            }
            Action::SendHandoff { handoff } => {
                let client = self.mail();
                let arguments = client.send_handoff(&handoff);
                let ran = self.ran("agent-mail", &arguments, "{}");
                self.handoffs.push(handoff_body(&handoff));
                let receipt = MailReceipt {
                    id: format!("handoff-{}", handoff.task_id),
                    recipient: handoff.worker.slug.clone(),
                    sender: handoff.orchestrator.slug.clone(),
                    subject: handoff_subject(handoff.task_id, handoff.run_id),
                    timestamp: String::new(),
                    mailbox: String::new(),
                    state: "delivered".to_owned(),
                };
                Event::Sent(
                    client
                        .output("sending the worker handoff", ran)
                        .and_then(|_| validate_receipt(&receipt, &handoff))
                        .map(|()| receipt.id.clone()),
                )
            }
            Action::PromptWorker {
                worker,
                receipt,
                prompt,
            } => {
                let client = self.herdr();
                self.prompts.push(prompt.clone());
                let mut agent = self.agent(&worker.name);
                agent.agent_status = "idle".to_owned();
                Event::Prompted(
                    client
                        .prompt_after_handoff(&worker, receipt, &prompt)
                        .and_then(|_| client.prompted(&worker, &agent)),
                )
            }
            Action::Rest => unreachable!("an ended pass is not asked"),
        }
    }

    fn runtime(&self, task_id: &str) -> &RuntimeRecord {
        self.ledger.as_ref().unwrap().runtimes.get(task_id).unwrap()
    }

    fn change_runtime(&mut self, task_id: &str, change: impl Fn(&mut RuntimeRecord)) {
        let ledger = self.ledger.as_mut().unwrap();
        let mut runtime = ledger.runtimes.get(task_id).unwrap().clone();
        change(&mut runtime);
        ledger.set_runtime(task_id.to_owned(), runtime);
    }

    fn run_id(&self) -> String {
        self.ledger.as_ref().unwrap().run_id.clone()
    }

    fn set_status(&mut self, task_id: &str, status: &str) {
        for task in &mut self.tasks {
            if task["id"] == task_id {
                task["status"] = text(status);
            }
        }
    }

    fn scope(&self) -> ScopedPlan {
        Queue::read(QUEUE.to_owned(), &self.lines())
            .unwrap()
            .scope("root")
            .unwrap()
    }

    fn called(&self, integration: &str) -> bool {
        self.calls.iter().any(|call| call.starts_with(integration))
    }
}

fn completed(task_id: &str, run_id: &str, commit: &str) -> WorkerReport {
    WorkerReport {
        task_id: task_id.to_owned(),
        run_id: run_id.to_owned(),
        status: ReportStatus::Completed,
        commit: Some(commit.to_owned()),
        artifact: None,
        evidence: vec!["fixture scenario: passed".to_owned()],
        summary: None,
    }
}

fn stopped(task_id: &str, run_id: &str, status: ReportStatus, summary: &str) -> WorkerReport {
    WorkerReport {
        task_id: task_id.to_owned(),
        run_id: run_id.to_owned(),
        status,
        commit: None,
        artifact: None,
        evidence: Vec::new(),
        summary: Some(summary.to_owned()),
    }
}

#[test]
fn workflow_claims_hands_off_stacks_and_completes_dependency_branches() {
    let mut scenario = World::new(&[
        task("leaf", "pending", &[]),
        task("root", "pending", &["leaf"]),
    ]);

    let first = scenario.finish().unwrap();
    assert_eq!(first.status, FinishStatus::Active);
    assert_eq!(first.runtimes[0].task_id, "leaf");
    assert_eq!(first.runtimes[0].stage, RuntimeStage::Active);
    let run_id = first.run_id.unwrap();
    let plan = scenario.scope();
    assert_eq!(plan.task("leaf").unwrap().stored_status(), TaskStatus::InProgress);
    assert_eq!(plan.task("leaf").unwrap().owner_run_id(), Some(run_id.as_str()));
    assert_eq!(scenario.links, ["/fixture/worktrees/repo.leaf"]);
    for expected in [
        "Canonical SQ queue: /fixture/issues.jsonl",
        "Worktree: /fixture/worktrees/repo.leaf",
        "Branch: agent-orchestrator/root/leaf",
        "Dependencies: none",
        "Acceptance criteria:",
        "leaf acceptance",
        "Validation expectations:",
        "check leaf",
    ] {
        assert!(scenario.handoffs[0].contains(expected), "missing `{expected}`");
    }

    scenario.set_status("leaf", "closed");
    scenario.report = Some(completed("leaf", &run_id, "leaf-commit"));
    scenario.commits.push("leaf-commit".to_owned());

    let second = scenario.finish().unwrap();
    assert_eq!(second.status, FinishStatus::Active);
    assert_eq!(second.runtimes[0].stage, RuntimeStage::Completed);
    assert_eq!(second.runtimes[1].task_id, "root");
    assert_eq!(second.runtimes[1].stage, RuntimeStage::Active);
    assert_eq!(
        scenario.scope().task("root").unwrap().owner_run_id(),
        Some(run_id.as_str())
    );
    assert_eq!(
        scenario.branches[1],
        (
            "agent-orchestrator/root/root".to_owned(),
            "agent-orchestrator/root/leaf".to_owned()
        )
    );
    assert!(scenario.handoffs[1].contains("Dependencies: leaf"));
    assert!(scenario.handoffs[1].contains("Branch: agent-orchestrator/root/root"));
    assert!(scenario.handoffs[1].contains("Update only task root"));

    scenario.set_status("root", "closed");
    scenario.report = Some(completed("root", &run_id, "root-commit"));
    scenario.commits.push("root-commit".to_owned());

    let complete = scenario.finish().unwrap();
    assert_eq!(complete.status, FinishStatus::Complete);
    assert_eq!(complete.run_id, Some(run_id));
    assert!(complete
        .runtimes
        .iter()
        .all(|runtime| runtime.stage == RuntimeStage::Completed));
    for id in ["leaf", "root"] {
        let report = scenario.runtime(id).report.as_ref().unwrap();
        assert_eq!(report.status, ReportStatus::Completed);
        assert_eq!(report.evidence, ["fixture scenario: passed"]);
    }
    assert_eq!(scenario.read, ["REPORT-leaf", "REPORT-root"]);
}

#[test]
fn workflow_rejects_foreign_ownership_report_disagreement_and_plan_drift() {
    let mut foreign = World::new(&[owned(task("root", "pending", &[]), "foreign-run")]);
    let error = foreign.finish().unwrap_err();
    assert!(error.contains("foreign agent_orchestrator.run_id `foreign-run`"));
    assert!(foreign.worktrees.is_empty());

    let mut disagreement = World::provisioned_root();
    let run_id = disagreement.run_id();
    disagreement.report = Some(completed("root", &run_id, "head"));
    disagreement.commits.push("head".to_owned());
    let error = disagreement.finish().unwrap_err();
    assert!(error.contains("worker reported task `root` Completed but SQ status is `in_progress`"));
    assert_eq!(disagreement.runtime("root").stage, RuntimeStage::Active);

    let mut drift = World::provisioned_root();
    drift.tasks[0]["title"] = text("changed after dispatch");
    let error = drift.finish().unwrap_err();
    assert!(error.contains("SQ plan drift for root task `root`"));
    assert_eq!(drift.runtime("root").stage, RuntimeStage::Active);
}

#[test]
fn workflow_names_each_unavailable_integration_and_configured_executable() {
    for (integration, expected) in [
        ("herdr", "cannot start Herdr executable"),
        ("agent-id", "cannot start Agent ID executable"),
        ("git", "cannot start Git executable"),
        ("sq", "cannot start configured SQ executable"),
        ("agent-mail", "cannot start AgentMail executable"),
    ] {
        let mut scenario = World::new(&[task("root", "pending", &[])]);
        scenario.missing = integration;
        let error = scenario.finish().unwrap_err();
        assert!(
            error.contains(expected),
            "{integration} failure was not explicit: {error}"
        );
        assert!(error.contains(&format!("missing-{integration}")));
    }
}

#[test]
fn workflow_stops_on_blocked_failed_and_lost_workers_without_retry() {
    for (status, stage, title) in [
        (ReportStatus::Blocked, RuntimeStage::Blocked, "Blocked"),
        (ReportStatus::Failed, RuntimeStage::Failed, "Failed"),
    ] {
        let mut scenario = World::provisioned_root();
        let run_id = scenario.run_id();
        scenario.report = Some(stopped("root", &run_id, status, &format!("fixture {title}")));
        let error = scenario.finish().unwrap_err();
        assert!(error.contains(&format!("worker reported task `root` {title}")));
        assert!(error.contains(&format!("fixture {title}")));
        assert_eq!(scenario.runtime("root").stage, stage);

        let retained = scenario.finish().unwrap_err();
        assert!(retained.contains(&format!(
            "retained worker report for task `root` is {title}; refusing a silent retry"
        )));
    }

    let mut blocked = World::provisioned_root();
    blocked.agent_status = "blocked".to_owned();
    let error = blocked.finish().unwrap_err();
    assert!(error.contains("worker for task `root` is blocked without a matching AgentMail report"));
    assert_eq!(blocked.runtime("root").stage, RuntimeStage::Active);

    let mut lost = World::provisioned_root();
    lost.worker_gone = true;
    let transient = lost.finish().unwrap();
    assert_eq!(transient.status, FinishStatus::Active);
    assert!(lost
        .runtime("root")
        .last_observation_error
        .as_deref()
        .unwrap()
        .contains("found none"));
    lost.change_runtime("root", |runtime| runtime.lease_expires_at_unix = Some(0));
    let error = lost.finish().unwrap_err();
    assert!(error.contains("worker lease for task `root` expired"));
    assert_eq!(lost.runtime("root").stage, RuntimeStage::Active);
}

#[test]
fn finish_closed_root_is_complete_without_runtime_integrations() {
    let mut world = World::new(&[task("root", "closed", &[])]);
    let result = world.finish().unwrap();
    assert_eq!(result.status, FinishStatus::Complete);
    assert_eq!(result.root_task_id, "root");
    assert!(result.runtimes.is_empty());
    assert!(result.run_id.is_none());
    assert!(world.calls.is_empty());
    assert!(world.ledger.is_none());
}

#[test]
fn closed_root_finishes_without_provisioning_workers() {
    let mut world = World::new(&[task("root", "closed", &[])]);
    assert_eq!(world.finish().unwrap().status, FinishStatus::Complete);
    assert!(world.calls.is_empty());
    assert!(world
        .branches
        .iter()
        .all(|(branch, _)| branch != "agent-orchestrator/root/root"));
}

#[test]
fn finish_rejects_zero_poll_and_lease_intervals_as_operational_errors() {
    let mut world = World::new(&[task("root", "pending", &[])]);
    let mut options = world.options();
    options.poll_seconds = 0;
    let error = world.finish_with(options).unwrap_err();
    assert!(error.contains("--poll-seconds must be greater than zero"));
    let mut options = world.options();
    options.lease_seconds = 0;
    let error = world.finish_with(options).unwrap_err();
    assert!(error.contains("--lease-seconds must be greater than zero"));
    assert!(world.calls.is_empty());
}

#[test]
fn finish_refuses_unowned_in_progress_before_runtime_preflight() {
    let mut world = World::new(&[task("root", "in_progress", &[])]);
    let error = world.finish().unwrap_err();
    assert!(!world.called("herdr"));
    assert!(error.contains("in_progress without agent_orchestrator.run_id ownership"));
}

#[test]
fn in_progress_task_without_a_runtime_entry_is_never_stolen() {
    let mut world = World::new(&[
        task("root", "pending", &["child"]),
        task("child", "in_progress", &[]),
    ]);
    let error = world.finish().unwrap_err();
    assert!(error.contains("refusing to steal it"));
    assert_eq!(
        error,
        "SQ task `child` is in_progress without agent_orchestrator.run_id ownership; refusing to steal it"
    );
    assert!(world.calls.is_empty());
}

#[test]
fn finish_once_provisions_and_persists_a_complete_active_runtime() {
    let mut world = World::new(&[task("root", "pending", &[])]);
    let result = world.finish().unwrap();
    assert_eq!(result.status, FinishStatus::Active);
    assert_eq!(result.runtimes[0].task_id, "root");
    assert_eq!(result.runtimes[0].stage, RuntimeStage::Active);
    assert_eq!(result.runtimes[0].branch, "agent-orchestrator/root/root");
    assert_eq!(result.runtimes[0].worktree, "/fixture/worktrees/repo.root");
    let run_id = result.run_id.unwrap();
    assert_eq!(
        result.runtimes[0].worker.as_deref(),
        Some(worker_name(&run_id, "root").as_str())
    );

    let runtime = world.runtime("root");
    assert!(runtime.workspace_id.is_some());
    assert!(runtime.pane_id.is_some());
    assert!(runtime.worker_name.is_some());
    assert!(runtime.worker_identity.is_some());
    assert!(runtime.handoff_receipt.is_some());
    assert!(runtime.lease_expires_at_unix.is_some());
    assert!(runtime.heartbeat_at_unix.is_some());
    assert_eq!(world.saves, 8);
    assert_eq!(
        world.prompts,
        ["Read AgentMail message handoff-root from orchestrator and execute that handoff. Report results only through AgentMail as the handoff specifies."]
    );
    assert!(world.called(
        "herdr --session workflow-test worktree create --cwd /fixture/repo --branch agent-orchestrator/root/root --base main-commit --path /fixture/worktrees/repo.root --label root: Implement root --no-focus"
    ));

    let reconciled = world.finish().unwrap();
    assert_eq!(reconciled.status, FinishStatus::Active);
    assert_eq!(reconciled.run_id, Some(run_id));
    assert_eq!(reconciled.runtimes[0].stage, RuntimeStage::Active);

    world.change_runtime("root", |runtime| runtime.stage = RuntimeStage::Claimed);
    let interrupted = world.finish().unwrap_err();
    assert!(interrupted
        .contains("interrupted provisioning at stage `Claimed`; refusing a silent retry"));
}

#[test]
fn herdr_finish_validates_graph_before_preflight() {
    let mut world = World::new(&[task("root", "pending", &["absent"])]);
    let error = world.finish().unwrap_err();
    assert!(!world.called("herdr"), "Herdr must not run before SQ validates");
    assert!(error.contains("declares missing blocker `absent`"));
}

#[test]
fn sq_finish_reports_graph_error_before_runtime_preflight() {
    let mut world = World::new(&[task("root", "pending", &["absent"])]);
    let error = world.finish().unwrap_err();
    assert!(error.contains("declares missing blocker `absent`"));
    assert!(!error.contains("provided by the orchestration runtime"));
    assert!(world.ledger.is_none());
}

#[test]
fn herdr_finish_reports_missing_executable_and_unavailable_session() {
    let mut world = World::new(&[task("root", "pending", &[])]);
    world.missing = "herdr";
    let error = world.finish().unwrap_err();
    assert!(error.contains("cannot start Herdr executable"));
    assert!(error.contains("Herdr is required for `finish`"));
    assert!(error.contains("workflow-test"));
    world.missing = "";
    world.server_running = false;
    let error = world.finish().unwrap_err();
    assert!(error.contains("Herdr session `workflow-test` is unavailable"));
    assert!(error.contains("server is not running"));
    assert!(world.ledger.is_none());
}

#[test]
fn settled_pane_without_a_report_is_not_completion() {
    let mut world = World::new(&[
        task("root", "pending", &["child"]),
        task("child", "pending", &[]),
    ]);
    world.finish().unwrap();
    world.agent_status = "idle".to_owned();
    let error = world.finish().unwrap_err();
    assert!(error.contains("settled without a structured AgentMail report"));
    assert_eq!(world.runtime("child").stage, RuntimeStage::Active);
}

#[test]
fn herdr_lookup_failure_stops_without_silent_retry() {
    let mut world = World::new(&[
        task("root", "pending", &["child"]),
        task("child", "pending", &[]),
    ]);
    world.finish().unwrap();
    world.agent_status = "mystery".to_owned();
    let error = world.finish().unwrap_err();
    assert!(error.contains("unsupported agent state mystery"));
    assert!(error.starts_with("worker for task `child` is lost: "));
}

#[test]
fn a_closed_blocker_is_waited_for_until_its_report_is_settled() {
    let mut world = World::new(&[
        task("root", "pending", &["child"]),
        task("child", "pending", &[]),
    ]);
    let first = world.finish().unwrap();
    world.set_status("child", "closed");
    let waiting = world.finish().unwrap();
    assert_eq!(waiting.status, FinishStatus::Active);
    assert_eq!(waiting.runtimes.len(), 1);
    assert!(!world.ledger.as_ref().unwrap().runtimes.has("root"));

    world.report = Some(completed("child", &first.run_id.unwrap(), "abc123"));
    world.commits.push("abc123".to_owned());
    let unlocked = world.finish().unwrap();
    assert_eq!(unlocked.runtimes.len(), 2);
    assert_eq!(world.runtime("child").stage, RuntimeStage::Completed);
    assert_eq!(
        world.runtime("child").report_message_id.as_deref(),
        Some("REPORT-child")
    );
    assert_eq!(world.runtime("root").stage, RuntimeStage::Active);
    assert_eq!(
        world.runtime("root").worktree.base,
        "agent-orchestrator/root/child"
    );
}

#[test]
fn a_run_polls_until_the_root_is_finished() {
    let mut world = World::new(&[
        task("leaf", "pending", &[]),
        task("root", "pending", &["leaf"]),
    ]);
    world.once = false;
    let output = world.finish().unwrap();
    assert_eq!(output.status, FinishStatus::Complete);
    assert_eq!(output.runtimes.len(), 2);
    assert_eq!(
        world.calls.iter().filter(|call| *call == "sleep 5").count(),
        2
    );
    let again = world.finish().unwrap();
    assert_eq!(again.status, FinishStatus::Complete);
    assert_eq!(again.runtimes.len(), 2);
}

#[test]
fn independent_tasks_are_handed_out_in_one_pass() {
    let mut world = World::new(&[
        task("b", "pending", &[]),
        task("a", "pending", &[]),
        task("root", "pending", &["b", "a"]),
    ]);
    world.model = Some("fast".to_owned());
    let output = world.finish().unwrap();
    let ids: Vec<&str> = output.runtimes.iter().map(|r| r.task_id.as_str()).collect();
    assert_eq!(ids, ["a", "b"]);
    assert!(world
        .calls
        .iter()
        .any(|call| call.contains("agent start") && call.ends_with("--pane w1:p1 -- --model fast")));
}

#[test]
fn undelivered_completions_are_refused() {
    let mut world = World::provisioned_root();
    let run_id = world.run_id();
    world.set_status("root", "closed");
    world.report = Some(completed("root", &run_id, "elsewhere"));
    let error = world.finish().unwrap_err();
    assert_eq!(
        error,
        "reported commit `elsewhere` is not reachable from worker branch `agent-orchestrator/root/root`"
    );
    assert_eq!(world.runtime("root").stage, RuntimeStage::Active);
    assert!(world.read.is_empty());

    let mut by_artifact = completed("root", &run_id, " ");
    by_artifact.artifact = Some("out.bin".to_owned());
    world.report = Some(by_artifact);
    let error = world.finish().unwrap_err();
    assert_eq!(
        error,
        "reported artifact `/fixture/worktrees/repo.root/out.bin` does not exist"
    );
    world.commits.push("/fixture/worktrees/repo.root/out.bin".to_owned());
    assert_eq!(world.finish().unwrap().status, FinishStatus::Complete);
}

#[test]
fn invalid_reports_stop_the_run() {
    let mut world = World::provisioned_root();
    let run_id = world.run_id();
    world.set_status("root", "closed");
    let mut bare = completed("root", &run_id, "abc");
    bare.evidence.clear();
    world.report = Some(bare);
    assert_eq!(
        world.finish().unwrap_err(),
        "completed worker report must include non-empty validation evidence"
    );
    assert!(world.read.is_empty());
}

#[test]
fn an_interrupted_settlement_is_taken_up() {
    for (status, stage) in [
        (ReportStatus::Completed, RuntimeStage::Completed),
        (ReportStatus::Failed, RuntimeStage::Failed),
    ] {
        let mut world = World::provisioned_root();
        let run_id = world.run_id();
        let report = if status == ReportStatus::Completed {
            world.set_status("root", "closed");
            completed("root", &run_id, "abc")
        } else {
            stopped("root", &run_id, status, "why")
        };
        world.change_runtime("root", |runtime| {
            runtime
                .record_report("REPORT-root".to_owned(), report.clone())
                .unwrap()
        });
        let outcome = world.finish();
        assert_eq!(world.runtime("root").stage, stage);
        assert_eq!(world.read, ["REPORT-root"]);
        match status {
            ReportStatus::Completed => assert_eq!(outcome.unwrap().status, FinishStatus::Complete),
            _ => assert_eq!(
                outcome.unwrap_err(),
                "retained worker report for task `root` is Failed; refusing a silent retry"
            ),
        }
    }
}

#[test]
fn changed_workers_tasks_and_orchestrators_stop_the_run() {
    let mut replaced = World::provisioned_root();
    replaced.worker_slug = "intruder".to_owned();
    assert_eq!(
        replaced.finish().unwrap_err(),
        "worker for task `root` changed from `worker` to `intruder`; refusing replacement"
    );

    let mut reset = World::provisioned_root();
    reset.set_status("root", "pending");
    assert_eq!(
        reset.finish().unwrap_err(),
        "retained runtime task `root` was reset to pending; refusing to retry it"
    );

    let mut reopened = World::provisioned_root();
    let run_id = reopened.run_id();
    reopened.set_status("root", "closed");
    reopened.report = Some(completed("root", &run_id, "abc"));
    reopened.commits.push("abc".to_owned());
    assert_eq!(reopened.finish().unwrap().status, FinishStatus::Complete);
    reopened.set_status("root", "blocked");
    assert_eq!(
        reopened.finish().unwrap_err(),
        "completed runtime task `root` is no longer closed in SQ"
    );

    let mut usurped = World::provisioned_root();
    usurped.orchestrator_slug = "usurper".to_owned();
    assert_eq!(
        usurped.finish().unwrap_err(),
        "retained run belongs to orchestrator `orchestrator`, not `usurper`"
    );

    let mut forgotten = World::provisioned_root();
    forgotten.ledger = None;
    let run_id = new_run_id("root", 1, Ok(1)).unwrap();
    assert_eq!(
        forgotten.finish().unwrap_err(),
        format!("SQ task `root` is in_progress for run `{run_id}` without a retained runtime; refusing interrupted provisioning")
    );

    let mut removed = World::provisioned_root();
    removed.worktrees.clear();
    assert_eq!(
        removed.finish().unwrap_err(),
        "retained worker worktree `/fixture/worktrees/repo.root` is missing"
    );
}

#[test]
fn orphans_of_a_retained_run_are_refused() {
    let mut world = World::new(&[
        task("a", "pending", &[]),
        task("root", "pending", &["a"]),
    ]);
    world.finish().unwrap();
    let run_id = world.run_id();
    world.tasks[1] = owned(task("root", "in_progress", &["a"]), &run_id);
    assert_eq!(
        world.finish().unwrap_err(),
        format!("SQ task `root` is in_progress for run `{run_id}` without a retained runtime; refusing interrupted provisioning")
    );
}

#[test]
fn dependency_errors_stop_before_any_worker_is_provisioned() {
    let mut cycle = World::new(&[
        task("root", "pending", &["child"]),
        task("child", "pending", &["root"]),
    ]);
    let error = cycle.finish().unwrap_err();
    assert!(error.contains("SQ dependency cycle"));
    assert!(cycle.calls.is_empty());
    assert!(cycle.worktrees.is_empty());

    let mut missing = World::new(&[task("root", "pending", &["absent"])]);
    let error = missing.finish().unwrap_err();
    assert!(error.contains("missing blocker"));
    assert!(error.contains("absent"));
    assert!(missing.calls.is_empty());
    assert!(missing.worktrees.is_empty());
}

#[test]
fn missing_herdr_is_a_clear_error_after_queue_validation() {
    let mut world = World::new(&[task("root", "pending", &[])]);
    world.missing = "herdr";
    let error = world.finish().unwrap_err();
    assert!(error.contains("Herdr is required for `finish`"));

    let mut options = world.options();
    options.root_task_id = "missing-root".to_owned();
    let error = world.finish_with(options).unwrap_err();
    assert!(error.contains("SQ root task"));
    assert!(error.contains("missing-root"));
    assert!(!error.contains("Herdr"));
}

#[test]
fn a_claim_stored_without_its_owner_is_not_taken_for_a_stray_task() {
    let mut world = World::new(&[task("root", "pending", &[])]);
    world.claims_name_owner = false;
    let error = world.finish().unwrap_err();
    assert_eq!(
        error,
        format!(
            "SQ did not persist claim for task `root`: expected status in_progress and run `{}`, got status in_progress and run <missing>",
            world.run_id()
        )
    );
}

#[test]
fn claims_that_do_not_last_are_refused() {
    let mut world = World::new(&[task("root", "pending", &[])]);
    world.claims_persist = false;
    let error = world.finish().unwrap_err();
    assert!(error.starts_with("SQ did not persist claim for task `root`"));
    assert!(!world.ledger.as_ref().unwrap().runtimes.has("root"));
}

#[test]
fn observations_renew_the_lease_and_clear_the_error() {
    let mut world = World::provisioned_root();
    assert_eq!(world.runtime("root").lease_expires_at_unix, Some(1900));
    world.worker_gone = true;
    world.clock = 1899;
    world.finish().unwrap();
    assert!(world.runtime("root").last_observation_error.is_some());
    assert_eq!(world.runtime("root").lease_expires_at_unix, Some(1900));
    world.worker_gone = false;
    world.finish().unwrap();
    assert!(world.runtime("root").last_observation_error.is_none());
    assert_eq!(world.runtime("root").lease_expires_at_unix, Some(2799));
    assert_eq!(world.runtime("root").heartbeat_at_unix, Some(1899));
    world.worker_gone = true;
    world.clock = 2799;
    assert_eq!(
        world.finish().unwrap_err(),
        "worker lease for task `root` expired at Unix time 2799"
    );
}

#[test]
fn events_that_are_not_waited_for_change_nothing() {
    let world = World::new(&[task("root", "pending", &[])]);
    let run = execute(world.options());
    assert!(matches!(run.action(), RunAction::Locate { path } if path == REPO));
    let run = run.step(RunEvent::Woken);
    assert!(matches!(run.action(), RunAction::Locate { path } if path == REPO));
    assert!(run.into_end().is_none());
}

#[test]
fn paths_that_cannot_be_resolved_are_named() {
    let world = World::new(&[task("root", "pending", &[])]);
    let end = |steps: Vec<RunEvent>| {
        let mut run = execute(world.options());
        for event in steps {
            run = run.step(event);
        }
        run.into_end().unwrap().unwrap_err().message()
    };
    let place = |path: &str| {
        RunEvent::Located(Ok(Place {
            path: path.to_owned(),
            parent: Some("/fixture".to_owned()),
            name: Some("repo".to_owned()),
        }))
    };
    let queues = || RunEvent::Queues {
        configured: None,
        candidates: Vec::new(),
    };
    let gone = || RunEvent::Located(Err("gone".to_owned()));
    assert_eq!(
        end(vec![gone()]),
        "cannot canonicalize repository `/fixture/repo`: gone"
    );
    assert_eq!(
        end(vec![place(REPO), queues(), gone()]),
        "cannot canonicalize SQ queue `/fixture/issues.jsonl`: gone"
    );
    assert_eq!(
        end(vec![
            place(REPO),
            queues(),
            place(QUEUE),
            RunEvent::Made(Err("no disk".to_owned()))
        ]),
        "cannot create worktree root `/fixture/worktrees`: no disk"
    );
    assert_eq!(
        end(vec![
            place(REPO),
            queues(),
            place(QUEUE),
            RunEvent::Made(Ok(())),
            gone()
        ]),
        "cannot canonicalize worktree root `/fixture/worktrees`: gone"
    );
    assert_eq!(
        end(vec![
            place(REPO),
            queues(),
            place(QUEUE),
            RunEvent::Made(Ok(())),
            place(WORKTREES),
            RunEvent::Directory {
                is_absolute: false,
                current: Err("gone".to_owned())
            }
        ]),
        "cannot determine current directory: gone"
    );
}

#[test]
fn directories_are_put_beside_the_repository() {
    let world = World::new(&[task("root", "pending", &[])]);
    let mut options = world.options();
    options.state_dir = None;
    options.worktree_root = None;
    options.queue = None;
    let mut run = execute(options);
    run = run.step(RunEvent::Located(Ok(Place {
        path: "/work/repo".to_owned(),
        parent: Some("/work".to_owned()),
        name: Some("repo".to_owned()),
    })));
    run = run.step(RunEvent::Queues {
        configured: Some("/queue.jsonl".to_owned()),
        candidates: Vec::new(),
    });
    assert!(matches!(run.action(), RunAction::Locate { path } if path == "/queue.jsonl"));
    let place = |path: &str| {
        RunEvent::Located(Ok(Place {
            path: path.to_owned(),
            parent: None,
            name: None,
        }))
    };
    run = run.step(place("/queue.jsonl"));
    assert!(matches!(run.action(), RunAction::MakeDirectory { path } if path == "/work"));
    run = run.step(RunEvent::Made(Ok(())));
    run = run.step(place("/work"));
    assert!(matches!(
        run.action(),
        RunAction::FindDirectory { path } if path == "/work/.agent-orchestrator/repo"
    ));
    run = run.step(RunEvent::Directory {
        is_absolute: true,
        current: Ok("/cwd".to_owned()),
    });
    assert!(matches!(
        run.action(),
        RunAction::ReadGraph { queue, root_task_id } if queue == "/queue.jsonl" && root_task_id == "root"
    ));
}
