use agent_orchestrator::command::Finished;
use agent_orchestrator::sq::{Queue, ScopedPlan};
use agent_orchestrator::worktree::{
    artifact_path, branch_name, create_queue_link, ensure_closed, is_safe_in_path, output_text,
    queue_link, report_deliverable, verify_queue_link, worktree_path, AtLink, Deliverable, Error,
    ExpectedQueue, GitClient, Inquiry, Inspected, LinkStep, Step, WorktreePlan,
};

struct Git {
    paths: Vec<&'static str>,
    branches: Vec<&'static str>,
    head: &'static str,
    ancestors: Vec<(&'static str, &'static str)>,
    asked: usize,
}

impl Git {
    fn new() -> Git {
        Git {
            paths: Vec::new(),
            branches: Vec::new(),
            head: "head-commit",
            ancestors: Vec::new(),
            asked: 0,
        }
    }

    fn plan(&mut self, scoped: &ScopedPlan, task_id: &str) -> Result<WorktreePlan, Error> {
        let client = GitClient::with_executable("/fixtures/repo".to_owned(), "git".to_owned());
        let mut planning =
            client.plan_task(scoped, "/fixtures/worktrees", Some("repo"), task_id)?;
        loop {
            self.asked += 1;
            let yes = match planning.inquiry() {
                Inquiry::Path(path) => self.paths.iter().any(|known| *known == path),
                Inquiry::Branch(branch) => self.branches.iter().any(|known| *known == branch),
                Inquiry::Ancestor {
                    ancestor,
                    descendant,
                } => {
                    ancestor == descendant
                        || self.ancestors.iter().any(|(a, d)| {
                            ancestor == format!("refs/heads/{a}")
                                && descendant == format!("refs/heads/{d}")
                        })
                }
                Inquiry::Head => return Ok(planning.resolved(self.head.to_owned())),
            };
            match planning.answered(yes) {
                Step::Ask(next) => planning = next,
                Step::Done(result) => return result,
            }
        }
    }
}

fn task(id: &str, status: &str, blocked_by: &[&str]) -> Result<String, String> {
    let blockers = blocked_by
        .iter()
        .map(|id| format!("\"{id}\""))
        .collect::<Vec<_>>()
        .join(",");
    Ok(format!(
        "{{\"id\":\"{id}\",\"title\":\"{id} task\",\"description\":\"Implement {id}\",\"status\":\"{status}\",\"sources\":[],\"metadata\":{{}},\"blocked_by\":[{blockers}]}}"
    ))
}

fn plan(tasks: Vec<Result<String, String>>) -> ScopedPlan {
    Queue::read("issues.jsonl".to_owned(), &tasks)
        .unwrap()
        .scope("root")
        .unwrap()
}

fn worktree() -> WorktreePlan {
    WorktreePlan {
        task_id: "t".to_owned(),
        branch: "agent-orchestrator/root/t".to_owned(),
        base: "b".to_owned(),
        path: "/w/repo.t".to_owned(),
    }
}

fn client() -> GitClient {
    GitClient::with_executable("/repo".to_owned(), "my-git".to_owned())
}

#[test]
fn worktree_uses_unique_descendant_blocker_branch_and_rejects_convergence() {
    let mut git = Git::new();
    git.branches = vec![
        "agent-orchestrator/root/a",
        "agent-orchestrator/root/b",
        "agent-orchestrator/root/c",
    ];
    git.ancestors = vec![
        ("agent-orchestrator/root/a", "agent-orchestrator/root/b"),
        ("agent-orchestrator/root/a", "agent-orchestrator/root/c"),
        ("agent-orchestrator/root/c", "agent-orchestrator/root/a"),
        ("agent-orchestrator/root/c", "agent-orchestrator/root/b"),
    ];
    let scoped = plan(vec![
        task("a", "closed", &[]),
        task("b", "closed", &["a"]),
        task("root", "pending", &["a", "b"]),
    ]);
    let planned = git.plan(&scoped, "root").unwrap();
    assert_eq!(planned.branch, "agent-orchestrator/root/root");
    assert_eq!(planned.base, "agent-orchestrator/root/b");
    assert_eq!(planned.path, "/fixtures/worktrees/repo.root");

    let scoped = plan(vec![
        task("a", "closed", &[]),
        task("c", "closed", &[]),
        task("root", "pending", &["a", "c"]),
    ]);
    let error = git.plan(&scoped, "root").unwrap_err();
    assert!(matches!(error, Error::AmbiguousBlockerBranches { .. }));
    assert!(error
        .message()
        .contains("no unique descendant blocker branch"));
    assert_eq!(
        error.message(),
        "task `root` has no unique descendant blocker branch among agent-orchestrator/root/a, agent-orchestrator/root/c"
    );
}

#[test]
fn worktree_bases_preclosed_blockers_without_retained_branches_on_head() {
    let mut git = Git::new();
    let scoped = plan(vec![
        task("legacy", "closed", &[]),
        task("root", "pending", &["legacy"]),
    ]);
    let planned = git.plan(&scoped, "root").unwrap();
    assert_eq!(planned.base, "head-commit");
}

#[test]
fn a_single_blocker_branch_is_the_base() {
    let mut git = Git::new();
    git.branches = vec!["agent-orchestrator/root/b"];
    let scoped = plan(vec![
        task("b", "closed", &[]),
        task("root", "pending", &["b"]),
    ]);
    let planned = git.plan(&scoped, "root").unwrap();
    assert_eq!(planned.base, "agent-orchestrator/root/b");
    assert_eq!(planned.task_id, "root");
    assert_eq!(git.asked, 3);
}

#[test]
fn blockers_have_all_their_branches_or_none() {
    let scoped = plan(vec![
        task("a", "closed", &[]),
        task("b", "closed", &[]),
        task("root", "pending", &["a", "b"]),
    ]);
    let mut git = Git::new();
    assert_eq!(git.plan(&scoped, "root").unwrap().base, "head-commit");
    for (there, missing) in [
        ("agent-orchestrator/root/a", "agent-orchestrator/root/b"),
        ("agent-orchestrator/root/b", "agent-orchestrator/root/a"),
    ] {
        git.branches = vec![there];
        let error = git.plan(&scoped, "root").unwrap_err();
        assert!(matches!(error, Error::MissingBranch { .. }));
        assert_eq!(
            error.message(),
            format!("required worker branch `{missing}` is missing")
        );
    }
}

#[test]
fn branches_that_diverge_are_ambiguous() {
    let mut git = Git::new();
    git.branches = vec!["agent-orchestrator/root/a", "agent-orchestrator/root/b"];
    let scoped = plan(vec![
        task("a", "closed", &[]),
        task("b", "closed", &[]),
        task("root", "pending", &["a", "b"]),
    ]);
    assert!(matches!(
        git.plan(&scoped, "root"),
        Err(Error::AmbiguousBlockerBranches { .. })
    ));
}

#[test]
fn taken_paths_and_branches_are_refused() {
    let scoped = plan(vec![task("root", "pending", &[])]);
    let mut git = Git::new();
    git.paths = vec!["/fixtures/worktrees/repo.root"];
    git.branches = vec!["agent-orchestrator/root/root"];
    let error = git.plan(&scoped, "root").unwrap_err();
    assert_eq!(
        error.message(),
        "worker worktree `/fixtures/worktrees/repo.root` already exists"
    );
    git.paths.clear();
    let error = git.plan(&scoped, "root").unwrap_err();
    assert_eq!(
        error.message(),
        "worker branch `agent-orchestrator/root/root` already exists"
    );
}

#[test]
fn only_ready_tasks_of_the_plan_get_a_worktree() {
    let scoped = plan(vec![
        task("a", "pending", &[]),
        task("root", "pending", &["a"]),
        task("other", "pending", &[]),
    ]);
    let mut git = Git::new();
    assert_eq!(
        git.plan(&scoped, "root").unwrap_err().message(),
        "cannot plan worktree for task `root` with status `blocked`"
    );
    assert_eq!(
        git.plan(&scoped, "other").unwrap_err().message(),
        "task `other` is outside root `root` scope"
    );
    assert_eq!(git.asked, 0);
    assert_eq!(
        ensure_closed(&scoped, "root", "a").unwrap_err().message(),
        "cannot base task `root` on blocker `a` with status `pending`"
    );
    assert!(matches!(
        ensure_closed(&scoped, "root", "other"),
        Err(Error::Sq(_))
    ));
}

#[test]
fn names_that_git_or_the_file_system_would_refuse_are_refused() {
    assert_eq!(branch_name("root", "a-b_c.d").unwrap(), "agent-orchestrator/root/a-b_c.d");
    for bad in [
        "", ".a", "a.", "a.lock", "a..b", "a@{b", "a b", "a~b", "a^b", "a:b", "a?b", "a*b", "a[b",
        "a\\b", "a/b", "a\u{7f}b", "a\tb",
    ] {
        let error = branch_name("root", bad).unwrap_err();
        assert_eq!(
            error.message(),
            format!("task ID `{bad}` is not safe in a Git branch")
        );
        assert_eq!(
            branch_name(bad, "t").unwrap_err().message(),
            format!("root task ID `{bad}` is not safe in a Git branch")
        );
    }
    for good in ["lock", "a.lockb", "a@b", "{", "\u{e9}", "a.b"] {
        assert!(branch_name("root", good).is_ok(), "{good}");
    }
    assert!(is_safe_in_path("..."));
    for bad in ["", ".", "..", "a/b", "a\\b"] {
        assert!(!is_safe_in_path(bad));
        assert_eq!(
            worktree_path("/w", "/repo", Some("repo"), bad).unwrap_err().message(),
            format!("task ID `{bad}` is not safe in a worktree path")
        );
    }
    assert_eq!(worktree_path("/w/", "/repo", Some("repo"), "t").unwrap(), "/w/repo.t");
    assert_eq!(worktree_path("", "/repo", Some("repo"), "t").unwrap(), "repo.t");
    assert_eq!(
        worktree_path("/w", "/", None, "t").unwrap_err().message(),
        "repository path `/` has no file name"
    );
    assert_eq!(
        worktree_path("/w", "/", Some(""), "t").unwrap_err().message(),
        "repository path `/` has no file name"
    );
}

#[test]
fn worktree_queue_link_is_absolute_external_and_idempotent() {
    let queue = "/fixtures/issues.jsonl";
    let step = |found: AtLink| create_queue_link("/fixtures/repo.task", queue, false, &found);
    assert_eq!(step(AtLink::Nothing).unwrap(), LinkStep::Create);
    assert_eq!(step(AtLink::Link(queue.to_owned())).unwrap(), LinkStep::Keep);
    assert_eq!(
        queue_link("/fixtures/repo.task"),
        "/fixtures/repo.task/.sift/issues.jsonl"
    );
    verify_queue_link(
        "/fixtures/repo.task",
        Ok(queue.to_owned()),
        true,
        Some(ExpectedQueue {
            queue: queue.to_owned(),
            canonical: Ok(queue.to_owned()),
        }),
    )
    .unwrap();
}

#[test]
fn worktree_replaces_a_tracked_queue_copy_without_dirtying_the_index() {
    let client = client();
    let found = AtLink::Other { versioned: true };
    assert_eq!(
        create_queue_link("/fixtures/repo.task", "/fixtures/issues.jsonl", false, &found).unwrap(),
        LinkStep::Replace
    );
    assert_eq!(
        client.queue_tracked("/fixtures/repo.task"),
        [
            "-C",
            "/fixtures/repo.task",
            "ls-files",
            "--error-unmatch",
            "--",
            ".sift/issues.jsonl"
        ]
    );
    assert_eq!(
        client.skip_queue("/fixtures/repo.task"),
        [
            "-C",
            "/fixtures/repo.task",
            "update-index",
            "--skip-worktree",
            "--",
            ".sift/issues.jsonl"
        ]
    );
}

#[test]
fn links_that_cannot_be_had_are_refused() {
    let refused = |inside: bool, found: AtLink| {
        create_queue_link("/w/repo.t", "/q/issues.jsonl", inside, &found)
            .unwrap_err()
            .message()
    };
    assert_eq!(
        refused(true, AtLink::Nothing),
        "canonical queue `/q/issues.jsonl` must be outside worker worktree `/w/repo.t`"
    );
    let exists = "refusing to replace existing worker queue path `/w/repo.t/.sift/issues.jsonl`";
    assert_eq!(refused(false, AtLink::Link("/other".to_owned())), exists);
    assert_eq!(refused(false, AtLink::Other { versioned: false }), exists);
}

#[test]
fn retained_links_are_held_to_the_queue() {
    let verify = |target: Result<&str, &str>, absolute: bool, canonical: Option<Result<&str, &str>>| {
        verify_queue_link(
            "/w",
            target.map(str::to_owned).map_err(str::to_owned),
            absolute,
            canonical.map(|canonical| ExpectedQueue {
                queue: "/q".to_owned(),
                canonical: canonical.map(str::to_owned).map_err(str::to_owned),
            }),
        )
    };
    assert!(verify(Ok("/q"), true, None).is_ok());
    assert!(verify(Ok("/q"), true, Some(Ok("/q"))).is_ok());
    assert_eq!(
        verify(Err("gone"), true, None).unwrap_err().message(),
        "cannot read retained queue symlink `/w/.sift/issues.jsonl`: gone"
    );
    assert_eq!(
        verify(Ok("q"), false, None).unwrap_err().message(),
        "retained queue symlink `/w/.sift/issues.jsonl` has relative target `q`"
    );
    assert_eq!(
        verify(Ok("/q"), true, Some(Err("gone"))).unwrap_err().message(),
        "cannot canonicalize `/q`: gone"
    );
    assert_eq!(
        verify(Ok("/p"), true, Some(Ok("/q"))).unwrap_err().message(),
        "retained queue symlink `/w/.sift/issues.jsonl` targets `/p`, expected `/q`"
    );
}

#[test]
fn retained_worktrees_are_held_to_their_branch() {
    let client = client();
    let verify = |is_directory: bool, exists: bool, current: &str| {
        client
            .verify_retained(
                &worktree(),
                is_directory,
                Ok(exists),
                Ok(current.to_owned()),
                Ok(()),
            )
            .map_err(|error| error.message())
    };
    assert_eq!(verify(true, true, "agent-orchestrator/root/t"), Ok(()));
    assert_eq!(
        verify(false, false, "x"),
        Err("retained worker worktree `/w/repo.t` is missing".to_owned())
    );
    assert_eq!(
        verify(true, false, "x"),
        Err("required worker branch `agent-orchestrator/root/t` is missing".to_owned())
    );
    assert_eq!(
        verify(true, true, "main"),
        Err("retained worktree `/w/repo.t` is on branch `main`, expected `agent-orchestrator/root/t`".to_owned())
    );
    let error = client
        .verify_retained(
            &worktree(),
            true,
            Ok(true),
            Ok("agent-orchestrator/root/t".to_owned()),
            Err(Error::QueueLinkExists {
                path: "l".to_owned(),
            }),
        )
        .unwrap_err();
    assert!(matches!(error, Error::QueueLinkExists { .. }));
}

#[test]
fn deliverables_are_checked_where_they_are() {
    let client = client();
    assert!(matches!(
        report_deliverable(Some(" abc \n"), Some("out")),
        Deliverable::Commit(commit) if commit == "abc"
    ));
    assert!(matches!(
        report_deliverable(Some(" "), Some("out")),
        Deliverable::Artifact(artifact) if artifact == "out"
    ));
    assert_eq!(artifact_path(&worktree(), "out", false), "/w/repo.t/out");
    assert_eq!(artifact_path(&worktree(), "/out", true), "/out");
    let artifact = |exists: bool| {
        client.verify_report_deliverable(
            &worktree(),
            Inspected::Artifact {
                path: "/out".to_owned(),
                exists,
            },
        )
    };
    assert!(artifact(true).is_ok());
    assert_eq!(
        artifact(false).unwrap_err().message(),
        "reported artifact `/out` does not exist"
    );
    assert_eq!(
        client.branch_reference(&worktree()),
        "refs/heads/agent-orchestrator/root/t"
    );
    let commit = |resolved: Result<String, Error>, on_branch: Result<bool, Error>| {
        client.verify_report_deliverable(
            &worktree(),
            Inspected::Commit {
                commit: "abc".to_owned(),
                resolved,
                on_branch,
            },
        )
    };
    assert!(commit(Ok("abc".to_owned()), Ok(true)).is_ok());
    assert_eq!(
        commit(Ok("abc".to_owned()), Ok(false)).unwrap_err().message(),
        "reported commit `abc` is not reachable from worker branch `agent-orchestrator/root/t`"
    );
    assert!(matches!(
        commit(Err(Error::EmptyOutput { operation: "x" }), Ok(true)),
        Err(Error::EmptyOutput { .. })
    ));
}

#[test]
fn git_is_asked_and_answers() {
    let client = client();
    assert_eq!(
        client.branch_exists("b"),
        ["-C", "/repo", "show-ref", "--verify", "--quiet", "refs/heads/b"]
    );
    assert_eq!(
        client.resolve_commit("HEAD"),
        ["-C", "/repo", "rev-parse", "--verify", "HEAD^{commit}"]
    );
    assert_eq!(
        client.is_ancestor("a", "b"),
        ["-C", "/repo", "merge-base", "--is-ancestor", "a", "b"]
    );
    assert_eq!(
        client.current_branch("/w"),
        ["-C", "/w", "symbolic-ref", "--short", "HEAD"]
    );
    let ran = |code: Option<i32>| {
        Ok(Finished {
            success: code == Some(0),
            code,
            status: "status".to_owned(),
            stdout: b"x".to_vec(),
            stderr: " bad ref ".to_owned(),
        })
    };
    assert!(client.answer("checking Git branch", ran(Some(0))).unwrap());
    assert!(!client.answer("checking Git branch", ran(Some(1))).unwrap());
    assert_eq!(
        client.answer("checking Git branch", ran(Some(128))).unwrap_err().message(),
        "Git failed while checking Git branch (status): bad ref"
    );
    assert!(client.answer("checking Git branch", ran(None)).is_err());
    assert_eq!(
        client.answer("checking Git branch", Err("gone".to_owned())).unwrap_err().message(),
        "cannot start Git executable `my-git` while checking Git branch: gone"
    );
    assert_eq!(client.output("x", ran(Some(0))).unwrap().stdout, b"x");
    assert!(client.output("x", ran(Some(1))).is_err());
    assert_eq!(output_text(" abc\n", "resolving Git commit").unwrap(), "abc");
    assert_eq!(
        output_text(" \n", "resolving Git commit").unwrap_err().message(),
        "Git returned empty output while resolving Git commit"
    );
    let configured = GitClient::configured("/r".to_owned(), None);
    assert_eq!(configured.executable(), "git");
    assert_eq!(configured.repo(), "/r");
}
