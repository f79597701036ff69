//! Git worktrees: where a task is worked on, on which branch, and what that branch is based on.
use vstd::prelude::*;
use crate::command::{failure_detail, failure_text, Finished};
use crate::outcome::{seen, shown};
use crate::paths::{below, path_below};
use crate::sq;
use crate::sq::{
    configured_executable, executable_or, PlanView, ScopedPlan, TaskStatus,
};
use crate::text::{
    blank, chars_of, copy_texts, has, is_blank, join, joined, occurs, occurs_at, same, stands_at,
    texts, trim, trimmed,
};

verus! {

/// The environment variable that names the Git executable.
pub const GIT_EXECUTABLE_ENV: &'static str = "AGENT_ORCHESTRATOR_GIT";

// ---------------------------------------------------------------------------------------------
// Errors

/// Why work with Git and worktrees cannot go on.
#[derive(Debug)]
#[allow(inconsistent_fields)]
pub enum Error {
    Sq(sq::Error),
    TaskOutsideScope { task_id: String, root_task_id: String },
    TaskNotReady { task_id: String, status: TaskStatus },
    BlockerNotClosed { task_id: String, blocker_id: String, status: TaskStatus },
    InvalidRefComponent { kind: &'static str, value: String },
    InvalidPathComponent { value: String },
    InvalidRepositoryPath { path: String },
    WorktreeExists { path: String },
    MissingWorktree { path: String },
    BranchExists { branch: String },
    MissingBranch { branch: String },
    AmbiguousBlockerBranches { task_id: String, branches: Vec<String> },
    WorktreeBranchMismatch { path: String, expected: String, actual: String },
    CommitOutsideBranch { commit: String, branch: String },
    MissingArtifact { path: String },
    Start { executable: String, operation: &'static str, source: String },
    CommandFailed { operation: &'static str, status: String, detail: String },
    EmptyOutput { operation: &'static str },
    Canonicalize { path: String, source: String },
    QueueInsideWorktree { queue: String, worktree: String },
    QueueLinkExists { path: String },
    CreateQueueLinkDirectory { path: String, source: String },
    CreateQueueLink { path: String, target: String, source: String },
    RemoveQueueCopy { path: String, source: String },
    ReadQueueLink { path: String, source: String },
    RelativeQueueLink { path: String, target: String },
    QueueLinkMismatch { path: String, expected: String, actual: String },
}

/// What an error says.
#[allow(inconsistent_fields)]
pub enum ErrorView {
    Sq(sq::ErrorView),
    TaskOutsideScope { task_id: Seq<char>, root_task_id: Seq<char> },
    TaskNotReady { task_id: Seq<char>, status: TaskStatus },
    BlockerNotClosed { task_id: Seq<char>, blocker_id: Seq<char>, status: TaskStatus },
    InvalidRefComponent { kind: Seq<char>, value: Seq<char> },
    InvalidPathComponent { value: Seq<char> },
    InvalidRepositoryPath { path: Seq<char> },
    WorktreeExists { path: Seq<char> },
    MissingWorktree { path: Seq<char> },
    BranchExists { branch: Seq<char> },
    MissingBranch { branch: Seq<char> },
    AmbiguousBlockerBranches { task_id: Seq<char>, branches: Seq<Seq<char>> },
    WorktreeBranchMismatch { path: Seq<char>, expected: Seq<char>, actual: Seq<char> },
    CommitOutsideBranch { commit: Seq<char>, branch: Seq<char> },
    MissingArtifact { path: Seq<char> },
    Start { executable: Seq<char>, operation: Seq<char>, source: Seq<char> },
    CommandFailed { operation: Seq<char>, status: Seq<char>, detail: Seq<char> },
    EmptyOutput { operation: Seq<char> },
    Canonicalize { path: Seq<char>, source: Seq<char> },
    QueueInsideWorktree { queue: Seq<char>, worktree: Seq<char> },
    QueueLinkExists { path: Seq<char> },
    CreateQueueLinkDirectory { path: Seq<char>, source: Seq<char> },
    CreateQueueLink { path: Seq<char>, target: Seq<char>, source: Seq<char> },
    RemoveQueueCopy { path: Seq<char>, source: Seq<char> },
    ReadQueueLink { path: Seq<char>, source: Seq<char> },
    RelativeQueueLink { path: Seq<char>, target: Seq<char> },
    QueueLinkMismatch { path: Seq<char>, expected: Seq<char>, actual: Seq<char> },
}

impl View for Error {
    type V = ErrorView;

    open spec fn view(&self) -> ErrorView {
        match *self {
            Error::Sq(error) => ErrorView::Sq(error@),
            Error::TaskOutsideScope { task_id, root_task_id } => ErrorView::TaskOutsideScope {
                task_id: task_id@,
                root_task_id: root_task_id@,
            },
            Error::TaskNotReady { task_id, status } => ErrorView::TaskNotReady {
                task_id: task_id@,
                status,
            },
            Error::BlockerNotClosed { task_id, blocker_id, status } => ErrorView::BlockerNotClosed {
                task_id: task_id@,
                blocker_id: blocker_id@,
                status,
            },
            Error::InvalidRefComponent { kind, value } => ErrorView::InvalidRefComponent {
                kind: kind@,
                value: value@,
            },
            Error::InvalidPathComponent { value } => ErrorView::InvalidPathComponent {
                value: value@,
            },
            Error::InvalidRepositoryPath { path } => ErrorView::InvalidRepositoryPath {
                path: path@,
            },
            Error::WorktreeExists { path } => ErrorView::WorktreeExists {
                path: path@,
            },
            Error::MissingWorktree { path } => ErrorView::MissingWorktree {
                path: path@,
            },
            Error::BranchExists { branch } => ErrorView::BranchExists {
                branch: branch@,
            },
            Error::MissingBranch { branch } => ErrorView::MissingBranch {
                branch: branch@,
            },
            Error::AmbiguousBlockerBranches { task_id, branches } =>
                ErrorView::AmbiguousBlockerBranches {
                task_id: task_id@,
                branches: texts(branches@),
            },
            Error::WorktreeBranchMismatch { path, expected, actual } =>
                ErrorView::WorktreeBranchMismatch {
                path: path@,
                expected: expected@,
                actual: actual@,
            },
            Error::CommitOutsideBranch { commit, branch } => ErrorView::CommitOutsideBranch {
                commit: commit@,
                branch: branch@,
            },
            Error::MissingArtifact { path } => ErrorView::MissingArtifact {
                path: path@,
            },
            Error::Start { executable, operation, source } => ErrorView::Start {
                executable: executable@,
                operation: operation@,
                source: source@,
            },
            Error::CommandFailed { operation, status, detail } => ErrorView::CommandFailed {
                operation: operation@,
                status: status@,
                detail: detail@,
            },
            Error::EmptyOutput { operation } => ErrorView::EmptyOutput {
                operation: operation@,
            },
            Error::Canonicalize { path, source } => ErrorView::Canonicalize {
                path: path@,
                source: source@,
            },
            Error::QueueInsideWorktree { queue, worktree } => ErrorView::QueueInsideWorktree {
                queue: queue@,
                worktree: worktree@,
            },
            Error::QueueLinkExists { path } => ErrorView::QueueLinkExists {
                path: path@,
            },
            Error::CreateQueueLinkDirectory { path, source } => ErrorView::CreateQueueLinkDirectory {
                path: path@,
                source: source@,
            },
            Error::CreateQueueLink { path, target, source } => ErrorView::CreateQueueLink {
                path: path@,
                target: target@,
                source: source@,
            },
            Error::RemoveQueueCopy { path, source } => ErrorView::RemoveQueueCopy {
                path: path@,
                source: source@,
            },
            Error::ReadQueueLink { path, source } => ErrorView::ReadQueueLink {
                path: path@,
                source: source@,
            },
            Error::RelativeQueueLink { path, target } => ErrorView::RelativeQueueLink {
                path: path@,
                target: target@,
            },
            Error::QueueLinkMismatch { path, expected, actual } => ErrorView::QueueLinkMismatch {
                path: path@,
                expected: expected@,
                actual: actual@,
            },
        }
    }
}

impl ErrorView {
    /// The message for an error.
    pub open spec fn message(self) -> Seq<char> {
        match self {
            ErrorView::Sq(error) => error.message(),
            ErrorView::TaskOutsideScope { task_id, root_task_id } => "task `"@
                + task_id
                + "` is outside root `"@
                + root_task_id
                + "` scope"@,
            ErrorView::TaskNotReady { task_id, status } => "cannot plan worktree for task `"@
                + task_id
                + "` with status `"@
                + status.word()
                + "`"@,
            ErrorView::BlockerNotClosed { task_id, blocker_id, status } => "cannot base task `"@
                + task_id
                + "` on blocker `"@
                + blocker_id
                + "` with status `"@
                + status.word()
                + "`"@,
            ErrorView::InvalidRefComponent { kind, value } => kind
                + " ID `"@
                + value
                + "` is not safe in a Git branch"@,
            ErrorView::InvalidPathComponent { value } => "task ID `"@
                + value
                + "` is not safe in a worktree path"@,
            ErrorView::InvalidRepositoryPath { path } => "repository path `"@
                + path
                + "` has no file name"@,
            ErrorView::WorktreeExists { path } => "worker worktree `"@
                + path
                + "` already exists"@,
            ErrorView::MissingWorktree { path } => "retained worker worktree `"@
                + path
                + "` is missing"@,
            ErrorView::BranchExists { branch } => "worker branch `"@
                + branch
                + "` already exists"@,
            ErrorView::MissingBranch { branch } => "required worker branch `"@
                + branch
                + "` is missing"@,
            ErrorView::AmbiguousBlockerBranches { task_id, branches } => "task `"@
                + task_id
                + "` has no unique descendant blocker branch among "@
                + joined(branches, ", "@),
            ErrorView::WorktreeBranchMismatch { path, expected, actual } => "retained worktree `"@
                + path
                + "` is on branch `"@
                + actual
                + "`, expected `"@
                + expected
                + "`"@,
            ErrorView::CommitOutsideBranch { commit, branch } => "reported commit `"@
                + commit
                + "` is not reachable from worker branch `"@
                + branch
                + "`"@,
            ErrorView::MissingArtifact { path } => "reported artifact `"@
                + path
                + "` does not exist"@,
            ErrorView::Start { executable, operation, source } => "cannot start Git executable `"@
                + executable
                + "` while "@
                + operation
                + ": "@
                + source,
            ErrorView::CommandFailed { operation, status, detail } => "Git failed while "@
                + operation
                + " ("@
                + status
                + "): "@
                + detail,
            ErrorView::EmptyOutput { operation } => "Git returned empty output while "@
                + operation,
            ErrorView::Canonicalize { path, source } => "cannot canonicalize `"@
                + path
                + "`: "@
                + source,
            ErrorView::QueueInsideWorktree { queue, worktree } => "canonical queue `"@
                + queue
                + "` must be outside worker worktree `"@
                + worktree
                + "`"@,
            ErrorView::QueueLinkExists { path } => "refusing to replace existing worker queue path `"@
                + path
                + "`"@,
            ErrorView::CreateQueueLinkDirectory { path, source } =>
                "cannot create worker queue directory `"@
                + path
                + "`: "@
                + source,
            ErrorView::CreateQueueLink { path, target, source } => "cannot create queue symlink `"@
                + path
                + "` -> `"@
                + target
                + "`: "@
                + source,
            ErrorView::RemoveQueueCopy { path, source } => "cannot replace worker queue copy `"@
                + path
                + "`: "@
                + source,
            ErrorView::ReadQueueLink { path, source } => "cannot read retained queue symlink `"@
                + path
                + "`: "@
                + source,
            ErrorView::RelativeQueueLink { path, target } => "retained queue symlink `"@
                + path
                + "` has relative target `"@
                + target
                + "`"@,
            ErrorView::QueueLinkMismatch { path, expected, actual } => "retained queue symlink `"@
                + path
                + "` targets `"@
                + actual
                + "`, expected `"@
                + expected
                + "`"@,
        }
    }
}

impl Error {
    /// The message for an error.
    pub fn message(&self) -> (r: String)
        ensures
            r@ == self@.message(),
    {
        match self {
            Error::Sq(error) => error.message(),
            Error::TaskOutsideScope { task_id, root_task_id } => {
                let mut m = "task `".to_owned();
                m.append(task_id.as_str());
                m.append("` is outside root `");
                m.append(root_task_id.as_str());
                m.append("` scope");
                m
            },
            Error::TaskNotReady { task_id, status } => {
                let mut m = "cannot plan worktree for task `".to_owned();
                m.append(task_id.as_str());
                m.append("` with status `");
                m.append(status.as_str());
                m.append("`");
                m
            },
            Error::BlockerNotClosed { task_id, blocker_id, status } => {
                let mut m = "cannot base task `".to_owned();
                m.append(task_id.as_str());
                m.append("` on blocker `");
                m.append(blocker_id.as_str());
                m.append("` with status `");
                m.append(status.as_str());
                m.append("`");
                m
            },
            Error::InvalidRefComponent { kind, value } => {
                let mut m = (*kind).to_owned();
                m.append(" ID `");
                m.append(value.as_str());
                m.append("` is not safe in a Git branch");
                m
            },
            Error::InvalidPathComponent { value } => {
                let mut m = "task ID `".to_owned();
                m.append(value.as_str());
                m.append("` is not safe in a worktree path");
                m
            },
            Error::InvalidRepositoryPath { path } => {
                let mut m = "repository path `".to_owned();
                m.append(path.as_str());
                m.append("` has no file name");
                m
            },
            Error::WorktreeExists { path } => {
                let mut m = "worker worktree `".to_owned();
                m.append(path.as_str());
                m.append("` already exists");
                m
            },
            Error::MissingWorktree { path } => {
                let mut m = "retained worker worktree `".to_owned();
                m.append(path.as_str());
                m.append("` is missing");
                m
            },
            Error::BranchExists { branch } => {
                let mut m = "worker branch `".to_owned();
                m.append(branch.as_str());
                m.append("` already exists");
                m
            },
            Error::MissingBranch { branch } => {
                let mut m = "required worker branch `".to_owned();
                m.append(branch.as_str());
                m.append("` is missing");
                m
            },
            Error::AmbiguousBlockerBranches { task_id, branches } => {
                let mut m = "task `".to_owned();
                m.append(task_id.as_str());
                m.append("` has no unique descendant blocker branch among ");
                m.append(join(branches, ", ").as_str());
                m
            },
            Error::WorktreeBranchMismatch { path, expected, actual } => {
                let mut m = "retained worktree `".to_owned();
                m.append(path.as_str());
                m.append("` is on branch `");
                m.append(actual.as_str());
                m.append("`, expected `");
                m.append(expected.as_str());
                m.append("`");
                m
            },
            Error::CommitOutsideBranch { commit, branch } => {
                let mut m = "reported commit `".to_owned();
                m.append(commit.as_str());
                m.append("` is not reachable from worker branch `");
                m.append(branch.as_str());
                m.append("`");
                m
            },
            Error::MissingArtifact { path } => {
                let mut m = "reported artifact `".to_owned();
                m.append(path.as_str());
                m.append("` does not exist");
                m
            },
            Error::Start { executable, operation, source } => {
                let mut m = "cannot start Git executable `".to_owned();
                m.append(executable.as_str());
                m.append("` while ");
                m.append(operation);
                m.append(": ");
                m.append(source.as_str());
                m
            },
            Error::CommandFailed { operation, status, detail } => {
                let mut m = "Git failed while ".to_owned();
                m.append(operation);
                m.append(" (");
                m.append(status.as_str());
                m.append("): ");
                m.append(detail.as_str());
                m
            },
            Error::EmptyOutput { operation } => {
                let mut m = "Git returned empty output while ".to_owned();
                m.append(operation);
                m
            },
            Error::Canonicalize { path, source } => {
                let mut m = "cannot canonicalize `".to_owned();
                m.append(path.as_str());
                m.append("`: ");
                m.append(source.as_str());
                m
            },
            Error::QueueInsideWorktree { queue, worktree } => {
                let mut m = "canonical queue `".to_owned();
                m.append(queue.as_str());
                m.append("` must be outside worker worktree `");
                m.append(worktree.as_str());
                m.append("`");
                m
            },
            Error::QueueLinkExists { path } => {
                let mut m = "refusing to replace existing worker queue path `".to_owned();
                m.append(path.as_str());
                m.append("`");
                m
            },
            Error::CreateQueueLinkDirectory { path, source } => {
                let mut m = "cannot create worker queue directory `".to_owned();
                m.append(path.as_str());
                m.append("`: ");
                m.append(source.as_str());
                m
            },
            Error::CreateQueueLink { path, target, source } => {
                let mut m = "cannot create queue symlink `".to_owned();
                m.append(path.as_str());
                m.append("` -> `");
                m.append(target.as_str());
                m.append("`: ");
                m.append(source.as_str());
                m
            },
            Error::RemoveQueueCopy { path, source } => {
                let mut m = "cannot replace worker queue copy `".to_owned();
                m.append(path.as_str());
                m.append("`: ");
                m.append(source.as_str());
                m
            },
            Error::ReadQueueLink { path, source } => {
                let mut m = "cannot read retained queue symlink `".to_owned();
                m.append(path.as_str());
                m.append("`: ");
                m.append(source.as_str());
                m
            },
            Error::RelativeQueueLink { path, target } => {
                let mut m = "retained queue symlink `".to_owned();
                m.append(path.as_str());
                m.append("` has relative target `");
                m.append(target.as_str());
                m.append("`");
                m
            },
            Error::QueueLinkMismatch { path, expected, actual } => {
                let mut m = "retained queue symlink `".to_owned();
                m.append(path.as_str());
                m.append("` targets `");
                m.append(actual.as_str());
                m.append("`, expected `");
                m.append(expected.as_str());
                m.append("`");
                m
            },
        }
    }
}

// ---------------------------------------------------------------------------------------------
// Names of branches and worktrees

/// A character that Git takes in any branch.
pub open spec fn safe_branch_char(c: char) -> bool {
    c > ' ' && c != '\u{7f}' && c != '~' && c != '^' && c != ':' && c != '?' && c != '*' && c != '['
        && c != '\\' && c != '/'
}

/// A text that can stand between the slashes of a branch.
pub open spec fn safe_in_branch(s: Seq<char>) -> bool {
    &&& s.len() > 0
    &&& s[0] != '.'
    &&& s.last() != '.'
    &&& !occurs_at(s, ".lock"@, s.len() - 5)
    &&& !occurs(s, ".."@)
    &&& !occurs(s, "@{"@)
    &&& forall|i: int| 0 <= i < s.len() ==> safe_branch_char(#[trigger] s[i])
}

/// A text that can be a part of a path.
pub open spec fn safe_in_path(s: Seq<char>) -> bool {
    &&& s.len() > 0
    &&& s != "."@
    &&& s != ".."@
    &&& forall|i: int| 0 <= i < s.len() ==> #[trigger] s[i] != '/' && s[i] != '\\'
}

/// The branch for a task, or why there is none.
pub open spec fn branch_for(root_task_id: Seq<char>, task_id: Seq<char>) -> Result<
    Seq<char>,
    ErrorView,
> {
    if !safe_in_branch(root_task_id) {
        Err(ErrorView::InvalidRefComponent { kind: "root task"@, value: root_task_id })
    } else if !safe_in_branch(task_id) {
        Err(ErrorView::InvalidRefComponent { kind: "task"@, value: task_id })
    } else {
        Ok("agent-orchestrator/"@ + root_task_id + "/"@ + task_id)
    }
}

/// Whether Git takes a character in any branch.
fn is_safe_branch_char(c: char) -> (r: bool)
    ensures
        r == safe_branch_char(c),
{
    c > ' ' && c != '\u{7f}' && c != '~' && c != '^' && c != ':' && c != '?' && c != '*' && c != '['
        && c != '\\' && c != '/'
}

/// Whether a text can stand between the slashes of a branch.
fn is_safe_in_branch(value: &str) -> (r: bool)
    ensures
        r == safe_in_branch(value@),
{
    let chars = chars_of(value);
    let n = chars.len();
    if n == 0 || chars[0] == '.' || chars[n - 1] == '.' {
        return false;
    }
    proof {
        reveal_strlit(".lock");
    }
    if n >= 5 && stands_at(&chars, &chars_of(".lock"), n - 5) {
        return false;
    }
    if has(&chars, &chars_of("..")) || has(&chars, &chars_of("@{")) {
        return false;
    }
    let mut i: usize = 0;
    while i < n
        invariant
            i <= n == chars.len(),
            chars@ == value@,
            forall|j: int| 0 <= j < i ==> safe_branch_char(#[trigger] value@[j]),
        decreases n - i,
    {
        if !is_safe_branch_char(chars[i]) {
            assert(!safe_branch_char(value@[i as int]));
            return false;
        }
        i += 1;
    }
    true
}

/// Refuses a text that cannot stand between the slashes of a branch.
fn validate_ref_component(kind: &'static str, value: &str) -> (r: Result<(), Error>)
    ensures
        r is Ok <==> safe_in_branch(value@),
        r matches Err(e) ==> e@ == (ErrorView::InvalidRefComponent { kind: kind@, value: value@ }),
{
    if is_safe_in_branch(value) {
        Ok(())
    } else {
        Err(Error::InvalidRefComponent { kind, value: value.to_owned() })
    }
}

/// Whether a text can be a part of a path.
pub fn is_safe_in_path(value: &str) -> (r: bool)
    ensures
        r == safe_in_path(value@),
{
    if value.is_empty() || same(value, ".") || same(value, "..") {
        return false;
    }
    let chars = chars_of(value);
    let mut i: usize = 0;
    while i < chars.len()
        invariant
            i <= chars.len(),
            chars@ == value@,
            forall|j: int| 0 <= j < i ==> #[trigger] value@[j] != '/' && value@[j] != '\\',
        decreases chars.len() - i,
    {
        if chars[i] == '/' || chars[i] == '\\' {
            assert(value@[i as int] == '/' || value@[i as int] == '\\');
            return false;
        }
        i += 1;
    }
    true
}

/// Refuses a text that cannot be a part of a path.
fn validate_path_component(value: &str) -> (r: Result<(), Error>)
    ensures
        r is Ok <==> safe_in_path(value@),
        r matches Err(e) ==> e@ == (ErrorView::InvalidPathComponent { value: value@ }),
{
    if is_safe_in_path(value) {
        Ok(())
    } else {
        Err(Error::InvalidPathComponent { value: value.to_owned() })
    }
}

/// The branch for a task of a root.
pub fn branch_name(root_task_id: &str, task_id: &str) -> (r: Result<String, Error>)
    ensures
        seen(r) == branch_for(root_task_id@, task_id@),
{
    validate_ref_component("root task", root_task_id)?;
    validate_ref_component("task", task_id)?;
    let mut branch = "agent-orchestrator/".to_owned();
    branch.append(root_task_id);
    branch.append("/");
    branch.append(task_id);
    Ok(branch)
}

/// The worktree for a task, or why there is none.
pub open spec fn worktree_for(
    worktree_root: Seq<char>,
    repo: Seq<char>,
    repo_name: Option<Seq<char>>,
    task_id: Seq<char>,
) -> Result<Seq<char>, ErrorView> {
    if !safe_in_path(task_id) {
        Err(ErrorView::InvalidPathComponent { value: task_id })
    } else if repo_name is Some && repo_name->0.len() > 0 {
        Ok(below(worktree_root, repo_name->0 + "."@ + task_id))
    } else {
        Err(ErrorView::InvalidRepositoryPath { path: repo })
    }
}

/// The worktree for a task: below the root of the worktrees, named after the repository and the
/// task. `repo_name` is the last part of the path of the repository.
pub fn worktree_path(worktree_root: &str, repo: &str, repo_name: Option<&str>, task_id: &str) -> (r:
    Result<String, Error>)
    ensures
        seen(r) == worktree_for(worktree_root@, repo@, shown(repo_name), task_id@),
{
    validate_path_component(task_id)?;
    if let Some(name) = repo_name {
        if !name.is_empty() {
            let mut directory = name.to_owned();
            directory.append(".");
            directory.append(task_id);
            return Ok(path_below(worktree_root, directory.as_str()));
        }
    }
    Err(Error::InvalidRepositoryPath { path: repo.to_owned() })
}

/// Tasks have different branches: the branch tells the root and the task.
pub proof fn branches_tell_their_tasks(
    root_a: Seq<char>,
    task_a: Seq<char>,
    root_b: Seq<char>,
    task_b: Seq<char>,
)
    requires
        branch_for(root_a, task_a) is Ok,
        branch_for(root_a, task_a) == branch_for(root_b, task_b),
    ensures
        root_a == root_b,
        task_a == task_b,
{
    reveal_strlit("agent-orchestrator/");
    reveal_strlit("/");
    let prefix = "agent-orchestrator/"@;
    let n = prefix.len() as int;
    let a = prefix + root_a + "/"@ + task_a;
    let b = prefix + root_b + "/"@ + task_b;
    assert(a == b);
    assert(a[n + root_a.len()] == '/');
    assert(b[n + root_b.len()] == '/');
    if root_a.len() < root_b.len() {
        assert(b[n + root_a.len()] == root_b[root_a.len() as int]);
        assert(safe_branch_char(root_b[root_a.len() as int]));
    } else if root_b.len() < root_a.len() {
        assert(a[n + root_b.len()] == root_a[root_b.len() as int]);
        assert(safe_branch_char(root_a[root_b.len() as int]));
    }
    assert(root_a =~= a.subrange(n, n + root_a.len()));
    assert(root_b =~= b.subrange(n, n + root_a.len()));
    assert(task_a =~= a.skip(n + root_a.len() + 1));
    assert(task_b =~= b.skip(n + root_a.len() + 1));
}

/// Tasks of a repository have different worktrees.
pub proof fn worktrees_tell_their_tasks(
    worktree_root: Seq<char>,
    repo: Seq<char>,
    repo_name: Option<Seq<char>>,
    task_a: Seq<char>,
    task_b: Seq<char>,
)
    requires
        worktree_for(worktree_root, repo, repo_name, task_a) is Ok,
        worktree_for(worktree_root, repo, repo_name, task_a) == worktree_for(
            worktree_root,
            repo,
            repo_name,
            task_b,
        ),
    ensures
        task_a == task_b,
{
    let name = repo_name->0;
    let a = name + "."@ + task_a;
    let b = name + "."@ + task_b;
    let skipped = if worktree_root.len() == 0 {
        0int
    } else if worktree_root.last() == '/' {
        worktree_root.len() as int
    } else {
        (worktree_root.len() + "/"@.len()) as int
    };
    assert(a =~= below(worktree_root, a).skip(skipped));
    assert(b =~= below(worktree_root, b).skip(skipped));
    let n = name.len() + "."@.len();
    assert(task_a =~= a.skip(n as int));
    assert(task_b =~= b.skip(n as int));
}

// ---------------------------------------------------------------------------------------------
// Planning a worktree

/// Where a task is worked on: its branch, what the branch is based on, and the worktree.
#[derive(Debug)]
pub struct WorktreePlan {
    pub task_id: String,
    pub branch: String,
    pub base: String,
    pub path: String,
}

/// What a plan for a worktree says.
pub struct WorktreeView {
    pub task_id: Seq<char>,
    pub branch: Seq<char>,
    pub base: Seq<char>,
    pub path: Seq<char>,
}

impl View for WorktreePlan {
    type V = WorktreeView;

    open spec fn view(&self) -> WorktreeView {
        WorktreeView {
            task_id: self.task_id@,
            branch: self.branch@,
            base: self.base@,
            path: self.path@,
        }
    }
}

impl Clone for WorktreePlan {
    fn clone(&self) -> (r: Self)
        ensures
            r == *self,
    {
        WorktreePlan {
            task_id: self.task_id.clone(),
            branch: self.branch.clone(),
            base: self.base.clone(),
            path: self.path.clone(),
        }
    }
}

/// What planning a worktree finds out: whether its path is taken, the branches, the commit at
/// `HEAD`, and which reference is an ancestor of which.
pub struct GitView {
    pub path_taken: bool,
    pub branches: Set<Seq<char>>,
    pub head: Seq<char>,
    pub ancestry: Set<(Seq<char>, Seq<char>)>,
}

/// The reference to a branch.
pub open spec fn ref_to(branch: Seq<char>) -> Seq<char> {
    "refs/heads/"@ + branch
}

/// The reference to a branch.
fn reference_to(branch: &str) -> (r: String)
    ensures
        r@ == ref_to(branch@),
{
    let mut r = "refs/heads/".to_owned();
    r.append(branch);
    r
}

/// The branches of blockers, added to those that were found of the blockers before: either each
/// blocker has its branch, or none has. `missing` is the first branch that is not there.
pub open spec fn branches_from(
    root: Seq<char>,
    blockers: Seq<Seq<char>>,
    found: Seq<Seq<char>>,
    missing: Option<Seq<char>>,
    git: GitView,
) -> Result<Seq<Seq<char>>, ErrorView>
    decreases blockers.len(),
{
    if blockers.len() == 0 {
        Ok(found)
    } else {
        match branch_for(root, blockers[0]) {
            Err(error) => Err(error),
            Ok(branch) => if git.branches.contains(branch) {
                match missing {
                    Some(missing) => Err(ErrorView::MissingBranch { branch: missing }),
                    None => branches_from(
                        root,
                        blockers.drop_first(),
                        found.push(branch),
                        None,
                        git,
                    ),
                }
            } else if found.len() > 0 {
                Err(ErrorView::MissingBranch { branch })
            } else {
                branches_from(
                    root,
                    blockers.drop_first(),
                    found,
                    match missing {
                        Some(missing) => Some(missing),
                        None => Some(branch),
                    },
                    git,
                )
            },
        }
    }
}

/// The branches of blockers, in the order of the blockers: either each has its branch, or none has.
pub open spec fn branches_of(root: Seq<char>, blockers: Seq<Seq<char>>, git: GitView) -> Result<
    Seq<Seq<char>>,
    ErrorView,
> {
    branches_from(root, blockers, Seq::empty(), None, git)
}

/// Each of the branches, from a position on, is an ancestor of the branch.
pub open spec fn descends(
    branch: Seq<char>,
    branches: Seq<Seq<char>>,
    from: int,
    git: GitView,
) -> bool {
    forall|k: int|
        from <= k < branches.len() ==> git.ancestry.contains(
            (ref_to(#[trigger] branches[k]), ref_to(branch)),
        )
}

/// The candidates that descend from each of the branches.
pub open spec fn descendants(
    candidates: Seq<Seq<char>>,
    branches: Seq<Seq<char>>,
    git: GitView,
) -> Seq<Seq<char>>
    decreases candidates.len(),
{
    if candidates.len() == 0 {
        Seq::empty()
    } else {
        let rest = descendants(candidates.drop_first(), branches, git);
        if descends(candidates[0], branches, 0, git) {
            seq![candidates[0]] + rest
        } else {
            rest
        }
    }
}

/// The one descendant of all branches, or the error where there is none or more than one.
pub open spec fn only_descendant(
    task_id: Seq<char>,
    branches: Seq<Seq<char>>,
    found: Seq<Seq<char>>,
) -> Result<Seq<char>, ErrorView> {
    if found.len() == 1 {
        Ok(found[0])
    } else {
        Err(ErrorView::AmbiguousBlockerBranches { task_id, branches })
    }
}

/// What a task is based on, given the branches of its blockers: the current commit, the only
/// branch, or the one that descends from all of them.
pub open spec fn base_among(task_id: Seq<char>, branches: Seq<Seq<char>>, git: GitView) -> Result<
    Seq<char>,
    ErrorView,
> {
    if branches.len() == 0 {
        Ok(git.head)
    } else if branches.len() == 1 {
        Ok(branches[0])
    } else {
        only_descendant(task_id, branches, descendants(branches, branches, git))
    }
}

/// What a task is based on, given its blockers.
pub open spec fn base_for(
    root: Seq<char>,
    task_id: Seq<char>,
    blockers: Seq<Seq<char>>,
    git: GitView,
) -> Result<Seq<char>, ErrorView> {
    match branches_of(root, blockers, git) {
        Err(error) => Err(error),
        Ok(branches) => base_among(task_id, branches, git),
    }
}

/// The plan for the worktree of a task of a plan, or why there is none.
pub open spec fn planned_worktree(
    plan: PlanView,
    worktree_root: Seq<char>,
    repo: Seq<char>,
    repo_name: Option<Seq<char>>,
    task_id: Seq<char>,
    git: GitView,
) -> Result<WorktreeView, ErrorView> {
    let branch = branch_for(plan.root_task_id, task_id);
    let path = worktree_for(worktree_root, repo, repo_name, task_id);
    match plan.task(task_id) {
        None => Err(
            ErrorView::TaskOutsideScope { task_id, root_task_id: plan.root_task_id },
        ),
        Some(task) => if plan.status(task) != TaskStatus::Pending {
            Err(ErrorView::TaskNotReady { task_id, status: plan.status(task) })
        } else if branch is Err {
            Err(branch->Err_0)
        } else if path is Err {
            Err(path->Err_0)
        } else if git.path_taken {
            Err(ErrorView::WorktreeExists { path: path->Ok_0 })
        } else if git.branches.contains(branch->Ok_0) {
            Err(ErrorView::BranchExists { branch: branch->Ok_0 })
        } else {
            match base_for(plan.root_task_id, task_id, task.blocked_by, git) {
                Err(error) => Err(error),
                Ok(base) => Ok(
                    WorktreeView { task_id, branch: branch->Ok_0, base, path: path->Ok_0 },
                ),
            }
        },
    }
}

/// What is to be found out next.
#[derive(Debug)]
pub enum Inquiry {
    /// Whether something is at a path.
    Path(String),
    /// Whether a branch is there.
    Branch(String),
    /// The commit at `HEAD`.
    Head,
    /// Whether a reference is an ancestor of another.
    Ancestor { ancestor: String, descendant: String },
}

/// What an inquiry says.
pub enum InquiryView {
    Path(Seq<char>),
    Branch(Seq<char>),
    Head,
    Ancestor { ancestor: Seq<char>, descendant: Seq<char> },
}

impl View for Inquiry {
    type V = InquiryView;

    open spec fn view(&self) -> InquiryView {
        match *self {
            Inquiry::Path(path) => InquiryView::Path(path@),
            Inquiry::Branch(branch) => InquiryView::Branch(branch@),
            Inquiry::Head => InquiryView::Head,
            Inquiry::Ancestor { ancestor, descendant } => InquiryView::Ancestor {
                ancestor: ancestor@,
                descendant: descendant@,
            },
        }
    }
}

impl GitView {
    /// The answer to an inquiry that is answered by yes or no.
    pub open spec fn says(self, inquiry: InquiryView) -> bool {
        match inquiry {
            InquiryView::Path(_) => self.path_taken,
            InquiryView::Branch(branch) => self.branches.contains(branch),
            InquiryView::Head => false,
            InquiryView::Ancestor { ancestor, descendant } => self.ancestry.contains(
                (ancestor, descendant),
            ),
        }
    }
}

/// The task whose worktree is planned.
struct Target {
    root_task_id: String,
    task_id: String,
    branch: String,
    path: String,
    blockers: Vec<String>,
}

/// How far the planning of a worktree is.
enum Stage {
    /// The path is to be looked at.
    Path,
    /// The branch is to be looked for.
    Branch,
    /// The branch of a blocker is to be looked for; those found, and the first one that was not, are
    /// of the blockers before it.
    Blocker { index: usize, branch: String, found: Vec<String>, missing: Option<String> },
    /// The current commit is to be looked up.
    Head,
    /// A candidate is compared with another branch; those before it are its ancestors, and the
    /// descendants are those among the candidates before.
    Ancestor { branches: Vec<String>, candidate: usize, other: usize, descendants: Vec<String> },
}

/// The planning of a worktree, up to the next inquiry.
pub struct Planning {
    target: Target,
    stage: Stage,
}

/// What comes of an answer: another inquiry, or the end of the planning.
pub enum Step {
    Ask(Planning),
    Done(Result<WorktreePlan, Error>),
}

impl Step {
    /// How the planning ends, given what the inquiries find out.
    pub open spec fn outcome(self, git: GitView) -> Result<WorktreeView, ErrorView> {
        match self {
            Step::Ask(next) => next.outcome(git),
            Step::Done(result) => seen(result),
        }
    }
}

impl Target {
    /// The plan with a base, or the error in place of the base.
    spec fn based(self, base: Result<Seq<char>, ErrorView>) -> Result<WorktreeView, ErrorView> {
        match base {
            Err(error) => Err(error),
            Ok(base) => Ok(
                WorktreeView {
                    task_id: self.task_id@,
                    branch: self.branch@,
                    base,
                    path: self.path@,
                },
            ),
        }
    }

    /// How planning ends once the branches of the blockers from a position on are added to those
    /// that were found.
    spec fn with_blockers(
        self,
        index: int,
        found: Seq<Seq<char>>,
        missing: Option<Seq<char>>,
        git: GitView,
    ) -> Result<WorktreeView, ErrorView> {
        match branches_from(
            self.root_task_id@,
            texts(self.blockers@).skip(index),
            found,
            missing,
            git,
        ) {
            Err(error) => Err(error),
            Ok(branches) => self.based(base_among(self.task_id@, branches, git)),
        }
    }

    /// How planning ends once the branch is known not to be there.
    spec fn after_branch(self, git: GitView) -> Result<WorktreeView, ErrorView> {
        self.based(base_for(self.root_task_id@, self.task_id@, texts(self.blockers@), git))
    }

    /// How planning ends once the path is known not to be taken.
    spec fn after_path(self, git: GitView) -> Result<WorktreeView, ErrorView> {
        if git.branches.contains(self.branch@) {
            Err(ErrorView::BranchExists { branch: self.branch@ })
        } else {
            self.after_branch(git)
        }
    }
}

impl Planning {
    #[verifier::type_invariant]
    spec fn sound(self) -> bool {
        match self.stage {
            Stage::Blocker { index, branch, found, missing } => {
                &&& index < self.target.blockers@.len()
                &&& branch_for(self.target.root_task_id@, self.target.blockers@[index as int]@)
                    == Ok::<Seq<char>, ErrorView>(branch@)
                &&& found@.len() <= index
            },
            Stage::Ancestor { branches, candidate, other, descendants } => {
                &&& 2 <= branches@.len() <= self.target.blockers@.len()
                &&& candidate < branches@.len()
                &&& other < branches@.len()
                &&& descendants@.len() <= candidate
            },
            _ => true,
        }
    }

    /// How the planning ends, given what the inquiries find out.
    pub closed spec fn outcome(self, git: GitView) -> Result<WorktreeView, ErrorView> {
        match self.stage {
            Stage::Path => if git.path_taken {
                Err(ErrorView::WorktreeExists { path: self.target.path@ })
            } else {
                self.target.after_path(git)
            },
            Stage::Branch => self.target.after_path(git),
            Stage::Blocker { index, branch, found, missing } => self.target.with_blockers(
                index as int,
                texts(found@),
                shown(missing),
                git,
            ),
            Stage::Head => self.target.based(Ok(git.head)),
            Stage::Ancestor { branches, candidate, other, descendants: found } => {
                let all = texts(branches@);
                let passes = descends(all[candidate as int], all, other as int, git);
                self.target.based(
                    only_descendant(
                        self.target.task_id@,
                        all,
                        texts(found@) + (if passes {
                            seq![all[candidate as int]]
                        } else {
                            Seq::empty()
                        }) + descendants(all.skip(candidate + 1), all, git),
                    ),
                )
            },
        }
    }

    /// What is asked next.
    pub closed spec fn asks(self) -> InquiryView {
        match self.stage {
            Stage::Path => InquiryView::Path(self.target.path@),
            Stage::Branch => InquiryView::Branch(self.target.branch@),
            Stage::Blocker { index, branch, found, missing } => InquiryView::Branch(branch@),
            Stage::Head => InquiryView::Head,
            Stage::Ancestor { branches, candidate, other, descendants } => InquiryView::Ancestor {
                ancestor: ref_to(branches@[other as int]@),
                descendant: ref_to(branches@[candidate as int]@),
            },
        }
    }

    /// A bound on the number of inquiries that are left.
    pub closed spec fn inquiries_left(self) -> int {
        let n = self.target.blockers@.len() as int;
        match self.stage {
            Stage::Path => n * n + n + 4,
            Stage::Branch => n * n + n + 3,
            Stage::Blocker { index, branch, found, missing } => n * n + (n - index) + 2,
            Stage::Head => 1,
            Stage::Ancestor { branches, candidate, other, descendants } => {
                (branches@.len() - candidate) * branches@.len() - other + 1
            },
        }
    }
}

/// Goes on to a blocker, or to the choice of a base behind the last one.
fn to_blocker(
    target: Target,
    index: usize,
    found: Vec<String>,
    missing: Option<String>,
) -> (r: Step)
    requires
        index <= target.blockers@.len(),
        found@.len() <= index,
    ensures
        forall|git: GitView| #[trigger]
            r.outcome(git) == target.with_blockers(
                index as int,
                texts(found@),
                shown(missing),
                git,
            ),
        r matches Step::Ask(next) ==> 0 <= next.inquiries_left() < target.blockers@.len()
            * target.blockers@.len() + (target.blockers@.len() - index) + 3,
{
    let ghost rest = texts(target.blockers@).skip(index as int);
    let n = target.blockers.len();
    if index < n {
        assert(rest[0] == target.blockers@[index as int]@);
        match branch_name(target.root_task_id.as_str(), target.blockers[index].as_str()) {
            Err(error) => Step::Done(Err(error)),
            Ok(branch) => {
                proof {
                    assert(n * n >= 0) by (nonlinear_arith);
                }
                Step::Ask(
                    Planning { target, stage: Stage::Blocker { index, branch, found, missing } },
                )
            },
        }
    } else {
        let ghost before = target;
        let ghost all = texts(found@);
        let count = found.len();
        proof {
            assert(rest =~= Seq::empty());
            assert forall|git: GitView| #[trigger]
                target.with_blockers(index as int, all, shown(missing), git) == target.based(
                    base_among(target.task_id@, all, git),
                ) by {
            }
            assert(n * n >= 0) by (nonlinear_arith);
        }
        if count == 0 {
            Step::Ask(Planning { target, stage: Stage::Head })
        } else if count == 1 {
            let base = found[0].clone();
            assert(all[0] == base@);
            Step::Done(
                Ok(
                    WorktreePlan {
                        task_id: target.task_id,
                        branch: target.branch,
                        base,
                        path: target.path,
                    },
                ),
            )
        } else {
            let none: Vec<String> = Vec::new();
            let next = Planning {
                target,
                stage: Stage::Ancestor {
                    branches: found,
                    candidate: 0,
                    other: 0,
                    descendants: none,
                },
            };
            proof {
                assert(texts(none@) =~= Seq::empty());
                assert forall|git: GitView| #[trigger] next.outcome(git) == before.with_blockers(
                    index as int,
                    all,
                    shown(missing),
                    git,
                ) by {
                    let tail = descendants(all.skip(1), all, git);
                    assert(all.drop_first() =~= all.skip(1));
                    let first: Seq<Seq<char>> = if descends(all[0], all, 0, git) {
                        seq![all[0]]
                    } else {
                        Seq::empty()
                    };
                    assert(Seq::<Seq<char>>::empty() + first + tail =~= descendants(all, all, git));
                }
                assert(count * count <= n * n) by (nonlinear_arith)
                    requires
                        count <= n,
                ;
            }
            Step::Ask(next)
        }
    }
}

/// Goes on to the next candidate, or to the choice among the descendants behind the last one.
fn to_candidate(
    target: Target,
    branches: Vec<String>,
    candidate: usize,
    descendants_found: Vec<String>,
) -> (r: Step)
    requires
        2 <= branches@.len() <= target.blockers@.len(),
        candidate <= branches@.len(),
        descendants_found@.len() <= candidate,
    ensures
        forall|git: GitView| #[trigger]
            r.outcome(git) == target.based(
                only_descendant(
                    target.task_id@,
                    texts(branches@),
                    texts(descendants_found@) + descendants(
                        texts(branches@).skip(candidate as int),
                        texts(branches@),
                        git,
                    ),
                ),
            ),
        r matches Step::Ask(next) ==> 0 <= next.inquiries_left() && next.inquiries_left() == (
        branches@.len() - candidate) * branches@.len() + 1,
{
    let ghost all = texts(branches@);
    let ghost found = texts(descendants_found@);
    if candidate < branches.len() {
        let next = Planning {
            target,
            stage: Stage::Ancestor {
                branches,
                candidate,
                other: 0,
                descendants: descendants_found,
            },
        };
        proof {
            assert forall|git: GitView| #[trigger] next.outcome(git) == target.based(
                only_descendant(
                    target.task_id@,
                    all,
                    found + descendants(all.skip(candidate as int), all, git),
                ),
            ) by {
                let rest = all.skip(candidate as int);
                let tail = descendants(all.skip(candidate + 1), all, git);
                assert(rest.drop_first() =~= all.skip(candidate + 1));
                assert(rest[0] == all[candidate as int]);
                let first: Seq<Seq<char>> = if descends(rest[0], all, 0, git) {
                    seq![rest[0]]
                } else {
                    Seq::empty()
                };
                assert(found + first + tail =~= found + descendants(rest, all, git));
            }
            let left = branches@.len() - candidate;
            assert(left * branches@.len() >= 0) by (nonlinear_arith)
                requires
                    left >= 0,
            ;
        }
        Step::Ask(next)
    } else {
        proof {
            assert forall|git: GitView| #[trigger]
                descendants(all.skip(candidate as int), all, git) == Seq::<Seq<char>>::empty() by {
                assert(all.skip(candidate as int) =~= Seq::empty());
            }
            assert(found + Seq::<Seq<char>>::empty() =~= found);
        }
        if descendants_found.len() == 1 {
            let base = descendants_found[0].clone();
            assert(found[0] == base@);
            Step::Done(
                Ok(
                    WorktreePlan {
                        task_id: target.task_id,
                        branch: target.branch,
                        base,
                        path: target.path,
                    },
                ),
            )
        } else {
            Step::Done(
                Err(Error::AmbiguousBlockerBranches { task_id: target.task_id, branches }),
            )
        }
    }
}

impl Planning {
    /// What is to be found out next.
    pub fn inquiry(&self) -> (r: Inquiry)
        ensures
            r@ == self.asks(),
    {
        proof {
            use_type_invariant(self);
        }
        match &self.stage {
            Stage::Path => Inquiry::Path(self.target.path.clone()),
            Stage::Branch => Inquiry::Branch(self.target.branch.clone()),
            Stage::Blocker { branch, .. } => Inquiry::Branch(branch.clone()),
            Stage::Head => Inquiry::Head,
            Stage::Ancestor { branches, candidate, other, .. } => Inquiry::Ancestor {
                ancestor: reference_to(branches[*other].as_str()),
                descendant: reference_to(branches[*candidate].as_str()),
            },
        }
    }

    /// Goes on with the answer to an inquiry.
    pub fn answered(self, yes: bool) -> (r: Step)
        requires
            !(self.asks() is Head),
        ensures
            forall|git: GitView|
                git.says(self.asks()) == yes ==> #[trigger] r.outcome(git) == self.outcome(git),
            r matches Step::Ask(next) ==> 0 <= next.inquiries_left() < self.inquiries_left(),
    {
        proof {
            use_type_invariant(&self);
        }
        let ghost before = self;
        let Planning { target, stage } = self;
        let ghost n = target.blockers@.len() as int;
        proof {
            assert(n * n >= 0) by (nonlinear_arith);
        }
        match stage {
            Stage::Path => {
                if yes {
                    Step::Done(Err(Error::WorktreeExists { path: target.path }))
                } else {
                    Step::Ask(Planning { target, stage: Stage::Branch })
                }
            },
            Stage::Branch => {
                if yes {
                    return Step::Done(Err(Error::BranchExists { branch: target.branch }));
                }
                let found: Vec<String> = Vec::new();
                proof {
                    assert(texts(found@) =~= Seq::empty());
                    let all = texts(target.blockers@);
                    assert(all.skip(0) =~= all);
                    assert forall|git: GitView| #[trigger]
                        target.with_blockers(0, texts(found@), None, git) == target.after_branch(
                            git,
                        ) by {
                    }
                }
                to_blocker(target, 0, found, None)
            },
            Stage::Head => Step::Done(Err(Error::EmptyOutput { operation: "resolving Git commit" })),
            Stage::Blocker { index, branch, found, missing } => {
                let count = target.blockers.len();
                assert(index < count);
                let ghost so_far = texts(found@);
                let ghost b = branch@;
                proof {
                    let here = texts(target.blockers@).skip(index as int);
                    assert(here[0] == target.blockers@[index as int]@);
                    assert(here.drop_first() =~= texts(target.blockers@).skip(index + 1));
                }
                if yes {
                    if let Some(branch) = missing {
                        return Step::Done(Err(Error::MissingBranch { branch }));
                    }
                    let mut found = found;
                    found.push(branch);
                    assert(texts(found@) =~= so_far.push(b));
                    to_blocker(target, index + 1, found, None)
                } else if found.len() > 0 {
                    Step::Done(Err(Error::MissingBranch { branch }))
                } else {
                    let missing = match missing {
                        Some(missing) => Some(missing),
                        None => Some(branch),
                    };
                    to_blocker(target, index + 1, found, missing)
                }
            },
            Stage::Ancestor { branches, candidate, other, descendants: found } => {
                let ghost all = texts(branches@);
                let ghost so_far = texts(found@);
                let ghost c = all[candidate as int];
                let count = branches.len();
                proof {
                    let left = count - candidate;
                    assert(left * count == (left - 1) * count + count) by (nonlinear_arith);
                    assert((left - 1) * count >= 0) by (nonlinear_arith)
                        requires
                            left >= 1,
                            count >= 0,
                    ;
                }
                if !yes {
                    proof {
                        assert forall|git: GitView| git.says(before.asks()) == yes implies !descends(
                            c,
                            all,
                            other as int,
                            git,
                        ) by {
                            assert(!git.ancestry.contains(
                                (ref_to(all[other as int]), ref_to(c)),
                            ));
                        }
                        assert(so_far + Seq::<Seq<char>>::empty() =~= so_far);
                    }
                    return to_candidate(target, branches, candidate + 1, found);
                }
                if other + 1 < count {
                    let next = Planning {
                        target,
                        stage: Stage::Ancestor {
                            branches,
                            candidate,
                            other: other + 1,
                            descendants: found,
                        },
                    };
                    proof {
                        assert forall|git: GitView| git.says(before.asks()) == yes implies descends(
                            c,
                            all,
                            other as int,
                            git,
                        ) == descends(c, all, other + 1, git) by {
                            if descends(c, all, other + 1, git) {
                                assert forall|k: int|
                                    other <= k < all.len() implies git.ancestry.contains(
                                    (ref_to(#[trigger] all[k]), ref_to(c)),
                                ) by {
                                    if k > other {
                                        assert(other + 1 <= k);
                                    }
                                }
                            }
                        }
                    }
                    return Step::Ask(next);
                }
                let mut found = found;
                found.push(branches[candidate].clone());
                proof {
                    assert(texts(found@) =~= so_far.push(c));
                    assert(so_far.push(c) =~= so_far + seq![c]);
                    assert forall|git: GitView| git.says(before.asks()) == yes implies descends(
                        c,
                        all,
                        other as int,
                        git,
                    ) by {
                    }
                }
                to_candidate(target, branches, candidate + 1, found)
            },
        }
    }

    /// Ends the planning with the commit at `HEAD`.
    pub fn resolved(self, commit: String) -> (r: WorktreePlan)
        requires
            self.asks() is Head,
        ensures
            forall|git: GitView|
                #![trigger self.outcome(git)]
                git.head == commit@ ==> self.outcome(git) == Ok::<WorktreeView, ErrorView>(r@),
    {
        let Planning { target, stage } = self;
        WorktreePlan {
            task_id: target.task_id,
            branch: target.branch,
            base: commit,
            path: target.path,
        }
    }
}

/// Refuses a blocker that is not closed.
pub fn ensure_closed(scoped: &ScopedPlan, task_id: &str, blocker_id: &str) -> (r: Result<
    (),
    Error,
>)
    ensures
        match scoped@.task(blocker_id@) {
            None => r matches Err(e) && e@ == ErrorView::Sq(
                sq::ErrorView::TaskOutsideScope {
                    task_id: blocker_id@,
                    root_task_id: scoped@.root_task_id,
                },
            ),
            Some(blocker) => if scoped@.status(blocker) == TaskStatus::Closed {
                r is Ok
            } else {
                r matches Err(e) && e@ == (ErrorView::BlockerNotClosed {
                    task_id: task_id@,
                    blocker_id: blocker_id@,
                    status: scoped@.status(blocker),
                })
            },
        },
{
    match scoped.status(blocker_id) {
        Err(error) => Err(Error::Sq(error)),
        Ok(status) => if status == TaskStatus::Closed {
            Ok(())
        } else {
            Err(
                Error::BlockerNotClosed {
                    task_id: task_id.to_owned(),
                    blocker_id: blocker_id.to_owned(),
                    status,
                },
            )
        },
    }
}

// ---------------------------------------------------------------------------------------------
// The Git command

/// The arguments that look for a branch.
pub open spec fn branch_arguments(repo: Seq<char>, branch: Seq<char>) -> Seq<Seq<char>> {
    seq![
        "-C"@,
        repo,
        "show-ref"@,
        "--verify"@,
        "--quiet"@,
        ref_to(branch),
    ]
}

/// The arguments that look up a commit.
pub open spec fn commit_arguments(repo: Seq<char>, reference: Seq<char>) -> Seq<Seq<char>> {
    seq![
        "-C"@,
        repo,
        "rev-parse"@,
        "--verify"@,
        reference + "^{commit}"@,
    ]
}

/// The arguments that compare two references.
pub open spec fn ancestor_arguments(
    repo: Seq<char>,
    ancestor: Seq<char>,
    descendant: Seq<char>,
) -> Seq<Seq<char>> {
    seq![
        "-C"@,
        repo,
        "merge-base"@,
        "--is-ancestor"@,
        ancestor,
        descendant,
    ]
}

/// The arguments that ask for the branch of a worktree.
pub open spec fn current_arguments(directory: Seq<char>) -> Seq<Seq<char>> {
    seq![
        "-C"@,
        directory,
        "symbolic-ref"@,
        "--short"@,
        "HEAD"@,
    ]
}

/// The arguments that ask whether Git keeps the queue of a worktree.
pub open spec fn tracked_arguments(directory: Seq<char>) -> Seq<Seq<char>> {
    seq![
        "-C"@,
        directory,
        "ls-files"@,
        "--error-unmatch"@,
        "--"@,
        ".sift/issues.jsonl"@,
    ]
}

/// The arguments that keep Git from looking at the queue of a worktree.
pub open spec fn skip_arguments(directory: Seq<char>) -> Seq<Seq<char>> {
    seq![
        "-C"@,
        directory,
        "update-index"@,
        "--skip-worktree"@,
        "--"@,
        ".sift/issues.jsonl"@,
    ]
}

/// The Git command and the repository that it works on.
#[derive(Debug)]
pub struct GitClient {
    executable: String,
    repo: String,
}

/// What a Git command wrote, or why it is refused.
pub open spec fn output_of(
    executable: Seq<char>,
    operation: Seq<char>,
    ran: Result<Finished, String>,
) -> Result<Finished, ErrorView> {
    match ran {
        Err(source) => Err(ErrorView::Start { executable, operation, source: source@ }),
        Ok(output) => if output.success {
            Ok(output)
        } else {
            Err(failed(operation, output))
        },
    }
}

/// The error for a Git command that failed.
pub open spec fn failed(operation: Seq<char>, output: Finished) -> ErrorView {
    ErrorView::CommandFailed {
        operation,
        status: output.status@,
        detail: failure_text(output, "process exited with "@),
    }
}

/// The answer of a Git command that answers by its exit code, or why it is refused.
pub open spec fn answer_of(
    executable: Seq<char>,
    operation: Seq<char>,
    ran: Result<Finished, String>,
) -> Result<bool, ErrorView> {
    match ran {
        Err(source) => Err(ErrorView::Start { executable, operation, source: source@ }),
        Ok(output) => if output.code == Some(0i32) {
            Ok(true)
        } else if output.code == Some(1i32) {
            Ok(false)
        } else {
            Err(failed(operation, output))
        },
    }
}

/// The error for a Git command that failed.
fn command_failed(operation: &'static str, output: Finished) -> (r: Error)
    ensures
        r@ == failed(operation@, output),
{
    let detail = failure_detail(&output, "process exited with ");
    Error::CommandFailed { operation, status: output.status, detail }
}

/// What a command wrote, without white space around it, unless that is nothing.
pub open spec fn text_written(written: Seq<char>, operation: Seq<char>) -> Result<
    Seq<char>,
    ErrorView,
> {
    if trim(written).len() == 0 {
        Err(ErrorView::EmptyOutput { operation })
    } else {
        Ok(trim(written))
    }
}

/// What a command wrote, without white space around it.
pub fn output_text(written: &str, operation: &'static str) -> (r: Result<String, Error>)
    ensures
        seen(r) == text_written(written@, operation@),
{
    let value = trimmed(written);
    if value.as_str().is_empty() {
        Err(Error::EmptyOutput { operation })
    } else {
        Ok(value)
    }
}

/// What a worker delivered.
#[derive(Debug)]
pub enum Deliverable {
    Commit(String),
    Artifact(String),
}

/// What a deliverable says.
pub enum DeliverableView {
    Commit(Seq<char>),
    Artifact(Seq<char>),
}

impl View for Deliverable {
    type V = DeliverableView;

    open spec fn view(&self) -> DeliverableView {
        match *self {
            Deliverable::Commit(commit) => DeliverableView::Commit(commit@),
            Deliverable::Artifact(artifact) => DeliverableView::Artifact(artifact@),
        }
    }
}

/// What a worker delivered: the commit, where it names one, else the artifact.
pub open spec fn delivered(
    commit: Option<Seq<char>>,
    artifact: Option<Seq<char>>,
) -> DeliverableView {
    if commit is Some && !blank(commit->0) {
        DeliverableView::Commit(trim(commit->0))
    } else {
        DeliverableView::Artifact(artifact->0)
    }
}

/// What a worker delivered. One of the two is named.
pub fn report_deliverable(commit: Option<&str>, artifact: Option<&str>) -> (r: Deliverable)
    requires
        commit is Some && !blank(commit->0@) || artifact is Some && !blank(artifact->0@),
    ensures
        r@ == delivered(shown(commit), shown(artifact)),
{
    if let Some(commit) = commit {
        if !is_blank(commit) {
            return Deliverable::Commit(trimmed(commit));
        }
    }
    Deliverable::Artifact(artifact.unwrap().to_owned())
}

/// Where an artifact is: a relative path is one in the worktree.
pub open spec fn artifact_at(worktree: Seq<char>, artifact: Seq<char>, absolute: bool) -> Seq<char> {
    if absolute {
        artifact
    } else {
        below(worktree, artifact)
    }
}

/// Where an artifact is.
pub fn artifact_path(worktree: &WorktreePlan, artifact: &str, absolute: bool) -> (r: String)
    ensures
        r@ == artifact_at(worktree@.path, artifact@, absolute),
{
    if absolute {
        artifact.to_owned()
    } else {
        path_below(worktree.path.as_str(), artifact)
    }
}

impl GitClient {
    pub closed spec fn executable_name(self) -> Seq<char> {
        self.executable@
    }

    pub closed spec fn repo_path(self) -> Seq<char> {
        self.repo@
    }

    /// A client for the configured executable, which is `git` where none is configured.
    pub fn configured(repo: String, executable: Option<String>) -> (r: GitClient)
        ensures
            r.repo_path() == repo@,
            r.executable_name() == executable_or(shown(executable), "git"@),
    {
        GitClient { executable: configured_executable(executable, "git"), repo }
    }

    pub fn with_executable(repo: String, executable: String) -> (r: GitClient)
        ensures
            r.repo_path() == repo@,
            r.executable_name() == executable@,
    {
        GitClient { executable, repo }
    }

    pub fn executable(&self) -> (r: &str)
        ensures
            r@ == self.executable_name(),
    {
        self.executable.as_str()
    }

    pub fn repo(&self) -> (r: &str)
        ensures
            r@ == self.repo_path(),
    {
        self.repo.as_str()
    }

    /// Begins to plan the worktree of a ready task. `repo_name` is the last part of the path of the
    /// repository.
    pub fn plan_task(
        &self,
        scoped: &ScopedPlan,
        worktree_root: &str,
        repo_name: Option<&str>,
        task_id: &str,
    ) -> (r: Result<Planning, Error>)
        ensures
            match r {
                Ok(planning) => planning.asks() == InquiryView::Path(
                    worktree_for(
                        worktree_root@,
                        self.repo_path(),
                        shown(repo_name),
                        task_id@,
                    )->Ok_0,
                ) && forall|git: GitView| #[trigger]
                    planning.outcome(git) == planned_worktree(
                        scoped@,
                        worktree_root@,
                        self.repo_path(),
                        shown(repo_name),
                        task_id@,
                        git,
                    ),
                Err(e) => forall|git: GitView| #[trigger]
                    planned_worktree(
                        scoped@,
                        worktree_root@,
                        self.repo_path(),
                        shown(repo_name),
                        task_id@,
                        git,
                    ) == Err::<WorktreeView, ErrorView>(e@),
            },
    {
        let task = match scoped.task(task_id) {
            Some(task) => task,
            None => {
                return Err(
                    Error::TaskOutsideScope {
                        task_id: task_id.to_owned(),
                        root_task_id: scoped.root_task_id().to_owned(),
                    },
                );
            },
        };
        let status = match scoped.status(task_id) {
            Ok(status) => status,
            Err(error) => {
                return Err(Error::Sq(error));
            },
        };
        if status != TaskStatus::Pending {
            return Err(Error::TaskNotReady { task_id: task_id.to_owned(), status });
        }
        let branch = branch_name(scoped.root_task_id(), task_id)?;
        let path = worktree_path(worktree_root, self.repo.as_str(), repo_name, task_id)?;
        let blockers = task.blocked_by();
        proof {
            sq::ready_tasks_wait_for_nothing(scoped@, task_id@);
        }
        let mut i: usize = 0;
        while i < blockers.len()
            invariant
                i <= blockers.len(),
                texts(blockers@) == task@.blocked_by,
                forall|j: int|
                    0 <= j < task@.blocked_by.len() ==> (scoped@.task(
                        #[trigger] task@.blocked_by[j],
                    ) matches Some(blocker) && blocker.stored_status == TaskStatus::Closed),
            decreases blockers.len() - i,
        {
            assert(blockers@[i as int]@ == task@.blocked_by[i as int]);
            ensure_closed(scoped, task_id, blockers[i].as_str())?;
            i += 1;
        }
        let target = Target {
            root_task_id: scoped.root_task_id().to_owned(),
            task_id: task_id.to_owned(),
            branch,
            path,
            blockers: copy_texts(blockers),
        };
        Ok(Planning { target, stage: Stage::Path })
    }

    /// The arguments that look for a branch.
    pub fn branch_exists(&self, branch: &str) -> (r: Vec<String>)
        ensures
            texts(r@) == branch_arguments(self.repo_path(), branch@),
    {
        let r = vec![
            "-C".to_owned(),
            self.repo.clone(),
            "show-ref".to_owned(),
            "--verify".to_owned(),
            "--quiet".to_owned(),
            reference_to(branch),
        ];
        assert(texts(r@) =~= branch_arguments(self.repo_path(), branch@));
        r
    }

    /// The arguments that look up a commit.
    pub fn resolve_commit(&self, reference: &str) -> (r: Vec<String>)
        ensures
            texts(r@) == commit_arguments(self.repo_path(), reference@),
    {
        let mut revision = reference.to_owned();
        revision.append("^{commit}");
        let r = vec![
            "-C".to_owned(),
            self.repo.clone(),
            "rev-parse".to_owned(),
            "--verify".to_owned(),
            revision,
        ];
        assert(texts(r@) =~= commit_arguments(self.repo_path(), reference@));
        r
    }

    /// The arguments that compare two references.
    pub fn is_ancestor(&self, ancestor: &str, descendant: &str) -> (r: Vec<String>)
        ensures
            texts(r@) == ancestor_arguments(self.repo_path(), ancestor@, descendant@),
    {
        let r = vec![
            "-C".to_owned(),
            self.repo.clone(),
            "merge-base".to_owned(),
            "--is-ancestor".to_owned(),
            ancestor.to_owned(),
            descendant.to_owned(),
        ];
        assert(texts(r@) =~= ancestor_arguments(self.repo_path(), ancestor@, descendant@));
        r
    }

    /// The arguments that ask for the branch of a worktree.
    pub fn current_branch(&self, directory: &str) -> (r: Vec<String>)
        ensures
            texts(r@) == current_arguments(directory@),
    {
        let r = vec![
            "-C".to_owned(),
            directory.to_owned(),
            "symbolic-ref".to_owned(),
            "--short".to_owned(),
            "HEAD".to_owned(),
        ];
        assert(texts(r@) =~= current_arguments(directory@));
        r
    }

    /// The arguments that ask whether Git tracks the queue of a worktree.
    pub fn queue_tracked(&self, directory: &str) -> (r: Vec<String>)
        ensures
            texts(r@) == tracked_arguments(directory@),
    {
        let r = vec![
            "-C".to_owned(),
            directory.to_owned(),
            "ls-files".to_owned(),
            "--error-unmatch".to_owned(),
            "--".to_owned(),
            ".sift/issues.jsonl".to_owned(),
        ];
        assert(texts(r@) =~= tracked_arguments(directory@));
        r
    }

    /// The arguments that keep Git from looking at the queue of a worktree.
    pub fn skip_queue(&self, directory: &str) -> (r: Vec<String>)
        ensures
            texts(r@) == skip_arguments(directory@),
    {
        let r = vec![
            "-C".to_owned(),
            directory.to_owned(),
            "update-index".to_owned(),
            "--skip-worktree".to_owned(),
            "--".to_owned(),
            ".sift/issues.jsonl".to_owned(),
        ];
        assert(texts(r@) =~= skip_arguments(directory@));
        r
    }

    /// The output of a command that must succeed.
    pub fn output(&self, operation: &'static str, ran: Result<Finished, String>) -> (r: Result<
        Finished,
        Error,
    >)
        ensures
            match output_of(self.executable_name(), operation@, ran) {
                Ok(output) => r == Ok::<Finished, Error>(output),
                Err(error) => r matches Err(e) && e@ == error,
            },
    {
        match ran {
            Err(source) => Err(
                Error::Start { executable: self.executable.clone(), operation, source },
            ),
            Ok(output) => if output.success {
                Ok(output)
            } else {
                Err(command_failed(operation, output))
            },
        }
    }

    /// The answer of a command that answers by its exit code.
    pub fn answer(&self, operation: &'static str, ran: Result<Finished, String>) -> (r: Result<
        bool,
        Error,
    >)
        ensures
            match answer_of(self.executable_name(), operation@, ran) {
                Ok(yes) => r == Ok::<bool, Error>(yes),
                Err(error) => r matches Err(e) && e@ == error,
            },
    {
        match ran {
            Err(source) => Err(
                Error::Start { executable: self.executable.clone(), operation, source },
            ),
            Ok(output) => match output.code {
                Some(0) => Ok(true),
                Some(1) => Ok(false),
                _ => Err(command_failed(operation, output)),
            },
        }
    }

    /// Refuses a branch that is not there.
    pub fn require_branch(&self, branch: &str, exists: bool) -> (r: Result<(), Error>)
        ensures
            r is Ok <==> exists,
            r matches Err(e) ==> e@ == (ErrorView::MissingBranch { branch: branch@ }),
    {
        if exists {
            Ok(())
        } else {
            Err(Error::MissingBranch { branch: branch.to_owned() })
        }
    }

    /// Refuses a retained worktree that is not there, whose branch is not there, which is on another
    /// branch, or whose link to the queue is refused. Of what was found out only that up to the
    /// first refusal counts.
    pub fn verify_retained(
        &self,
        worktree: &WorktreePlan,
        is_directory: bool,
        branch_exists: Result<bool, Error>,
        current_branch: Result<String, Error>,
        link: Result<(), Error>,
    ) -> (r: Result<(), Error>)
        ensures
            match retained_fault(
                worktree@,
                is_directory,
                branch_exists,
                seen(current_branch),
                link,
            ) {
                None => r is Ok,
                Some(error) => r matches Err(e) && e@ == error,
            },
    {
        if !is_directory {
            return Err(Error::MissingWorktree { path: worktree.path.clone() });
        }
        self.require_branch(worktree.branch.as_str(), branch_exists?)?;
        let actual = current_branch?;
        if !same(actual.as_str(), worktree.branch.as_str()) {
            return Err(
                Error::WorktreeBranchMismatch {
                    path: worktree.path.clone(),
                    expected: worktree.branch.clone(),
                    actual,
                },
            );
        }
        link
    }

    /// Refuses what was delivered where it is a commit that is not on the branch of the worktree, or
    /// an artifact that is not there. Of what was found out only that up to the first refusal counts.
    pub fn verify_report_deliverable(&self, worktree: &WorktreePlan, inspected: Inspected) -> (r:
        Result<(), Error>)
        ensures
            match deliverable_fault(worktree@, inspected) {
                None => r is Ok,
                Some(error) => r matches Err(e) && e@ == error,
            },
    {
        match inspected {
            Inspected::Commit { commit, resolved, on_branch } => {
                if let Err(error) = resolved {
                    return Err(error);
                }
                if on_branch? {
                    Ok(())
                } else {
                    Err(Error::CommitOutsideBranch { commit, branch: worktree.branch.clone() })
                }
            },
            Inspected::Artifact { path, exists } => if exists {
                Ok(())
            } else {
                Err(Error::MissingArtifact { path })
            },
        }
    }

    /// The reference that a delivered commit must be an ancestor of.
    pub fn branch_reference(&self, worktree: &WorktreePlan) -> (r: String)
        ensures
            r@ == ref_to(worktree@.branch),
    {
        reference_to(worktree.branch.as_str())
    }
}

/// What was found out of a deliverable: of a commit what it resolves to and whether it is on the
/// branch of the worktree, of an artifact whether it is there.
#[derive(Debug)]
pub enum Inspected {
    Commit { commit: String, resolved: Result<String, Error>, on_branch: Result<bool, Error> },
    Artifact { path: String, exists: bool },
}

/// Why a deliverable is refused, where it is.
pub open spec fn deliverable_fault(worktree: WorktreeView, inspected: Inspected) -> Option<
    ErrorView,
> {
    match inspected {
        Inspected::Commit { commit, resolved, on_branch } => match resolved {
            Err(error) => Some(error@),
            Ok(_) => match on_branch {
                Err(error) => Some(error@),
                Ok(true) => None,
                Ok(false) => Some(
                    ErrorView::CommitOutsideBranch { commit: commit@, branch: worktree.branch },
                ),
            },
        },
        Inspected::Artifact { path, exists } => if exists {
            None
        } else {
            Some(ErrorView::MissingArtifact { path: path@ })
        },
    }
}

/// Why a retained worktree is refused, where it is.
pub open spec fn retained_fault(
    worktree: WorktreeView,
    is_directory: bool,
    branch_exists: Result<bool, Error>,
    current_branch: Result<Seq<char>, ErrorView>,
    link: Result<(), Error>,
) -> Option<ErrorView> {
    if !is_directory {
        Some(ErrorView::MissingWorktree { path: worktree.path })
    } else {
        match branch_exists {
            Err(error) => Some(error@),
            Ok(false) => Some(ErrorView::MissingBranch { branch: worktree.branch }),
            Ok(true) => match current_branch {
                Err(error) => Some(error),
                Ok(actual) => if actual != worktree.branch {
                    Some(
                        ErrorView::WorktreeBranchMismatch {
                            path: worktree.path,
                            expected: worktree.branch,
                            actual,
                        },
                    )
                } else {
                    match link {
                        Err(error) => Some(error@),
                        Ok(_) => None,
                    }
                },
            },
        }
    }
}

// ---------------------------------------------------------------------------------------------
// The link to the queue

/// Where the link to the queue is in a worktree.
pub fn queue_link(worktree: &str) -> (r: String)
    ensures
        r@ == below(worktree@, ".sift/issues.jsonl"@),
{
    path_below(worktree, ".sift/issues.jsonl")
}

/// What is at the place of the link.
#[derive(Debug)]
pub enum AtLink {
    Nothing,
    /// A link to a target.
    Link(String),
    /// Something that is not a link, and whether Git tracks it.
    Other { versioned: bool },
}

/// What is to be done to have the link.
#[derive(Debug, Clone, Copy, PartialEq, Eq, Structural)]
pub enum LinkStep {
    /// The link is there.
    Keep,
    /// The link is to be created.
    Create,
    /// The copy that Git checked out is to be replaced by the link, unseen by Git.
    Replace,
}

/// What is to be done to have a link to the queue, or why it cannot be had.
pub open spec fn link_step(
    worktree: Seq<char>,
    queue: Seq<char>,
    inside: bool,
    found: AtLink,
) -> Result<LinkStep, ErrorView> {
    if inside {
        Err(ErrorView::QueueInsideWorktree { queue, worktree })
    } else {
        match found {
            AtLink::Nothing => Ok(LinkStep::Create),
            AtLink::Link(target) => if target@ == queue {
                Ok(LinkStep::Keep)
            } else {
                Err(
                    ErrorView::QueueLinkExists {
                        path: below(worktree, ".sift/issues.jsonl"@),
                    },
                )
            },
            AtLink::Other { versioned } => if versioned {
                Ok(LinkStep::Replace)
            } else {
                Err(
                    ErrorView::QueueLinkExists {
                        path: below(worktree, ".sift/issues.jsonl"@),
                    },
                )
            },
        }
    }
}

/// What is to be done to have a link from a worktree to the queue. Both paths are canonical, and
/// `inside` tells whether the queue is in the worktree.
pub fn create_queue_link(worktree: &str, queue: &str, inside: bool, found: &AtLink) -> (r: Result<
    LinkStep,
    Error,
>)
    ensures
        match link_step(worktree@, queue@, inside, *found) {
            Ok(step) => r == Ok::<LinkStep, Error>(step),
            Err(error) => r matches Err(e) && e@ == error,
        },
{
    if inside {
        return Err(
            Error::QueueInsideWorktree { queue: queue.to_owned(), worktree: worktree.to_owned() },
        );
    }
    match found {
        AtLink::Nothing => Ok(LinkStep::Create),
        AtLink::Link(target) if same(target.as_str(), queue) => Ok(LinkStep::Keep),
        AtLink::Other { versioned: true } => Ok(LinkStep::Replace),
        _ => Err(Error::QueueLinkExists { path: queue_link(worktree) }),
    }
}

/// Why the link of a worktree is refused, where it is.
pub open spec fn link_fault(
    worktree: Seq<char>,
    target: Result<Seq<char>, Seq<char>>,
    absolute: bool,
    expected: Option<(Seq<char>, Result<Seq<char>, Seq<char>>)>,
) -> Option<ErrorView> {
    let path = below(worktree, ".sift/issues.jsonl"@);
    match target {
        Err(source) => Some(ErrorView::ReadQueueLink { path, source }),
        Ok(target) => if !absolute {
            Some(ErrorView::RelativeQueueLink { path, target })
        } else {
            match expected {
                None => None,
                Some((queue, Err(source))) => Some(
                    ErrorView::Canonicalize { path: queue, source },
                ),
                Some((_, Ok(queue))) => if target != queue {
                    Some(ErrorView::QueueLinkMismatch { path, expected: queue, actual: target })
                } else {
                    None
                },
            }
        },
    }
}

/// The queue that a link must lead to: as it was named, and its canonical path or why it has none.
#[derive(Debug)]
pub struct ExpectedQueue {
    pub queue: String,
    pub canonical: Result<String, String>,
}

/// Refuses the link of a worktree that cannot be read, is relative, or leads elsewhere than to the
/// queue. `target` is what the link holds, and `absolute` tells whether that is an absolute path.
pub fn verify_queue_link(
    worktree: &str,
    target: Result<String, String>,
    absolute: bool,
    expected_queue: Option<ExpectedQueue>,
) -> (r: Result<(), Error>)
    ensures
        match link_fault(
            worktree@,
            seen(target),
            absolute,
            match expected_queue {
                Some(expected) => Some((expected.queue@, seen(expected.canonical))),
                None => None,
            },
        ) {
            None => r is Ok,
            Some(error) => r matches Err(e) && e@ == error,
        },
{
    let path = queue_link(worktree);
    let target = match target {
        Ok(target) => target,
        Err(source) => {
            return Err(Error::ReadQueueLink { path, source });
        },
    };
    if !absolute {
        return Err(Error::RelativeQueueLink { path, target });
    }
    if let Some(expected) = expected_queue {
        match expected.canonical {
            Err(source) => {
                return Err(Error::Canonicalize { path: expected.queue, source });
            },
            Ok(queue) => {
                if !same(target.as_str(), queue.as_str()) {
                    return Err(
                        Error::QueueLinkMismatch { path, expected: queue, actual: target },
                    );
                }
            },
        }
    }
    Ok(())
}

// ---------------------------------------------------------------------------------------------
// Laws

/// A task whose blockers have no branch starts from the current commit.
pub proof fn without_branches_the_base_is_head(
    root: Seq<char>,
    task_id: Seq<char>,
    blockers: Seq<Seq<char>>,
    git: GitView,
)
    requires
        forall|i: int|
            0 <= i < blockers.len() ==> (branch_for(root, #[trigger] blockers[i]) matches Ok(b)
                && !git.branches.contains(b)),
    ensures
        base_for(root, task_id, blockers, git) == Ok::<Seq<char>, ErrorView>(git.head),
{
    let branches = blockers.map_values(|b: Seq<char>| branch_for(root, b)->Ok_0);
    blockers_have_all_branches_or_none(root, blockers, branches, git);
    assert forall|i: int| 0 <= i < branches.len() implies !git.branches.contains(
        #[trigger] branches[i],
    ) by {
        assert(branch_for(root, blockers[i]) is Ok);
    }
}

/// Blockers have all their branches or none: where each has one, those are what the task is based
/// on; where none has, nothing is; and where only some have, the first that is missing is named.
pub proof fn blockers_have_all_branches_or_none(
    root: Seq<char>,
    blockers: Seq<Seq<char>>,
    branches: Seq<Seq<char>>,
    git: GitView,
)
    requires
        branches.len() == blockers.len(),
        forall|i: int|
            0 <= i < blockers.len() ==> branch_for(root, #[trigger] blockers[i]) == Ok::<
                Seq<char>,
                ErrorView,
            >(branches[i]),
    ensures
        all_present(branches, git) ==> branches_of(root, blockers, git) == Ok::<
            Seq<Seq<char>>,
            ErrorView,
        >(branches),
        none_present(branches, git) ==> branches_of(root, blockers, git) == Ok::<
            Seq<Seq<char>>,
            ErrorView,
        >(Seq::empty()),
        !all_present(branches, git) && !none_present(branches, git) ==> exists|i: int|
            is_first_missing(branches, i, git) && branches_of(root, blockers, git) == Err::<
                Seq<Seq<char>>,
                ErrorView,
            >(ErrorView::MissingBranch { branch: branches[i] }),
{
    assert(blockers.skip(0) =~= blockers);
    assert(branches.take(0) =~= Seq::empty());
    branches_are_gathered(root, blockers, branches, 0, git);
}

/// Each branch is there.
pub open spec fn all_present(branches: Seq<Seq<char>>, git: GitView) -> bool {
    forall|i: int| 0 <= i < branches.len() ==> git.branches.contains(#[trigger] branches[i])
}

/// No branch is there.
pub open spec fn none_present(branches: Seq<Seq<char>>, git: GitView) -> bool {
    forall|i: int| 0 <= i < branches.len() ==> !git.branches.contains(#[trigger] branches[i])
}

/// The branch at a position is the first that is not there.
pub open spec fn is_first_missing(branches: Seq<Seq<char>>, i: int, git: GitView) -> bool {
    &&& 0 <= i < branches.len()
    &&& !git.branches.contains(branches[i])
    &&& forall|j: int| 0 <= j < i ==> git.branches.contains(#[trigger] branches[j])
}

proof fn branches_are_gathered(
    root: Seq<char>,
    blockers: Seq<Seq<char>>,
    branches: Seq<Seq<char>>,
    k: int,
    git: GitView,
)
    requires
        branches.len() == blockers.len(),
        forall|i: int|
            0 <= i < blockers.len() ==> branch_for(root, #[trigger] blockers[i]) == Ok::<
                Seq<char>,
                ErrorView,
            >(branches[i]),
        0 <= k <= branches.len(),
        all_present(branches.take(k), git) || none_present(branches.take(k), git),
    ensures
        ({
            let done = branches.take(k);
            let gathered = if all_present(done, git) {
                branches_from(root, blockers.skip(k), done, None, git)
            } else {
                branches_from(root, blockers.skip(k), Seq::empty(), Some(branches[0]), git)
            };
            &&& all_present(branches, git) ==> gathered == Ok::<Seq<Seq<char>>, ErrorView>(branches)
            &&& none_present(branches, git) ==> gathered == Ok::<Seq<Seq<char>>, ErrorView>(
                Seq::empty(),
            )
            &&& !all_present(branches, git) && !none_present(branches, git) ==> exists|i: int|
                is_first_missing(branches, i, git) && gathered == Err::<
                    Seq<Seq<char>>,
                    ErrorView,
                >(ErrorView::MissingBranch { branch: branches[i] })
        }),
    decreases branches.len() - k,
{
    let done = branches.take(k);
    if k == branches.len() {
        assert(done =~= branches);
        assert(blockers.skip(k) =~= Seq::empty());
        if all_present(branches, git) && none_present(branches, git) {
            assert(branches.len() == 0) by {
                if branches.len() > 0 {
                    assert(git.branches.contains(branches[0]));
                }
            }
            assert(branches =~= Seq::empty());
        }
    } else {
        let rest = blockers.skip(k);
        let here = branches[k];
        let more = branches.take(k + 1);
        assert(rest[0] == blockers[k]);
        assert(rest.drop_first() =~= blockers.skip(k + 1));
        assert(more =~= done.push(here));
        let present = git.branches.contains(here);
        if all_present(done, git) && present {
            assert(all_present(more, git)) by {
                assert forall|i: int| 0 <= i < more.len() implies git.branches.contains(
                    #[trigger] more[i],
                ) by {
                    if i < k {
                        assert(git.branches.contains(done[i]));
                    }
                }
            }
            branches_are_gathered(root, blockers, branches, k + 1, git);
        } else if (k == 0 || !all_present(done, git)) && !present {
            assert(none_present(more, git)) by {
                assert forall|i: int| 0 <= i < more.len() implies !git.branches.contains(
                    #[trigger] more[i],
                ) by {
                    if i < k {
                        assert(!git.branches.contains(done[i]));
                    }
                }
            }
            assert(!git.branches.contains(more[0]));
            assert(!all_present(more, git));
            if k == 0 {
                assert(done =~= Seq::empty());
            }
            branches_are_gathered(root, blockers, branches, k + 1, git);
        } else if all_present(done, git) {
            assert(is_first_missing(branches, k, git)) by {
                assert forall|j: int| 0 <= j < k implies git.branches.contains(
                    #[trigger] branches[j],
                ) by {
                    assert(git.branches.contains(done[j]));
                }
            }
            assert(git.branches.contains(done[0]));
            assert(done[0] == branches[0]);
        } else {
            let i = choose|i: int| 0 <= i < done.len() && !git.branches.contains(#[trigger] done[i]);
            assert(!git.branches.contains(done[0]));
            assert(done[0] == branches[0]);
            assert(is_first_missing(branches, 0, git));
        }
    }
}

/// A base that is chosen among several branches is one of them, and descends from all of them.
pub proof fn chosen_base_descends_from_all(
    task_id: Seq<char>,
    branches: Seq<Seq<char>>,
    git: GitView,
)
    requires
        branches.len() >= 2,
        base_among(task_id, branches, git) is Ok,
    ensures
        branches.contains(base_among(task_id, branches, git)->Ok_0),
        descends(base_among(task_id, branches, git)->Ok_0, branches, 0, git),
{
    descendants_descend(branches, branches, git);
}

proof fn descendants_descend(
    candidates: Seq<Seq<char>>,
    branches: Seq<Seq<char>>,
    git: GitView,
)
    ensures
        forall|i: int|
            0 <= i < descendants(candidates, branches, git).len() ==> candidates.contains(
                #[trigger] descendants(candidates, branches, git)[i],
            ) && descends(descendants(candidates, branches, git)[i], branches, 0, git),
    decreases candidates.len(),
{
    if candidates.len() > 0 {
        let rest = candidates.drop_first();
        descendants_descend(rest, branches, git);
        let tail = descendants(rest, branches, git);
        let all = descendants(candidates, branches, git);
        assert forall|i: int| 0 <= i < all.len() implies candidates.contains(#[trigger] all[i])
            && descends(all[i], branches, 0, git) by {
            let j = all.len() - tail.len();
            if i < j {
                assert(all[i] == candidates[0]);
            } else {
                assert(all[i] == tail[i - j]);
                let k = choose|k: int| 0 <= k < rest.len() && rest[k] == tail[i - j];
                assert(candidates[k + 1] == all[i]);
            }
        }
    }
}

} // verus!
