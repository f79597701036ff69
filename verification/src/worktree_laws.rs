//! What worktrees, their branches and their bases must satisfy.
use vstd::prelude::*;
use crate::command::Finished;
use crate::paths::below;
use crate::sq::{PlanView, TaskStatus};
use crate::text::{occurs, occurs_at, trim, white_space};
use crate::text_laws::{
    begins, end_goes_on, ends, gives, paths_below_keep_both_parts, says, says_something,
    trimming_takes_off_the_ends,
};
use crate::worktree::{
    all_present, ancestor_arguments, answer_of, artifact_at, base_among, base_for,
    blockers_have_all_branches_or_none, branch_arguments, branch_for, branches_from,
    commit_arguments, current_arguments, deliverable_fault, delivered, descendants, descends,
    link_fault, link_step, none_present, output_of, planned_worktree, retained_fault,
    safe_in_branch, safe_in_path, skip_arguments, text_written, tracked_arguments, worktree_for,
    AtLink, DeliverableView, Error, ErrorView, GitView, InquiryView, Inspected, LinkStep,
    WorktreeView,
};

verus! {

// ---------------------------------------------------------------------------------------------
// Bases

/// Every one of the branches is an ancestor of the one at a position.
pub open spec fn descends_from_all(branches: Seq<Seq<char>>, i: int, git: GitView) -> bool {
    &&& 0 <= i < branches.len()
    &&& forall|k: int|
        0 <= k < branches.len() ==> git.ancestry.contains(
            ("refs/heads/"@ + #[trigger] branches[k], "refs/heads/"@ + branches[i]),
        )
}

/// Where exactly one of two or more branches of blockers descends from all of them, the task is
/// based on it, wherever among them it stands.
pub proof fn the_only_descendant_is_the_base(
    task_id: Seq<char>,
    branches: Seq<Seq<char>>,
    i: int,
    git: GitView,
)
    requires
        branches.len() >= 2,
        descends_from_all(branches, i, git),
        forall|j: int| j != i ==> !#[trigger] descends_from_all(branches, j, git),
    ensures
        base_among(task_id, branches, git) == Ok::<Seq<char>, ErrorView>(branches[i]),
{
    descendants_stand_anywhere(branches, 0, git);
    assert(branches.skip(0) =~= branches);
}

/// Two or more branches of blockers are refused as ambiguous exactly when none of them, or more than
/// one, descends from all of them.
pub proof fn bases_are_ambiguous_without_an_only_descendant(
    task_id: Seq<char>,
    branches: Seq<Seq<char>>,
    git: GitView,
)
    requires
        branches.len() >= 2,
    ensures
        base_among(task_id, branches, git) is Err <==> ((forall|j: int|
            !#[trigger] descends_from_all(branches, j, git)) || exists|i: int, j: int|
            i < j && #[trigger] descends_from_all(branches, i, git)
                && #[trigger] descends_from_all(branches, j, git)),
        base_among(task_id, branches, git) matches Err(e) ==> e
            == (ErrorView::AmbiguousBlockerBranches { task_id, branches }),
{
    descendants_stand_anywhere(branches, 0, git);
    assert(branches.skip(0) =~= branches);
    if base_among(task_id, branches, git) is Err && exists|j: int|
        #[trigger] descends_from_all(branches, j, git) {
        let i = choose|i: int| #[trigger] descends_from_all(branches, i, git);
        if forall|j: int| j != i ==> !#[trigger] descends_from_all(branches, j, git) {
            the_only_descendant_is_the_base(task_id, branches, i, git);
        } else {
            let j = choose|j: int| j != i && #[trigger] descends_from_all(branches, j, git);
            if i < j {
                assert(descends_from_all(branches, i, git) && descends_from_all(branches, j, git));
            } else {
                assert(descends_from_all(branches, j, git) && descends_from_all(branches, i, git));
            }
        }
    }
}

/// Of the branches from a position on, the descendants are none, the only one, or several.
proof fn descendants_stand_anywhere(branches: Seq<Seq<char>>, from: int, git: GitView)
    requires
        0 <= from <= branches.len(),
    ensures
        ({
            let found = descendants(branches.skip(from), branches, git);
            &&& found.len() == 0 <==> forall|j: int|
                from <= j ==> !#[trigger] descends_from_all(branches, j, git)
            &&& forall|i: int|
                from <= i && #[trigger] descends_from_all(branches, i, git) && (forall|j: int|
                    from <= j && j != i ==> !#[trigger] descends_from_all(branches, j, git))
                    ==> found == seq![branches[i]]
            &&& forall|i: int, j: int|
                from <= i < j && #[trigger] descends_from_all(branches, i, git)
                    && #[trigger] descends_from_all(branches, j, git) ==> found.len() >= 2
        }),
    decreases branches.len() - from,
{
    let found = descendants(branches.skip(from), branches, git);
    if from < branches.len() {
        let rest = branches.skip(from + 1);
        descendants_stand_anywhere(branches, from + 1, git);
        assert(branches.skip(from).drop_first() =~= rest);
        assert(branches.skip(from)[0] == branches[from]);
        let tail = descendants(rest, branches, git);
        assert(descends(branches[from], branches, 0, git) <==> descends_from_all(
            branches,
            from,
            git,
        ));
        if descends_from_all(branches, from, git) {
            assert(found =~= seq![branches[from]] + tail);
            if tail.len() == 0 {
                assert(found =~= seq![branches[from]]);
            }
        }
    }
}

/// A task whose blockers have no branches is based on the current commit; one with a single blocker
/// that has its branch is based on that branch.
pub proof fn single_branches_are_the_base(
    root: Seq<char>,
    task_id: Seq<char>,
    blocker: Seq<char>,
    branch: Seq<char>,
    git: GitView,
)
    requires
        branch_for(root, blocker) == Ok::<Seq<char>, ErrorView>(branch),
    ensures
        base_for(root, task_id, Seq::empty(), git) == Ok::<Seq<char>, ErrorView>(git.head),
        base_for(root, task_id, seq![blocker], git) == Ok::<Seq<char>, ErrorView>(
            if git.branches.contains(branch) {
                branch
            } else {
                git.head
            },
        ),
{
    let blockers = seq![blocker];
    let branches = seq![branch];
    blockers_have_all_branches_or_none(root, blockers, branches, git);
    blockers_have_all_branches_or_none(root, Seq::empty(), Seq::empty(), git);
    assert(Seq::<Seq<char>>::empty().len() == 0);
    if git.branches.contains(branch) {
        assert(all_present(branches, git));
    } else {
        assert(none_present(branches, git));
    }
    assert(none_present(Seq::<Seq<char>>::empty(), git));
}

/// A task whose blockers all have their branches is based on the one that descends from all.
pub proof fn the_base_holds_the_work_of_all_blockers(
    root: Seq<char>,
    task_id: Seq<char>,
    blockers: Seq<Seq<char>>,
    branches: Seq<Seq<char>>,
    i: int,
    git: GitView,
)
    requires
        blockers.len() >= 2,
        branches.len() == blockers.len(),
        forall|k: int|
            0 <= k < blockers.len() ==> branch_for(root, #[trigger] blockers[k]) == Ok::<
                Seq<char>,
                ErrorView,
            >(branches[k]) && git.branches.contains(branches[k]),
        descends_from_all(branches, i, git),
        forall|j: int| j != i ==> !#[trigger] descends_from_all(branches, j, git),
    ensures
        base_for(root, task_id, blockers, git) == Ok::<Seq<char>, ErrorView>(branches[i]),
{
    blockers_have_all_branches_or_none(root, blockers, branches, git);
    assert forall|k: int| 0 <= k < branches.len() implies git.branches.contains(
        #[trigger] branches[k],
    ) by {
        assert(branch_for(root, blockers[k]) is Ok);
    }
    assert(all_present(branches, git));
    the_only_descendant_is_the_base(task_id, branches, i, git);
}

/// A blocker whose ID is not safe in a branch is refused by its ID, where the blockers before it all
/// have their branches or none has.
pub proof fn unsafe_blockers_are_refused(
    root: Seq<char>,
    task_id: Seq<char>,
    blockers: Seq<Seq<char>>,
    i: int,
    git: GitView,
)
    requires
        safe_in_branch(root),
        0 <= i < blockers.len(),
        !safe_in_branch(blockers[i]),
        forall|j: int| 0 <= j < i ==> safe_in_branch(#[trigger] blockers[j]),
        (forall|j: int|
            0 <= j < i ==> git.branches.contains(
                "agent-orchestrator/"@ + root + "/"@ + #[trigger] blockers[j],
            )) || (forall|j: int|
            0 <= j < i ==> !git.branches.contains(
                "agent-orchestrator/"@ + root + "/"@ + #[trigger] blockers[j],
            )),
    ensures
        base_for(root, task_id, blockers, git) == Err::<Seq<char>, ErrorView>(
            ErrorView::InvalidRefComponent { kind: "task"@, value: blockers[i] },
        ),
{
    unsafe_blockers_stop_the_search(root, blockers, i, Seq::empty(), None, git);
}

proof fn unsafe_blockers_stop_the_search(
    root: Seq<char>,
    blockers: Seq<Seq<char>>,
    i: int,
    found: Seq<Seq<char>>,
    missing: Option<Seq<char>>,
    git: GitView,
)
    requires
        safe_in_branch(root),
        0 <= i < blockers.len(),
        !safe_in_branch(blockers[i]),
        forall|j: int| 0 <= j < i ==> safe_in_branch(#[trigger] blockers[j]),
        (missing is None && forall|j: int|
            0 <= j < i ==> git.branches.contains(
                "agent-orchestrator/"@ + root + "/"@ + #[trigger] blockers[j],
            )) || (found.len() == 0 && forall|j: int|
            0 <= j < i ==> !git.branches.contains(
                "agent-orchestrator/"@ + root + "/"@ + #[trigger] blockers[j],
            )),
    ensures
        branches_from(root, blockers, found, missing, git) == Err::<Seq<Seq<char>>, ErrorView>(
            ErrorView::InvalidRefComponent { kind: "task"@, value: blockers[i] },
        ),
    decreases i,
{
    if i > 0 {
        let rest = blockers.drop_first();
        let branch = "agent-orchestrator/"@ + root + "/"@ + blockers[0];
        assert(safe_in_branch(blockers[0]));
        assert(rest[i - 1] == blockers[i]);
        assert forall|j: int| 0 <= j < i - 1 implies safe_in_branch(#[trigger] rest[j]) by {
            assert(safe_in_branch(blockers[j + 1]));
        }
        if git.branches.contains(branch) {
            assert forall|j: int| 0 <= j < i - 1 implies git.branches.contains(
                "agent-orchestrator/"@ + root + "/"@ + #[trigger] rest[j],
            ) by {
                assert(rest[j] == blockers[j + 1]);
            }
            unsafe_blockers_stop_the_search(root, rest, i - 1, found.push(branch), None, git);
        } else {
            assert forall|j: int| 0 <= j < i - 1 implies !git.branches.contains(
                "agent-orchestrator/"@ + root + "/"@ + #[trigger] rest[j],
            ) by {
                assert(rest[j] == blockers[j + 1]);
            }
            let still = match missing {
                Some(missing) => Some(missing),
                None => Some(branch),
            };
            unsafe_blockers_stop_the_search(root, rest, i - 1, found, still, git);
        }
    }
}

// ---------------------------------------------------------------------------------------------
// Branches and paths

/// A branch is made of a fixed word, the root and the task, with slashes between them.
pub proof fn branches_name_root_and_task(root: Seq<char>, task_id: Seq<char>)
    ensures
        branch_for(root, task_id) is Ok <==> safe_in_branch(root) && safe_in_branch(task_id),
        branch_for(root, task_id) matches Ok(branch) ==> {
            &&& begins(branch, "agent-orchestrator/"@)
            &&& ends(branch, "/"@ + root + "/"@ + task_id)
            &&& branch.len() == 18 + ("/"@ + root + "/"@ + task_id).len()
        },
        !safe_in_branch(root) ==> branch_for(root, task_id) == Err::<Seq<char>, ErrorView>(
            ErrorView::InvalidRefComponent { kind: "root task"@, value: root },
        ),
        safe_in_branch(root) && !safe_in_branch(task_id) ==> branch_for(root, task_id) == Err::<
            Seq<char>,
            ErrorView,
        >(ErrorView::InvalidRefComponent { kind: "task"@, value: task_id }),
{
    reveal_strlit("agent-orchestrator/");
    reveal_strlit("/");
    let head = "agent-orchestrator/"@;
    assert(head.skip(18) =~= "/"@);
    end_goes_on(head, root, "/"@);
    end_goes_on(head + root, "/"@, "/"@ + root);
    end_goes_on(head + root + "/"@, task_id, "/"@ + root + "/"@);
    assert((head + root + "/"@ + task_id).take(19) =~= head);
}

/// Git refuses as part of a branch what is empty, begins or ends with a dot, ends like a lock file,
/// or holds two dots in a row, a reflog mark, a blank, a control character or one of its own signs.
pub proof fn unsafe_branch_parts_are_refused(s: Seq<char>, i: int)
    ensures
        s.len() == 0 ==> !safe_in_branch(s),
        begins(s, "."@) || ends(s, "."@) || ends(s, ".lock"@) ==> !safe_in_branch(s),
        occurs(s, ".."@) || occurs(s, "@{"@) ==> !safe_in_branch(s),
        0 <= i < s.len() && (s[i] <= ' ' || s[i] == '\u{7f}' || s[i] == '~' || s[i] == '^' || s[i]
            == ':' || s[i] == '?' || s[i] == '*' || s[i] == '[' || s[i] == '\\' || s[i] == '/')
            ==> !safe_in_branch(s),
{
    reveal_strlit(".");
    reveal_strlit(".lock");
    if begins(s, "."@) {
        assert(s.take(1)[0] == s[0]);
    }
    if ends(s, "."@) {
        assert(s.skip(s.len() - 1)[0] == s[s.len() - 1]);
    }
    if ends(s, ".lock"@) {
        assert(s.subrange(s.len() - 5, s.len() as int) =~= s.skip(s.len() - 5));
    }
}

/// A sign that Git takes anywhere in a branch.
pub open spec fn plain(c: char) -> bool {
    c > ' ' && c != '\u{7f}' && c != '~' && c != '^' && c != ':' && c != '?' && c != '*' && c != '['
        && c != '\\' && c != '/' && c != '.' && c != '@'
}

/// What is not empty and has neither dots nor reflog marks, blanks, control characters or the signs
/// of Git can be a part of a branch.
pub proof fn plain_names_are_safe_in_branches(s: Seq<char>)
    requires
        s.len() > 0,
        forall|i: int| 0 <= i < s.len() ==> plain(#[trigger] s[i]),
    ensures
        safe_in_branch(s),
        safe_in_path(s),
{
    reveal_strlit(".");
    reveal_strlit("..");
    reveal_strlit(".lock");
    reveal_strlit("@{");
    assert(plain(s[0]) && plain(s[s.len() - 1]));
    if occurs_at(s, ".lock"@, s.len() - 5) {
        assert(s.subrange(s.len() - 5, s.len() as int)[0] == s[s.len() - 5]);
        assert(plain(s[s.len() - 5]));
    }
    if occurs(s, ".."@) {
        let i = choose|i: int| occurs_at(s, ".."@, i);
        assert(s.subrange(i, i + 2)[0] == s[i]);
        assert(plain(s[i]));
    }
    if occurs(s, "@{"@) {
        let i = choose|i: int| occurs_at(s, "@{"@, i);
        assert(s.subrange(i, i + 2)[0] == s[i]);
        assert(plain(s[i]));
    }
    assert("."@[0] == '.');
    assert(".."@[0] == '.');
}

/// A dot is taken inside a part of a branch, where no other dot stands beside it.
pub proof fn single_dots_are_safe_inside_branches(a: Seq<char>, b: Seq<char>)
    requires
        a.len() > 0,
        b.len() > 0,
        b != "lock"@,
        forall|i: int| 0 <= i < a.len() ==> plain(#[trigger] a[i]),
        forall|i: int| 0 <= i < b.len() ==> plain(#[trigger] b[i]),
    ensures
        safe_in_branch(a + "."@ + b),
        safe_in_path(a + "."@ + b),
{
    reveal_strlit(".");
    reveal_strlit("..");
    reveal_strlit(".lock");
    reveal_strlit("lock");
    reveal_strlit("@{");
    let s = a + "."@ + b;
    let n = a.len() as int;
    assert(s[n] == '.');
    assert forall|i: int| 0 <= i < s.len() && i != n implies plain(#[trigger] s[i]) by {
        if i < n {
            assert(s[i] == a[i]);
        } else {
            assert(s[i] == b[i - n - 1]);
        }
    }
    assert(plain(s[0]) && plain(s[s.len() - 1]));
    if occurs_at(s, ".lock"@, s.len() - 5) {
        let i = s.len() - 5;
        assert(s.subrange(i, i + 5)[0] == s[i]);
        assert(i == n);
        assert(b =~= s.subrange(i, i + 5).skip(1));
        assert(".lock"@.skip(1) =~= "lock"@);
    }
    if occurs(s, ".."@) {
        let i = choose|i: int| occurs_at(s, ".."@, i);
        assert(s.subrange(i, i + 2)[0] == s[i]);
        assert(s.subrange(i, i + 2)[1] == s[i + 1]);
        assert(i == n && i + 1 == n);
    }
    if occurs(s, "@{"@) {
        let i = choose|i: int| occurs_at(s, "@{"@, i);
        assert(s.subrange(i, i + 2)[0] == s[i]);
        assert(i == n);
    }
}

/// The worktree of a task is named by the repository and the task, right below the root of the
/// worktrees.
pub proof fn worktrees_stand_below_their_root(
    worktree_root: Seq<char>,
    repo: Seq<char>,
    repo_name: Option<Seq<char>>,
    task_id: Seq<char>,
)
    ensures
        worktree_for(worktree_root, repo, repo_name, task_id) is Ok <==> {
            &&& repo_name is Some && repo_name->0.len() > 0
            &&& task_id.len() > 0 && task_id != "."@ && task_id != ".."@
            &&& forall|i: int|
                0 <= i < task_id.len() ==> #[trigger] task_id[i] != '/' && task_id[i] != '\\'
        },
        worktree_for(worktree_root, repo, repo_name, task_id) matches Ok(path) ==> {
            let name = repo_name->0 + "."@ + task_id;
            &&& begins(path, worktree_root)
            &&& ends(path, name)
            &&& path.len() <= worktree_root.len() + 1 + name.len()
            &&& worktree_root.len() > 0 ==> path[path.len() - name.len() - 1] == '/'
        },
        worktree_for(worktree_root, repo, repo_name, task_id) matches Err(e) ==> e == (
        if safe_in_path(task_id) {
            ErrorView::InvalidRepositoryPath { path: repo }
        } else {
            ErrorView::InvalidPathComponent { value: task_id }
        }),
{
    if repo_name is Some {
        let name = repo_name->0 + "."@ + task_id;
        paths_below_keep_both_parts(worktree_root, name);
        let path = below(worktree_root, name);
        if worktree_root.len() > 0 {
            if worktree_root.last() == '/' {
                assert(path.take(worktree_root.len() as int).last() == '/');
            }
        }
    }
}

// ---------------------------------------------------------------------------------------------
// Plans for worktrees

/// A worktree is planned for a pending task of the scope alone, at the task's own path and branch,
/// neither of which is taken, and on the base that its blockers give.
pub proof fn planned_worktrees_are_new(
    plan: PlanView,
    worktree_root: Seq<char>,
    repo: Seq<char>,
    repo_name: Option<Seq<char>>,
    task_id: Seq<char>,
    git: GitView,
)
    ensures
        planned_worktree(plan, worktree_root, repo, repo_name, task_id, git) matches Ok(w) ==> {
            &&& plan.task(task_id) is Some
            &&& plan.status(plan.task(task_id)->0) == TaskStatus::Pending
            &&& w.task_id == task_id
            &&& !git.path_taken
            &&& !git.branches.contains(w.branch)
            &&& begins(w.branch, "agent-orchestrator/"@)
            &&& ends(w.branch, "/"@ + plan.root_task_id + "/"@ + task_id)
            &&& begins(w.path, worktree_root)
            &&& repo_name is Some && ends(w.path, repo_name->0 + "."@ + task_id)
            &&& base_for(plan.root_task_id, task_id, plan.task(task_id)->0.blocked_by, git) == Ok::<
                Seq<char>,
                ErrorView,
            >(w.base)
        },
{
    branches_name_root_and_task(plan.root_task_id, task_id);
    worktrees_stand_below_their_root(worktree_root, repo, repo_name, task_id);
}

/// A worktree is planned for every pending task of the scope whose IDs are safe, whose path and
/// branch are not taken, and whose blockers give a base.
pub proof fn pending_tasks_get_their_worktrees(
    plan: PlanView,
    worktree_root: Seq<char>,
    repo: Seq<char>,
    repo_name: Option<Seq<char>>,
    task_id: Seq<char>,
    git: GitView,
)
    requires
        plan.task(task_id) is Some,
        plan.status(plan.task(task_id)->0) == TaskStatus::Pending,
        safe_in_branch(plan.root_task_id) && safe_in_branch(task_id) && safe_in_path(task_id),
        repo_name is Some && repo_name->0.len() > 0,
        !git.path_taken,
        !git.branches.contains("agent-orchestrator/"@ + plan.root_task_id + "/"@ + task_id),
    ensures
        base_for(plan.root_task_id, task_id, plan.task(task_id)->0.blocked_by, git) is Ok
            <==> planned_worktree(plan, worktree_root, repo, repo_name, task_id, git) is Ok,
        base_for(plan.root_task_id, task_id, plan.task(task_id)->0.blocked_by, git) matches Err(e)
            ==> planned_worktree(plan, worktree_root, repo, repo_name, task_id, git) == Err::<
            WorktreeView,
            ErrorView,
        >(e),
{
}

/// What stands in the way of a worktree is reported as it is: a task outside the scope, one that is
/// not pending, a path or a branch that is taken.
pub proof fn worktrees_in_the_way_are_reported(
    plan: PlanView,
    worktree_root: Seq<char>,
    repo: Seq<char>,
    repo_name: Option<Seq<char>>,
    task_id: Seq<char>,
    git: GitView,
)
    ensures
        plan.task(task_id) is None ==> planned_worktree(
            plan,
            worktree_root,
            repo,
            repo_name,
            task_id,
            git,
        ) == Err::<WorktreeView, ErrorView>(
            ErrorView::TaskOutsideScope { task_id, root_task_id: plan.root_task_id },
        ),
        plan.task(task_id) matches Some(task) ==> plan.status(task) != TaskStatus::Pending
            ==> planned_worktree(plan, worktree_root, repo, repo_name, task_id, git) == Err::<
            WorktreeView,
            ErrorView,
        >(ErrorView::TaskNotReady { task_id, status: plan.status(task) }),
        planned_worktree(plan, worktree_root, repo, repo_name, task_id, git) matches Err(
            ErrorView::WorktreeExists { path },
        ) ==> git.path_taken && repo_name is Some && begins(path, worktree_root) && ends(
            path,
            repo_name->0 + "."@ + task_id,
        ),
        planned_worktree(plan, worktree_root, repo, repo_name, task_id, git) matches Err(
            ErrorView::BranchExists { branch },
        ) ==> git.branches.contains(branch) && !git.path_taken && ends(
            branch,
            "/"@ + plan.root_task_id + "/"@ + task_id,
        ),
{
    branches_name_root_and_task(plan.root_task_id, task_id);
    worktrees_stand_below_their_root(worktree_root, repo, repo_name, task_id);
    if plan.task(task_id) is Some {
        bases_are_never_in_the_way(
            plan.root_task_id,
            task_id,
            plan.task(task_id)->0.blocked_by,
            git,
        );
    }
}

/// Choosing a base fails for the IDs or the branches of the blockers alone.
proof fn bases_are_never_in_the_way(
    root: Seq<char>,
    task_id: Seq<char>,
    blockers: Seq<Seq<char>>,
    git: GitView,
)
    ensures
        base_for(root, task_id, blockers, git) matches Err(e) ==> e is InvalidRefComponent
            || e is MissingBranch || e is AmbiguousBlockerBranches,
{
    branches_fail_by_name_or_absence(root, blockers, Seq::empty(), None, git);
}

proof fn branches_fail_by_name_or_absence(
    root: Seq<char>,
    blockers: Seq<Seq<char>>,
    found: Seq<Seq<char>>,
    missing: Option<Seq<char>>,
    git: GitView,
)
    ensures
        branches_from(root, blockers, found, missing, git) matches Err(e)
            ==> e is InvalidRefComponent || e is MissingBranch,
    decreases blockers.len(),
{
    if blockers.len() > 0 && branch_for(root, blockers[0]) is Ok {
        let branch = branch_for(root, blockers[0])->Ok_0;
        let rest = blockers.drop_first();
        branches_fail_by_name_or_absence(root, rest, found.push(branch), None, git);
        branches_fail_by_name_or_absence(root, rest, found, Some(branch), git);
        branches_fail_by_name_or_absence(root, rest, found, missing, git);
    }
}

// ---------------------------------------------------------------------------------------------
// What Git answers

/// What is asked while a worktree is planned is answered by what Git knows: whether the path is taken,
/// whether the branch is there, and whether the one reference is an ancestor of the other.
pub proof fn inquiries_are_answered_by_git(
    git: GitView,
    path: Seq<char>,
    ancestor: Seq<char>,
    descendant: Seq<char>,
)
    ensures
        git.says(InquiryView::Path(path)) <==> git.path_taken,
        git.says(InquiryView::Branch(path)) <==> git.branches.contains(path),
        git.says(InquiryView::Ancestor { ancestor, descendant }) <==> git.ancestry.contains(
            (ancestor, descendant),
        ),
{
}

/// A command that answers by its exit code says yes with zero and no with one; anything else is an
/// error that tells the operation.
pub proof fn exit_codes_answer(
    executable: Seq<char>,
    operation: Seq<char>,
    ran: Result<Finished, String>,
)
    ensures
        answer_of(executable, operation, ran) == Ok::<bool, ErrorView>(true) <==> (ran matches Ok(o)
            && o.code == Some(0i32)),
        answer_of(executable, operation, ran) == Ok::<bool, ErrorView>(false) <==> (ran matches Ok(
            o,
        ) && o.code == Some(1i32)),
        output_of(executable, operation, ran) is Ok <==> (ran matches Ok(o) && o.success),
        output_of(executable, operation, ran) matches Ok(o) ==> ran == Ok::<Finished, String>(o),
        answer_of(executable, operation, ran) matches Err(e) ==> tells_failure(
            e,
            executable,
            operation,
            ran,
        ),
        output_of(executable, operation, ran) matches Err(e) ==> tells_failure(
            e,
            executable,
            operation,
            ran,
        ),
{
}

/// The error tells what could not be started, or what failed and with which status.
pub open spec fn tells_failure(
    error: ErrorView,
    executable: Seq<char>,
    operation: Seq<char>,
    ran: Result<Finished, String>,
) -> bool {
    match error {
        ErrorView::Start { executable: e, operation: o, source } => e == executable && o
            == operation && (ran matches Err(reason) && source == reason@),
        ErrorView::CommandFailed { operation: o, status, detail } => o == operation && (
        ran matches Ok(output) && status == output.status@),
        _ => false,
    }
}

/// Git is asked in the repository, or in the worktree that the question is about; a branch is looked
/// for by its full reference, a commit as such, and the ancestor stands before the descendant.
pub proof fn git_is_asked_where_it_matters(
    repo: Seq<char>,
    directory: Seq<char>,
    a: Seq<char>,
    b: Seq<char>,
)
    ensures
        gives(branch_arguments(repo, a), "-C"@, repo),
        branch_arguments(repo, a).contains("show-ref"@),
        gives(branch_arguments(repo, a), "--quiet"@, "refs/heads/"@ + a),
        gives(commit_arguments(repo, a), "-C"@, repo),
        gives(commit_arguments(repo, a), "rev-parse"@, "--verify"@),
        commit_arguments(repo, a).last() == a + "^{commit}"@,
        gives(ancestor_arguments(repo, a, b), "-C"@, repo),
        gives(ancestor_arguments(repo, a, b), "merge-base"@, "--is-ancestor"@),
        gives(ancestor_arguments(repo, a, b), "--is-ancestor"@, a),
        gives(ancestor_arguments(repo, a, b), a, b),
        ancestor_arguments(repo, a, b).last() == b,
        gives(current_arguments(directory), "-C"@, directory),
        gives(current_arguments(directory), "symbolic-ref"@, "--short"@),
        current_arguments(directory).last() == "HEAD"@,
        gives(tracked_arguments(directory), "-C"@, directory),
        gives(tracked_arguments(directory), "ls-files"@, "--error-unmatch"@),
        tracked_arguments(directory).last() == ".sift/issues.jsonl"@,
        gives(skip_arguments(directory), "-C"@, directory),
        gives(skip_arguments(directory), "update-index"@, "--skip-worktree"@),
        skip_arguments(directory).last() == ".sift/issues.jsonl"@,
{
    let c = branch_arguments(repo, a);
    assert(c[0] == "-C"@ && c[1] == repo && c[2] == "show-ref"@ && c[4] == "--quiet"@);
    let c = commit_arguments(repo, a);
    assert(c[0] == "-C"@ && c[1] == repo && c[2] == "rev-parse"@ && c[3] == "--verify"@);
    let c = ancestor_arguments(repo, a, b);
    assert(c[0] == "-C"@ && c[1] == repo && c[2] == "merge-base"@ && c[3] == "--is-ancestor"@);
    assert(c[4] == a && c[5] == b);
    let c = current_arguments(directory);
    assert(c[0] == "-C"@ && c[1] == directory && c[2] == "symbolic-ref"@ && c[3] == "--short"@);
    let c = tracked_arguments(directory);
    assert(c[0] == "-C"@ && c[1] == directory && c[2] == "ls-files"@);
    assert(c[3] == "--error-unmatch"@);
    let c = skip_arguments(directory);
    assert(c[0] == "-C"@ && c[1] == directory && c[2] == "update-index"@);
    assert(c[3] == "--skip-worktree"@);
}

/// What a command wrote is taken without the white space around it; white space alone is an error.
pub proof fn written_texts_say_something(written: Seq<char>, operation: Seq<char>)
    ensures
        text_written(written, operation) is Ok <==> says_something(written),
        text_written(written, operation) matches Ok(text) ==> text.len() > 0 && !white_space(
            text.first(),
        ) && !white_space(text.last()) && occurs(written, text),
        text_written(written, operation) matches Err(e) ==> e == (ErrorView::EmptyOutput {
            operation,
        }),
{
    let (i, j) = trimming_takes_off_the_ends(written);
    assert(occurs_at(written, trim(written), i));
}

// ---------------------------------------------------------------------------------------------
// Deliverables

/// What was delivered is the commit where one is named, even beside an artifact, and the artifact
/// otherwise.
pub proof fn commits_come_before_artifacts(
    commit: Option<Seq<char>>,
    artifact: Option<Seq<char>>,
)
    ensures
        delivered(commit, artifact) is Commit <==> says(commit),
        delivered(commit, artifact) matches DeliverableView::Commit(c) ==> c.len() > 0
            && !white_space(c.first()) && !white_space(c.last()) && occurs(commit->0, c),
        artifact is Some ==> (delivered(commit, artifact) matches DeliverableView::Artifact(a) ==> a
            == artifact->0),
{
    if commit is Some {
        let (i, j) = trimming_takes_off_the_ends(commit->0);
        assert(occurs_at(commit->0, trim(commit->0), i));
    }
}

/// A relative artifact is looked for in the worktree, an absolute one where it says.
pub proof fn artifacts_are_looked_for_in_the_worktree(
    worktree: Seq<char>,
    artifact: Seq<char>,
)
    ensures
        artifact_at(worktree, artifact, true) == artifact,
        begins(artifact_at(worktree, artifact, false), worktree),
        ends(artifact_at(worktree, artifact, false), artifact),
        artifact_at(worktree, artifact, false).len() <= worktree.len() + 1 + artifact.len(),
{
    paths_below_keep_both_parts(worktree, artifact);
}

/// A deliverable is accepted exactly when it is a commit that Git knows and that is on the branch of
/// the worktree, or an artifact that is there.
pub proof fn deliverables_are_there(worktree: WorktreeView, inspected: Inspected)
    ensures
        deliverable_fault(worktree, inspected) is None <==> match inspected {
            Inspected::Commit { commit, resolved, on_branch } => resolved is Ok && on_branch == Ok::<
                bool,
                Error,
            >(true),
            Inspected::Artifact { path, exists } => exists,
        },
        inspected matches Inspected::Artifact { path, exists } ==> !exists ==> deliverable_fault(
            worktree,
            inspected,
        ) == Some(ErrorView::MissingArtifact { path: path@ }),
        inspected matches Inspected::Commit { commit, resolved, on_branch } ==> (resolved is Ok
            && on_branch == Ok::<bool, Error>(false)) ==> deliverable_fault(worktree, inspected)
            == Some(ErrorView::CommitOutsideBranch { commit: commit@, branch: worktree.branch }),
        inspected matches Inspected::Commit { commit, resolved, on_branch } ==> resolved is Err
            ==> deliverable_fault(worktree, inspected) == Some(resolved->Err_0@),
        inspected matches Inspected::Commit { commit, resolved, on_branch } ==> (resolved is Ok
            && on_branch is Err) ==> deliverable_fault(worktree, inspected) == Some(
            on_branch->Err_0@,
        ),
{
}

// ---------------------------------------------------------------------------------------------
// Retained worktrees and their links

/// A retained worktree is accepted exactly when it is a directory on its own branch, which is there,
/// with a link that is accepted.
pub proof fn retained_worktrees_are_on_their_branch(
    worktree: WorktreeView,
    is_directory: bool,
    branch_exists: Result<bool, Error>,
    current_branch: Result<Seq<char>, ErrorView>,
    link: Result<(), Error>,
)
    ensures
        retained_fault(worktree, is_directory, branch_exists, current_branch, link) is None <==> {
            &&& is_directory
            &&& branch_exists == Ok::<bool, Error>(true)
            &&& current_branch == Ok::<Seq<char>, ErrorView>(worktree.branch)
            &&& link is Ok
        },
        !is_directory ==> retained_fault(worktree, is_directory, branch_exists, current_branch, link) == Some(
            ErrorView::MissingWorktree { path: worktree.path },
        ),
        is_directory && branch_exists is Err ==> retained_fault(worktree, is_directory, branch_exists, current_branch, link) == Some(branch_exists->Err_0@),
        is_directory && branch_exists == Ok::<bool, Error>(false) ==> retained_fault(worktree, is_directory, branch_exists, current_branch, link) == Some(
            ErrorView::MissingBranch { branch: worktree.branch },
        ),
        is_directory && branch_exists == Ok::<bool, Error>(true) && current_branch is Err ==> retained_fault(worktree, is_directory, branch_exists, current_branch, link)
            == Some(current_branch->Err_0),
        is_directory && branch_exists == Ok::<bool, Error>(true) && current_branch is Ok
            && current_branch->Ok_0 != worktree.branch ==> retained_fault(worktree, is_directory, branch_exists, current_branch, link) == Some(
            ErrorView::WorktreeBranchMismatch {
                path: worktree.path,
                expected: worktree.branch,
                actual: current_branch->Ok_0,
            },
        ),
        is_directory && branch_exists == Ok::<bool, Error>(true) && current_branch == Ok::<
            Seq<char>,
            ErrorView,
        >(worktree.branch) && link is Err ==> retained_fault(worktree, is_directory, branch_exists, current_branch, link) == Some(link->Err_0@),
{
}

/// A link to the queue is made where nothing is, kept where it leads to the queue, and put in place
/// of a copy that Git keeps; nothing else is replaced, and no queue inside the worktree is linked.
pub proof fn links_replace_nothing_but_copies(
    worktree: Seq<char>,
    queue: Seq<char>,
    inside: bool,
    found: AtLink,
)
    ensures
        link_step(worktree, queue, inside, found) == Ok::<LinkStep, ErrorView>(LinkStep::Create)
            <==> !inside && found is Nothing,
        link_step(worktree, queue, inside, found) == Ok::<LinkStep, ErrorView>(LinkStep::Keep)
            <==> !inside && (found matches AtLink::Link(target) && target@ == queue),
        link_step(worktree, queue, inside, found) == Ok::<LinkStep, ErrorView>(LinkStep::Replace)
            <==> !inside && found == (AtLink::Other { versioned: true }),
        inside ==> link_step(worktree, queue, inside, found) == Err::<LinkStep, ErrorView>(
            ErrorView::QueueInsideWorktree { queue, worktree },
        ),
        !inside ==> (link_step(worktree, queue, inside, found) matches Err(e)
            ==> e matches ErrorView::QueueLinkExists { path } && begins(path, worktree) && ends(
            path,
            ".sift/issues.jsonl"@,
        )),
{
    paths_below_keep_both_parts(worktree, ".sift/issues.jsonl"@);
}

/// The link of a worktree is accepted exactly when it can be read, is absolute, and leads to the
/// canonical path of the queue where one is expected.
pub proof fn accepted_links_lead_to_the_queue(
    worktree: Seq<char>,
    target: Result<Seq<char>, Seq<char>>,
    absolute: bool,
    expected: Option<(Seq<char>, Result<Seq<char>, Seq<char>>)>,
)
    ensures
        link_fault(worktree, target, absolute, expected) is None <==> {
            &&& target is Ok
            &&& absolute
            &&& expected is Some ==> (expected->0).1 == target
        },
        link_fault(worktree, target, absolute, expected) matches Some(e) ==> match e {
            ErrorView::ReadQueueLink { path, source } => target == Err::<Seq<char>, Seq<char>>(
                source,
            ) && begins(path, worktree) && ends(path, ".sift/issues.jsonl"@),
            ErrorView::RelativeQueueLink { path, target: t } => !absolute && target == Ok::<
                Seq<char>,
                Seq<char>,
            >(t) && begins(path, worktree) && ends(path, ".sift/issues.jsonl"@),
            ErrorView::Canonicalize { path, source } => absolute && expected == Some(
                (path, Err::<Seq<char>, Seq<char>>(source)),
            ),
            ErrorView::QueueLinkMismatch { path, expected: wanted, actual } => absolute && target
                == Ok::<Seq<char>, Seq<char>>(actual) && expected is Some && (expected->0).1 == Ok::<
                Seq<char>,
                Seq<char>,
            >(wanted) && wanted != actual && begins(path, worktree) && ends(
                path,
                ".sift/issues.jsonl"@,
            ),
            _ => false,
        },
{
    paths_below_keep_both_parts(worktree, ".sift/issues.jsonl"@);
}

} // verus!
