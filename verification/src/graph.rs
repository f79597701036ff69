//! The graph of tasks and their blockers: what a root depends on, and what makes that no plan.
use vstd::prelude::*;

verus! {

/// The blockers of each task, by the ID of the task.
pub type Graph = Map<Seq<char>, Seq<Seq<char>>>;

/// What keeps the blockers of a root from being a plan.
pub enum Defect {
    /// A task declares a blocker that is not a task.
    Missing { task: Seq<char>, blocker: Seq<char> },
    /// The tasks of a cycle, the first again at the end.
    Cycle(Seq<Seq<char>>),
}

/// The number of tasks that are not on the stack.
pub open spec fn room(g: Graph, stack: Seq<Seq<char>>) -> nat {
    g.dom().difference(stack.to_set()).len()
}

/// Visits a task depth first: the blockers in their declared order, then the task itself. `stack`
/// holds the tasks whose blockers are being visited and `done` those that were visited. Gives
/// the visited tasks, or the first defect that is met.
pub open spec fn visit(
    g: Graph,
    task: Seq<char>,
    stack: Seq<Seq<char>>,
    done: Set<Seq<char>>,
) -> Result<Set<Seq<char>>, Defect>
    decreases room(g, stack), 0nat,
    when g.dom().finite() && g.contains_key(task)
    via visit_ends
{
    if done.contains(task) {
        Ok(done)
    } else if stack.contains(task) {
        Err(Defect::Cycle(stack.skip(stack.index_of_first(task)->0).push(task)))
    } else {
        match visit_blockers(g, task, g[task], stack.push(task), done) {
            Ok(visited) => Ok(visited.insert(task)),
            Err(defect) => Err(defect),
        }
    }
}

/// Visits blockers of a task in order.
pub open spec fn visit_blockers(
    g: Graph,
    task: Seq<char>,
    blockers: Seq<Seq<char>>,
    stack: Seq<Seq<char>>,
    done: Set<Seq<char>>,
) -> Result<Set<Seq<char>>, Defect>
    decreases room(g, stack), blockers.len() + 1,
    when g.dom().finite()
{
    if blockers.len() == 0 {
        Ok(done)
    } else if !g.contains_key(blockers[0]) {
        Err(Defect::Missing { task, blocker: blockers[0] })
    } else {
        match visit(g, blockers[0], stack, done) {
            Ok(visited) => visit_blockers(g, task, blockers.drop_first(), stack, visited),
            Err(defect) => Err(defect),
        }
    }
}

#[via_fn]
proof fn visit_ends(g: Graph, task: Seq<char>, stack: Seq<Seq<char>>, done: Set<Seq<char>>) {
    if !stack.contains(task) {
        room_shrinks(g, stack, task);
    }
}

/// Putting another task on the stack leaves less room.
pub proof fn room_shrinks(g: Graph, stack: Seq<Seq<char>>, task: Seq<char>)
    requires
        g.dom().finite(),
        g.contains_key(task),
        !stack.contains(task),
    ensures
        room(g, stack.push(task)) < room(g, stack),
{
    let outside = g.dom().difference(stack.to_set());
    assert forall|t: Seq<char>| stack.push(task).to_set().contains(t) == (stack.to_set().contains(t)
        || t == task) by {
        if stack.to_set().contains(t) {
            let i = choose|i: int| 0 <= i < stack.len() && stack[i] == t;
            assert(stack.push(task)[i] == t);
        }
        if t == task {
            assert(stack.push(task)[stack.len() as int] == t);
        }
    }
    assert(g.dom().difference(stack.push(task).to_set()) =~= outside.remove(task));
    assert(outside.contains(task));
}

/// The tasks that a root depends on, the root among them, or the first defect that is met.
pub open spec fn scope(g: Graph, root: Seq<char>) -> Result<Set<Seq<char>>, Defect> {
    visit(g, root, Seq::empty(), Set::empty())
}

/// A task is declared as a blocker of another.
pub open spec fn blocked_by(g: Graph, task: Seq<char>, blocker: Seq<char>) -> bool {
    g.contains_key(task) && g[task].contains(blocker)
}

/// Each task of a walk declares the next one as a blocker.
pub open spec fn walk(g: Graph, p: Seq<Seq<char>>) -> bool {
    &&& p.len() > 0
    &&& forall|i: int| 0 <= i < p.len() - 1 ==> blocked_by(g, #[trigger] p[i], p[i + 1])
}

/// A walk leads from the one task to the other.
pub open spec fn reaches(g: Graph, from: Seq<char>, to: Seq<char>) -> bool {
    exists|p: Seq<Seq<char>>| #[trigger] walk(g, p) && p.first() == from && p.last() == to
}

/// A walk that leaves a task and comes back to it.
pub open spec fn cycle(g: Graph, p: Seq<Seq<char>>) -> bool {
    walk(g, p) && p.len() >= 2 && p.first() == p.last()
}

/// Something within reach of the root keeps its blockers from being a plan.
pub open spec fn defect_of(g: Graph, root: Seq<char>, defect: Defect) -> bool {
    match defect {
        Defect::Missing { task, blocker } => reaches(g, root, task) && blocked_by(g, task, blocker)
            && !g.contains_key(blocker),
        Defect::Cycle(p) => cycle(g, p) && reaches(g, root, p.first()),
    }
}

/// Every task is within reach of the root, declares only tasks of the set as blockers, and lies
/// on no cycle.
pub open spec fn settled(g: Graph, root: Seq<char>, done: Set<Seq<char>>) -> bool {
    &&& forall|t: Seq<char>| #[trigger]
        done.contains(t) ==> g.contains_key(t) && reaches(g, root, t)
    &&& closed(g, done)
    &&& forall|p: Seq<Seq<char>>| #[trigger] cycle(g, p) ==> !done.contains(p.first())
}

/// The blockers of every task of the set are in the set.
pub open spec fn closed(g: Graph, done: Set<Seq<char>>) -> bool {
    forall|t: Seq<char>, b: Seq<char>|
        done.contains(t) && #[trigger] blocked_by(g, t, b) ==> done.contains(b)
}

/// A walk that starts in a closed set stays in it.
proof fn walk_stays(g: Graph, done: Set<Seq<char>>, p: Seq<Seq<char>>, i: int)
    requires
        closed(g, done),
        walk(g, p),
        done.contains(p.first()),
        0 <= i < p.len(),
    ensures
        done.contains(p[i]),
    decreases i,
{
    if i > 0 {
        walk_stays(g, done, p, i - 1);
        assert(blocked_by(g, p[i - 1], p[i]));
    }
}

/// What a visit finds, for a stack that leads from the root to the task.
proof fn visit_finds(
    g: Graph,
    root: Seq<char>,
    task: Seq<char>,
    stack: Seq<Seq<char>>,
    done: Set<Seq<char>>,
)
    requires
        g.dom().finite(),
        g.contains_key(task),
        walk(g, stack.push(task)),
        stack.push(task).first() == root,
        settled(g, root, done),
        forall|i: int| 0 <= i < stack.len() ==> !done.contains(#[trigger] stack[i]),
    ensures
        match visit(g, task, stack, done) {
            Ok(visited) => {
                &&& settled(g, root, visited)
                &&& done.subset_of(visited)
                &&& visited.contains(task)
                &&& forall|i: int| 0 <= i < stack.len() ==> !visited.contains(#[trigger] stack[i])
            },
            Err(defect) => defect_of(g, root, defect),
        },
    decreases room(g, stack), 0nat,
{
    let trail = stack.push(task);
    assert(reaches(g, root, task));
    if done.contains(task) {
    } else if stack.contains(task) {
        let at = stack.index_of_first(task)->0;
        stack.index_of_first_ensures(task);
        let p = stack.skip(at).push(task);
        assert forall|i: int| 0 <= i < p.len() - 1 implies blocked_by(g, #[trigger] p[i], p[i + 1]) by {
            assert(p[i] == trail[at + i]);
            assert(p[i + 1] == trail[at + i + 1]);
        }
        assert(p.first() == task);
    } else {
        room_shrinks(g, stack, task);
        visit_blockers_finds(g, root, task, g[task], trail, done);
        match visit_blockers(g, task, g[task], trail, done) {
            Ok(visited) => {
                let all = visited.insert(task);
                assert(trail[stack.len() as int] == task);
                assert(!visited.contains(task));
                assert forall|i: int| 0 <= i < stack.len() implies !all.contains(
                    #[trigger] stack[i],
                ) by {
                    assert(trail[i] == stack[i]);
                }
                assert forall|p: Seq<Seq<char>>| #[trigger] cycle(g, p) implies !all.contains(
                    p.first(),
                ) by {
                    if p.first() == task {
                        let rest = p.skip(1);
                        assert(blocked_by(g, p[0], p[1]));
                        assert(walk(g, rest)) by {
                            assert forall|i: int| 0 <= i < rest.len() - 1 implies blocked_by(
                                g,
                                #[trigger] rest[i],
                                rest[i + 1],
                            ) by {
                                assert(blocked_by(g, p[i + 1], p[i + 2]));
                            }
                        }
                        walk_stays(g, visited, rest, rest.len() - 1);
                    }
                }
            },
            Err(_) => {},
        }
    }
}

/// What visiting blockers finds, for a stack that leads from the root to their task.
proof fn visit_blockers_finds(
    g: Graph,
    root: Seq<char>,
    task: Seq<char>,
    blockers: Seq<Seq<char>>,
    stack: Seq<Seq<char>>,
    done: Set<Seq<char>>,
)
    requires
        g.dom().finite(),
        g.contains_key(task),
        walk(g, stack),
        stack.first() == root,
        stack.last() == task,
        forall|b: Seq<char>| #[trigger] blockers.contains(b) ==> g[task].contains(b),
        settled(g, root, done),
        forall|i: int| 0 <= i < stack.len() ==> !done.contains(#[trigger] stack[i]),
    ensures
        match visit_blockers(g, task, blockers, stack, done) {
            Ok(visited) => {
                &&& settled(g, root, visited)
                &&& done.subset_of(visited)
                &&& forall|b: Seq<char>| #[trigger] blockers.contains(b) ==> visited.contains(b)
                &&& forall|i: int| 0 <= i < stack.len() ==> !visited.contains(#[trigger] stack[i])
            },
            Err(defect) => defect_of(g, root, defect),
        },
    decreases room(g, stack), blockers.len() + 1,
{
    assert(reaches(g, root, task));
    if blockers.len() > 0 {
        let first = blockers[0];
        assert(blockers.contains(first));
        if g.contains_key(first) {
            let trail = stack.push(first);
            assert forall|i: int| 0 <= i < trail.len() - 1 implies blocked_by(
                g,
                #[trigger] trail[i],
                trail[i + 1],
            ) by {
                if i < stack.len() - 1 {
                    assert(blocked_by(g, stack[i], stack[i + 1]));
                }
            }
            visit_finds(g, root, first, stack, done);
            match visit(g, first, stack, done) {
                Ok(visited) => {
                    let rest = blockers.drop_first();
                    assert forall|b: Seq<char>| #[trigger] rest.contains(b) implies g[task].contains(
                        b,
                    ) by {
                        let i = choose|i: int| 0 <= i < rest.len() && rest[i] == b;
                        assert(blockers[i + 1] == b);
                        assert(blockers.contains(b));
                    }
                    visit_blockers_finds(g, root, task, rest, stack, visited);
                    assert forall|b: Seq<char>| #[trigger] blockers.contains(b) implies b == first
                        || rest.contains(b) by {
                        let i = choose|i: int| 0 <= i < blockers.len() && blockers[i] == b;
                        if i > 0 {
                            assert(rest[i - 1] == b);
                        }
                    }
                },
                Err(_) => {},
            }
        }
    }
}

/// The scope of a root holds exactly the tasks within reach of it; every blocker of theirs is a
/// task, and none of them lies on a cycle.
pub proof fn scope_is_what_the_root_reaches(g: Graph, root: Seq<char>)
    requires
        g.dom().finite(),
        g.contains_key(root),
        scope(g, root) is Ok,
    ensures
        forall|t: Seq<char>| #[trigger] scope(g, root)->Ok_0.contains(t) <==> reaches(g, root, t),
        forall|t: Seq<char>| #[trigger] reaches(g, root, t) ==> g.contains_key(t),
        forall|p: Seq<Seq<char>>| #[trigger] cycle(g, p) ==> !reaches(g, root, p.first()),
        scope(g, root)->Ok_0.subset_of(g.dom()),
{
    let none = Seq::<Seq<char>>::empty();
    visit_finds(g, root, root, none, Set::empty());
    let all = scope(g, root)->Ok_0;
    assert forall|t: Seq<char>| #[trigger] reaches(g, root, t) implies all.contains(t) by {
        let p = choose|p: Seq<Seq<char>>| #[trigger]
            walk(g, p) && p.first() == root && p.last() == t;
        walk_stays(g, all, p, p.len() - 1);
    }
}

/// The scope of a root holds the root, and the blockers of each of its tasks.
pub proof fn scope_is_closed(g: Graph, root: Seq<char>)
    requires
        g.dom().finite(),
        g.contains_key(root),
        scope(g, root) is Ok,
    ensures
        scope(g, root)->Ok_0.contains(root),
        scope(g, root)->Ok_0.subset_of(g.dom()),
        closed(g, scope(g, root)->Ok_0),
{
    visit_finds(g, root, root, Seq::empty(), Set::empty());
}

/// A reported defect is a defect of the plan, within reach of the root.
pub proof fn reported_defect_is_real(g: Graph, root: Seq<char>)
    requires
        g.dom().finite(),
        g.contains_key(root),
        scope(g, root) is Err,
    ensures
        defect_of(g, root, scope(g, root)->Err_0),
{
    visit_finds(g, root, root, Seq::empty(), Set::empty());
}

/// A root has a scope exactly when every blocker within reach is a task and no cycle is within
/// reach.
pub proof fn scope_exists_without_defects(g: Graph, root: Seq<char>)
    requires
        g.dom().finite(),
        g.contains_key(root),
    ensures
        scope(g, root) is Ok <==> forall|defect: Defect| !#[trigger] defect_of(g, root, defect),
{
    if scope(g, root) is Ok {
        scope_is_what_the_root_reaches(g, root);
        visit_finds(g, root, root, Seq::empty(), Set::empty());
        assert forall|defect: Defect| !#[trigger] defect_of(g, root, defect) by {
            if let Defect::Missing { task, blocker } = defect {
                if defect_of(g, root, defect) {
                    assert(scope(g, root)->Ok_0.contains(task));
                    assert(scope(g, root)->Ok_0.contains(blocker));
                }
            }
        }
    } else {
        reported_defect_is_real(g, root);
    }
}

/// A walk that starts in a scope is a walk through every graph that has the same blockers there.
proof fn walk_carries_over(
    g: Graph,
    h: Graph,
    inside: Set<Seq<char>>,
    p: Seq<Seq<char>>,
)
    requires
        closed(g, inside),
        forall|t: Seq<char>| #[trigger]
            inside.contains(t) ==> g.contains_key(t) && h.contains_key(t) && g[t] == h[t],
        inside.contains(p.first()),
        walk(h, p),
    ensures
        walk(g, p),
        forall|i: int| 0 <= i < p.len() ==> inside.contains(#[trigger] p[i]),
    decreases p.len(),
{
    if p.len() > 1 {
        let shorter = p.drop_last();
        assert forall|i: int| 0 <= i < shorter.len() - 1 implies blocked_by(
            h,
            #[trigger] shorter[i],
            shorter[i + 1],
        ) by {
            assert(blocked_by(h, p[i], p[i + 1]));
        }
        walk_carries_over(g, h, inside, shorter);
        let n = p.len() - 2;
        assert(shorter[n] == p[n]);
        assert(blocked_by(h, p[n], p[n + 1]));
        assert(blocked_by(g, p[n], p[n + 1]));
        assert forall|i: int| 0 <= i < p.len() - 1 implies blocked_by(
            g,
            #[trigger] p[i],
            p[i + 1],
        ) by {
            if i < n {
                assert(blocked_by(g, shorter[i], shorter[i + 1]));
            }
        }
        assert forall|i: int| 0 <= i < p.len() implies inside.contains(#[trigger] p[i]) by {
            if i <= n {
                assert(inside.contains(shorter[i]));
            }
        }
    }
}

/// The scope of a root is the same in every graph that has the same blockers there.
pub proof fn scope_depends_on_its_tasks(g: Graph, h: Graph, root: Seq<char>)
    requires
        g.dom().finite(),
        h.dom().finite(),
        g.contains_key(root),
        scope(g, root) is Ok,
        forall|t: Seq<char>| #[trigger]
            scope(g, root)->Ok_0.contains(t) ==> h.contains_key(t) && h[t] == g[t],
    ensures
        h.contains_key(root),
        scope(h, root) == scope(g, root),
{
    let inside = scope(g, root)->Ok_0;
    scope_is_closed(g, root);
    scope_is_what_the_root_reaches(g, root);
    assert forall|t: Seq<char>| #[trigger] reaches(h, root, t) implies inside.contains(t) by {
        let p = choose|p: Seq<Seq<char>>| #[trigger]
            walk(h, p) && p.first() == root && p.last() == t;
        walk_carries_over(g, h, inside, p);
        assert(inside.contains(p[p.len() - 1]));
    }
    assert forall|t: Seq<char>| inside.contains(t) implies #[trigger] reaches(h, root, t) by {
        assert(reaches(g, root, t));
        let p = choose|p: Seq<Seq<char>>| #[trigger]
            walk(g, p) && p.first() == root && p.last() == t;
        assert(closed(h, inside)) by {
            assert forall|a: Seq<char>, b: Seq<char>|
                inside.contains(a) && #[trigger] blocked_by(h, a, b) implies inside.contains(
                b,
            ) by {
                assert(blocked_by(g, a, b));
            }
        }
        walk_carries_over(h, g, inside, p);
    }
    assert forall|defect: Defect| !#[trigger] defect_of(h, root, defect) by {
        if defect_of(h, root, defect) {
            match defect {
                Defect::Missing { task, blocker } => {
                    assert(inside.contains(task));
                    assert(blocked_by(g, task, blocker));
                    assert(inside.contains(blocker));
                },
                Defect::Cycle(p) => {
                    assert(inside.contains(p.first()));
                    walk_carries_over(g, h, inside, p);
                    assert(cycle(g, p));
                    assert(reaches(g, root, p.first()));
                },
            }
        }
    }
    scope_exists_without_defects(h, root);
    scope_is_what_the_root_reaches(h, root);
    assert(scope(h, root)->Ok_0 =~= inside);
}

/// A blocker of the task is among the open tasks.
pub open spec fn held_up(g: Graph, open: Set<Seq<char>>, task: Seq<char>) -> bool {
    exists|b: Seq<char>| open.contains(b) && #[trigger] blocked_by(g, task, b)
}

/// A walk of the given number of steps through open tasks, from an open task on.
spec fn descent(g: Graph, open: Set<Seq<char>>, task: Seq<char>, steps: nat) -> Seq<Seq<char>>
    decreases steps,
{
    if steps == 0 {
        seq![task]
    } else {
        let before = descent(g, open, task, (steps - 1) as nat);
        before.push(
            choose|b: Seq<char>| open.contains(b) && #[trigger] blocked_by(g, before.last(), b),
        )
    }
}

proof fn descent_is_a_walk(g: Graph, open: Set<Seq<char>>, task: Seq<char>, steps: nat)
    requires
        open.contains(task),
        forall|t: Seq<char>| #[trigger] open.contains(t) ==> held_up(g, open, t),
    ensures
        walk(g, descent(g, open, task, steps)),
        descent(g, open, task, steps).len() == steps + 1,
        forall|i: int| 0 <= i <= steps ==> open.contains(#[trigger] descent(g, open, task, steps)[i]),
    decreases steps,
{
    if steps > 0 {
        descent_is_a_walk(g, open, task, (steps - 1) as nat);
        let before = descent(g, open, task, (steps - 1) as nat);
        let p = descent(g, open, task, steps);
        assert(open.contains(before[steps - 1]));
        assert forall|i: int| 0 <= i < p.len() - 1 implies blocked_by(g, #[trigger] p[i], p[i + 1]) by {
            if i < before.len() - 1 {
                assert(blocked_by(g, before[i], before[i + 1]));
            }
        }
    }
}

/// A walk through more tasks than there are comes back to one of them.
proof fn long_walk_has_a_cycle(g: Graph, open: Set<Seq<char>>, p: Seq<Seq<char>>) -> (c: Seq<
    Seq<char>,
>)
    requires
        open.finite(),
        walk(g, p),
        p.len() > open.len(),
        forall|i: int| 0 <= i < p.len() ==> open.contains(#[trigger] p[i]),
    ensures
        cycle(g, c),
        open.contains(c.first()),
{
    if p.no_duplicates() {
        p.unique_seq_to_set();
        assert(p.to_set().subset_of(open));
        vstd::set_lib::lemma_len_subset(p.to_set(), open);
        assert(false);
    }
    let (i, j) = choose|i: int, j: int| 0 <= i < j < p.len() && p[i] == p[j];
    let c = p.subrange(i, j + 1);
    assert forall|k: int| 0 <= k < c.len() - 1 implies blocked_by(g, #[trigger] c[k], c[k + 1]) by {
        assert(blocked_by(g, p[i + k], p[i + k + 1]));
    }
    c
}

/// Work never stalls: while tasks of a scope are open, one of them has no open blocker.
pub proof fn some_open_task_is_unblocked(g: Graph, root: Seq<char>, open: Set<Seq<char>>)
    requires
        g.dom().finite(),
        g.contains_key(root),
        scope(g, root) is Ok,
        open.subset_of(scope(g, root)->Ok_0),
        exists|t: Seq<char>| open.contains(t),
    ensures
        exists|t: Seq<char>| #[trigger] open.contains(t) && !held_up(g, open, t),
{
    scope_is_what_the_root_reaches(g, root);
    let start = choose|t: Seq<char>| open.contains(t);
    if forall|t: Seq<char>| #[trigger] open.contains(t) ==> held_up(g, open, t) {
        vstd::set_lib::lemma_len_subset(open, g.dom());
        descent_is_a_walk(g, open, start, open.len());
        let c = long_walk_has_a_cycle(g, open, descent(g, open, start, open.len()));
        assert(reaches(g, root, c.first()));
        assert(false);
    }
}

/// What a blocker reaches, its task reaches.
proof fn reaches_through_a_blocker(g: Graph, task: Seq<char>, blocker: Seq<char>, to: Seq<char>)
    requires
        blocked_by(g, task, blocker),
        reaches(g, blocker, to),
    ensures
        reaches(g, task, to),
{
    let p = choose|p: Seq<Seq<char>>| #[trigger]
        walk(g, p) && p.first() == blocker && p.last() == to;
    let q = seq![task] + p;
    assert forall|i: int| 0 <= i < q.len() - 1 implies blocked_by(g, #[trigger] q[i], q[i + 1]) by {
        if i > 0 {
            assert(q[i] == p[i - 1]);
            assert(q[i + 1] == p[i]);
        }
    }
    assert(walk(g, q));
}

/// Where a defect ends: at the task with the missing blocker, or at the end of the cycle.
spec fn defect_end(defect: Defect) -> Seq<char> {
    match defect {
        Defect::Missing { task, blocker } => task,
        Defect::Cycle(p) => p.last(),
    }
}

/// What a visit meets, the visited task reaches.
proof fn visits_meet_what_they_reach(
    g: Graph,
    task: Seq<char>,
    stack: Seq<Seq<char>>,
    done: Set<Seq<char>>,
)
    requires
        g.dom().finite(),
        g.contains_key(task),
    ensures
        visit(g, task, stack, done) matches Err(defect) ==> reaches(g, task, defect_end(defect)),
    decreases room(g, stack), 0nat,
{
    let alone = seq![task];
    assert(walk(g, alone) && alone.first() == task && alone.last() == task);
    assert(reaches(g, task, task));
    if !done.contains(task) && !stack.contains(task) {
        room_shrinks(g, stack, task);
        blockers_meet_what_they_reach(g, task, g[task], stack.push(task), done);
    }
}

proof fn blockers_meet_what_they_reach(
    g: Graph,
    task: Seq<char>,
    blockers: Seq<Seq<char>>,
    stack: Seq<Seq<char>>,
    done: Set<Seq<char>>,
)
    requires
        g.dom().finite(),
        g.contains_key(task),
        forall|i: int| 0 <= i < blockers.len() ==> g[task].contains(#[trigger] blockers[i]),
    ensures
        visit_blockers(g, task, blockers, stack, done) matches Err(defect) ==> reaches(
            g,
            task,
            defect_end(defect),
        ),
    decreases room(g, stack), blockers.len() + 1,
{
    let alone = seq![task];
    assert(walk(g, alone) && alone.first() == task && alone.last() == task);
    assert(reaches(g, task, task));
    if blockers.len() > 0 && g.contains_key(blockers[0]) {
        let first = blockers[0];
        let rest = blockers.drop_first();
        assert(blocked_by(g, task, first));
        visits_meet_what_they_reach(g, first, stack, done);
        match visit(g, first, stack, done) {
            Ok(visited) => {
                assert forall|i: int| 0 <= i < rest.len() implies g[task].contains(
                    #[trigger] rest[i],
                ) by {
                    assert(rest[i] == blockers[i + 1]);
                }
                blockers_meet_what_they_reach(g, task, rest, stack, visited);
            },
            Err(defect) => {
                reaches_through_a_blocker(g, task, first, defect_end(defect));
            },
        }
    }
}

/// The task is there, and no defect is within its reach.
pub open spec fn without_defects(g: Graph, task: Seq<char>) -> bool {
    g.contains_key(task) && forall|defect: Defect| !#[trigger] defect_of(g, task, defect)
}

/// Blockers are looked at in the order in which they are declared: the defect that is reported is that
/// of the first blocker of the root that has one, be it that the blocker is missing or that a defect
/// is within its reach.
pub proof fn the_first_defective_blocker_is_reported(g: Graph, root: Seq<char>, i: int)
    requires
        g.dom().finite(),
        g.contains_key(root),
        0 <= i < g[root].len(),
        forall|j: int| 0 <= j < i ==> without_defects(g, #[trigger] g[root][j]),
    ensures
        !g.contains_key(g[root][i]) ==> scope(g, root) == Err::<Set<Seq<char>>, Defect>(
            Defect::Missing { task: root, blocker: g[root][i] },
        ),
        g.contains_key(g[root][i]) ==> (forall|defect: Defect|
            #[trigger] defect_of(g, g[root][i], defect) ==> (scope(g, root) matches Err(reported)
                && defect_of(g, g[root][i], reported))),
{
    let blockers = g[root];
    let none = Seq::<Seq<char>>::empty();
    let stack = none.push(root);
    assert(walk(g, stack));
    assert(blockers.skip(0) =~= blockers);
    assert(stack[0] == root);
    first_defect_behind(g, root, i, 0, Set::empty());
}

/// What is reported of the blockers of a root from a position on, where those before the one are
/// without defects.
proof fn first_defect_behind(g: Graph, root: Seq<char>, i: int, from: int, done: Set<Seq<char>>)
    requires
        g.dom().finite(),
        g.contains_key(root),
        0 <= from <= i < g[root].len(),
        settled(g, root, done),
        !done.contains(root),
        forall|j: int| 0 <= j < i ==> without_defects(g, #[trigger] g[root][j]),
    ensures
        ({
            let found = visit_blockers(
                g,
                root,
                g[root].skip(from),
                Seq::<Seq<char>>::empty().push(root),
                done,
            );
            &&& !g.contains_key(g[root][i]) ==> found == Err::<Set<Seq<char>>, Defect>(
                Defect::Missing { task: root, blocker: g[root][i] },
            )
            &&& g.contains_key(g[root][i]) ==> forall|defect: Defect| #[trigger]
                defect_of(g, g[root][i], defect) ==> (found matches Err(reported) && defect_of(
                    g,
                    g[root][i],
                    reported,
                ))
        }),
    decreases i - from,
{
    let blockers = g[root].skip(from);
    let stack = Seq::<Seq<char>>::empty().push(root);
    let first = blockers[0];
    assert(first == g[root][from]);
    assert(g[root].contains(first));
    assert(blocked_by(g, root, first));
    if from < i {
        assert(without_defects(g, g[root][from]));
    }
    if g.contains_key(first) {
        let trail = stack.push(first);
        assert(walk(g, trail)) by {
            assert(trail[0] == root && trail[1] == first);
        }
        visit_finds(g, root, first, stack, done);
        visits_meet_what_they_reach(g, first, stack, done);
        match visit(g, first, stack, done) {
            Err(defect) => {
                assert(defect_of(g, first, defect));
                if from < i {
                    assert(without_defects(g, g[root][from]));
                }
            },
            Ok(visited) => {
                assert(stack[0] == root);
                if from < i {
                    assert(blockers.drop_first() =~= g[root].skip(from + 1));
                    first_defect_behind(g, root, i, from + 1, visited);
                } else {
                    assert forall|defect: Defect| !#[trigger] defect_of(g, first, defect) by {
                        if defect_of(g, first, defect) {
                            let end = match defect {
                                Defect::Missing { task, blocker } => task,
                                Defect::Cycle(p) => p.first(),
                            };
                            let p = choose|p: Seq<Seq<char>>| #[trigger]
                                walk(g, p) && p.first() == first && p.last() == end;
                            walk_stays(g, visited, p, p.len() - 1);
                        }
                    }
                }
            },
        }
    }
}

} // verus!
