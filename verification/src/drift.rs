//! When a plan has changed: what a snapshot tells apart, and what it does not.
use vstd::prelude::*;
use crate::graph;
use crate::json::{field_in, member, names, ordered, without, JsonView, MemberView};
use crate::sq::{
    disowned, genuine, graph_of, plan_for, queue_from, replaced, same_snapshot_same_tasks,
    validated_plan_from, ErrorView, PlanView, QueueView, TaskView,
};
use crate::table::{ascending, first_fault, is_first_fault};
use crate::text::{before, before_irreflexive, before_transitive};

verus! {

/// A member of a task that tells of its progress.
pub open spec fn of_progress(name: Seq<char>) -> bool {
    name == "status"@ || name == "created_at"@ || name == "updated_at"@
}

/// The blockers as a task declares them, where it declares any.
pub open spec fn declaration(task: TaskView) -> Option<JsonView> {
    if task.blocked_by.len() == 0 {
        None
    } else {
        task.raw.field("blocked_by"@)
    }
}

/// What the metadata of a task holds under a name, but for the record of ownership.
pub open spec fn metadata_kept(task: TaskView, name: Seq<char>) -> Option<JsonView> {
    if name == "agent_orchestrator"@ {
        None
    } else {
        field_in(task.raw.field("metadata"@), name)
    }
}

/// Two versions of a task differ at most in status, timestamps and ownership.
pub open spec fn same_work(a: TaskView, b: TaskView) -> bool {
    &&& forall|name: Seq<char>|
        !of_progress(name) && name != "metadata"@ && name != "blocked_by"@
            ==> #[trigger] a.raw.field(name) == b.raw.field(name)
    &&& declaration(a) == declaration(b)
    &&& forall|name: Seq<char>| #[trigger] metadata_kept(a, name) == metadata_kept(b, name)
}

/// The queue holds every task of the plan, and each differs at most in status, timestamps and
/// ownership.
pub open spec fn same_plan(plan: PlanView, queue: QueueView) -> bool {
    forall|id: Seq<char>| #[trigger]
        plan.task_ids().contains(id) ==> queue.tasks.contains_key(id) && same_work(
            plan.queue.tasks[id],
            queue.tasks[id],
        )
}

// ---------------------------------------------------------------------------------------------
// Members

/// A member is found where one has its name.
proof fn member_is_found(members: Seq<MemberView>, name: Seq<char>)
    ensures
        match member(members, name) {
            Some(value) => exists|i: int|
                0 <= i < members.len() && (#[trigger] members[i]).name == name && members[i].value
                    == value,
            None => forall|i: int| 0 <= i < members.len() ==> (#[trigger] members[i]).name != name,
        },
    decreases members.len(),
{
    if members.len() > 0 {
        let rest = members.drop_first();
        member_is_found(rest, name);
        if members[0].name != name {
            match member(rest, name) {
                Some(value) => {
                    let i = choose|i: int|
                        0 <= i < rest.len() && (#[trigger] rest[i]).name == name && rest[i].value
                            == value;
                    assert(members[i + 1].name == name && members[i + 1].value == value);
                },
                None => {
                    assert forall|i: int| 0 <= i < members.len() implies (
                    #[trigger] members[i]).name != name by {
                        if i > 0 {
                            assert(rest[i - 1].name != name);
                        }
                    }
                },
            }
        }
    }
}

/// A member at the end counts where no member before it has its name.
proof fn member_at_the_end(members: Seq<MemberView>, last: MemberView, name: Seq<char>)
    ensures
        member(members.push(last), name) == (match member(members, name) {
            Some(v) => Some(v),
            None => if last.name == name {
                Some(last.value)
            } else {
                None
            },
        }),
    decreases members.len(),
{
    if members.len() > 0 {
        member_at_the_end(members.drop_first(), last, name);
        assert(members.push(last).drop_first() =~= members.drop_first().push(last));
    } else {
        assert(members.push(last).drop_first() =~= Seq::<MemberView>::empty());
        assert(member(Seq::<MemberView>::empty(), name) is None);
    }
}

/// Leaving out the members of a name leaves the others.
proof fn member_without(members: Seq<MemberView>, out: Seq<char>, name: Seq<char>)
    ensures
        member(without(members, out), name) == (if name == out {
            None
        } else {
            member(members, name)
        }),
    decreases members.len(),
{
    if members.len() > 0 {
        let rest = members.drop_last();
        let last = members.last();
        member_without(rest, out, name);
        member_at_the_end(rest, last, name);
        member_at_the_end(without(rest, out), last, name);
        assert(rest.push(last) =~= members);
    }
}

/// Leaving out the members of a name keeps the others in order.
proof fn order_without(members: Seq<MemberView>, out: Seq<char>)
    requires
        ascending(names(members)),
    ensures
        ascending(names(without(members, out))),
        forall|i: int|
            0 <= i < without(members, out).len() ==> members.contains(
                #[trigger] without(members, out)[i],
            ),
    decreases members.len(),
{
    if members.len() > 0 {
        let rest = members.drop_last();
        let last = members.last();
        let n = rest.len() as int;
        assert forall|i: int, j: int| 0 <= i < j < n implies before(
            #[trigger] names(rest)[i],
            #[trigger] names(rest)[j],
        ) by {
            assert(before(names(members)[i], names(members)[j]));
        }
        order_without(rest, out);
        let kept = without(rest, out);
        assert forall|i: int| 0 <= i < kept.len() implies before(
            (#[trigger] kept[i]).name,
            last.name,
        ) && members.contains(kept[i]) by {
            let k = choose|k: int| 0 <= k < n && rest[k] == kept[i];
            assert(members[k] == kept[i]);
            assert(before(names(members)[k], names(members)[n]));
        }
        let all = without(members, out);
        assert forall|i: int, j: int| 0 <= i < j < all.len() implies before(
            #[trigger] names(all)[i],
            #[trigger] names(all)[j],
        ) by {
            if j < kept.len() {
                assert(before(names(kept)[i], names(kept)[j]));
            } else {
                assert(before(kept[i].name, last.name));
            }
        }
        assert forall|i: int| 0 <= i < all.len() implies members.contains(#[trigger] all[i]) by {
            if i < kept.len() {
                assert(members.contains(kept[i]));
            } else {
                assert(members[n] == all[i]);
            }
        }
    }
}

/// Putting a value in place of that of a member leaves the others.
proof fn member_replaced(
    members: Seq<MemberView>,
    at: Seq<char>,
    value: JsonView,
    name: Seq<char>,
)
    ensures
        member(replaced(members, at, value), name) == (if name == at && member(
            members,
            at,
        ) is Some {
            Some(value)
        } else {
            member(members, name)
        }),
    decreases members.len(),
{
    if members.len() > 0 {
        member_replaced(members.drop_first(), at, value, name);
        assert(replaced(members, at, value).drop_first() =~= replaced(
            members.drop_first(),
            at,
            value,
        ));
    }
}

/// Members in the order of their names are told by what stands under each name.
proof fn members_are_told_by_name(a: Seq<MemberView>, b: Seq<MemberView>)
    requires
        ascending(names(a)),
        ascending(names(b)),
        forall|name: Seq<char>| #[trigger] member(a, name) == member(b, name),
    ensures
        a == b,
    decreases a.len(),
{
    if a.len() == 0 {
        if b.len() > 0 {
            assert(member(a, b[0].name) == member(b, b[0].name));
        }
        assert(a =~= b);
    } else {
        let first = a[0].name;
        assert(member(a, first) == member(b, first));
        member_is_found(b, first);
        let j = choose|j: int| 0 <= j < b.len() && (#[trigger] b[j]).name == first;
        assert(member(a, b[0].name) == member(b, b[0].name));
        member_is_found(a, b[0].name);
        let i = choose|i: int| 0 <= i < a.len() && (#[trigger] a[i]).name == b[0].name;
        if i > 0 && j > 0 {
            assert(before(names(a)[0], names(a)[i]));
            assert(before(names(b)[0], names(b)[j]));
            before_transitive(first, b[0].name, first);
            before_irreflexive(first);
        }
        assert(b[0] == a[0]);
        let c = a.drop_first();
        let d = b.drop_first();
        tail_is_ordered(a);
        tail_is_ordered(b);
        assert forall|name: Seq<char>| #[trigger] member(c, name) == member(d, name) by {
            assert(member(a, name) == member(b, name));
        }
        members_are_told_by_name(c, d);
        assert(a =~= seq![a[0]] + c);
        assert(b =~= seq![b[0]] + d);
    }
}

/// What follows the first of members in order is in order, and does not hold its name again.
proof fn tail_is_ordered(members: Seq<MemberView>)
    requires
        members.len() > 0,
        ascending(names(members)),
    ensures
        ascending(names(members.drop_first())),
        member(members.drop_first(), members[0].name) is None,
{
    let rest = members.drop_first();
    assert forall|i: int, j: int| 0 <= i < j < rest.len() implies before(
        #[trigger] names(rest)[i],
        #[trigger] names(rest)[j],
    ) by {
        assert(before(names(members)[i + 1], names(members)[j + 1]));
    }
    member_is_found(rest, members[0].name);
    if member(rest, members[0].name) is Some {
        let i = choose|i: int| 0 <= i < rest.len() && (#[trigger] rest[i]).name == members[0].name;
        assert(before(names(members)[0], names(members)[i + 1]));
        before_irreflexive(members[0].name);
    }
}

// ---------------------------------------------------------------------------------------------
// Plan values

/// What is left of the metadata of a task without the record of ownership.
spec fn rest_of_metadata(task: TaskView) -> Seq<MemberView> {
    match task.raw.field("metadata"@) {
        Some(JsonView::Object(members)) => without(members, "agent_orchestrator"@),
        _ => Seq::empty(),
    }
}

/// What the plan value of a task holds under a name.
spec fn planned_field(task: TaskView, name: Seq<char>) -> Option<JsonView> {
    if of_progress(name) {
        None
    } else if name == "blocked_by"@ {
        declaration(task)
    } else if name == "metadata"@ {
        if rest_of_metadata(task).len() == 0 {
            None
        } else {
            Some(JsonView::Object(rest_of_metadata(task)))
        }
    } else {
        task.raw.field(name)
    }
}

proof fn names_differ()
    ensures
        !of_progress("metadata"@),
        !of_progress("blocked_by"@),
        !of_progress("title"@),
        "metadata"@ != "blocked_by"@,
        "title"@ != "metadata"@,
        "title"@ != "blocked_by"@,
{
    reveal_strlit("metadata");
    reveal_strlit("status");
    reveal_strlit("created_at");
    reveal_strlit("updated_at");
    reveal_strlit("blocked_by");
    reveal_strlit("title");
    assert("metadata"@.len() == 8);
    assert("status"@.len() == 6);
    assert("title"@.len() == 5);
    assert("created_at"@.len() == 10);
    assert("updated_at"@.len() == 10);
    assert("blocked_by"@.len() == 10);
    assert("blocked_by"@[0] == 'b');
    assert("created_at"@[0] == 'c');
    assert("updated_at"@[0] == 'u');
}

/// The plan value of a task holds its members in order, and under each name what it should.
proof fn plan_value_holds_the_work(task: TaskView)
    requires
        task.raw is Object,
        ordered(task.raw),
    ensures
        task.plan_value() is Object,
        ascending(names(task.plan_value()->Object_0)),
        forall|name: Seq<char>| #[trigger]
            member(task.plan_value()->Object_0, name) == planned_field(task, name),
        ascending(names(rest_of_metadata(task))),
        forall|name: Seq<char>| #[trigger]
            member(rest_of_metadata(task), name) == metadata_kept(task, name),
{
    names_differ();
    reveal_with_fuel(ordered, 2);
    let m = task.raw->Object_0;
    let m1 = without(m, "status"@);
    let m2 = without(m1, "created_at"@);
    let m3 = without(m2, "updated_at"@);
    let m4 = without(m3, "blocked_by"@);
    let unblocked = task.blocked_by.len() == 0;
    let kept = if unblocked {
        m4
    } else {
        m3
    };
    order_without(m, "status"@);
    order_without(m1, "created_at"@);
    order_without(m2, "updated_at"@);
    order_without(m3, "blocked_by"@);
    order_without(kept, "metadata"@);
    assert forall|name: Seq<char>| #[trigger] member(kept, name) == (if of_progress(name) {
        None
    } else if name == "blocked_by"@ {
        declaration(task)
    } else {
        task.raw.field(name)
    }) by {
        member_without(m, "status"@, name);
        member_without(m1, "created_at"@, name);
        member_without(m2, "updated_at"@, name);
        member_without(m3, "blocked_by"@, name);
    }
    let rest = rest_of_metadata(task);
    assert(member(kept, "metadata"@) == task.raw.field("metadata"@));
    match task.raw.field("metadata"@) {
        Some(JsonView::Object(x)) => {
            member_is_found(m, "metadata"@);
            let i = choose|i: int|
                0 <= i < m.len() && (#[trigger] m[i]).name == "metadata"@ && m[i].value
                    == JsonView::Object(x);
            assert(ordered(m[i].value));
            assert(ascending(names(x)));
            order_without(x, "agent_orchestrator"@);
            assert forall|name: Seq<char>| #[trigger] member(rest, name) == metadata_kept(
                task,
                name,
            ) by {
                member_without(x, "agent_orchestrator"@, name);
            }
        },
        _ => {
            assert(names(rest) =~= Seq::empty());
        },
    }
    let held = JsonView::Object(rest);
    let planned = disowned(kept);
    assert(task.plan_value() == JsonView::Object(planned));
    assert forall|name: Seq<char>| #[trigger] member(planned, name) == planned_field(
        task,
        name,
    ) by {
        member_without(kept, "metadata"@, name);
        member_replaced(kept, "metadata"@, held, name);
    }
    assert(names(replaced(kept, "metadata"@, held)) =~= names(kept));
}

/// Plan values tell the work apart, and nothing else: two versions of a task have the same plan
/// value exactly when they differ at most in status, timestamps and ownership.
pub proof fn plan_values_tell_the_work(a: TaskView, b: TaskView)
    requires
        a.raw is Object,
        ordered(a.raw),
        b.raw is Object,
        ordered(b.raw),
    ensures
        a.plan_value() == b.plan_value() <==> same_work(a, b),
{
    names_differ();
    plan_value_holds_the_work(a);
    plan_value_holds_the_work(b);
    let p = a.plan_value()->Object_0;
    let q = b.plan_value()->Object_0;
    if same_work(a, b) {
        assert forall|name: Seq<char>| #[trigger]
            member(rest_of_metadata(a), name) == member(rest_of_metadata(b), name) by {
            assert(metadata_kept(a, name) == metadata_kept(b, name));
        }
        members_are_told_by_name(rest_of_metadata(a), rest_of_metadata(b));
        assert forall|name: Seq<char>| #[trigger] member(p, name) == member(q, name) by {
            assert(planned_field(a, name) == planned_field(b, name)) by {
                if !of_progress(name) && name != "metadata"@ && name != "blocked_by"@ {
                    assert(a.raw.field(name) == b.raw.field(name));
                }
            }
        }
        members_are_told_by_name(p, q);
    }
    if a.plan_value() == b.plan_value() {
        assert forall|name: Seq<char>|
            !of_progress(name) && name != "metadata"@ && name != "blocked_by"@ implies
            #[trigger] a.raw.field(name) == b.raw.field(name) by {
            assert(member(p, name) == planned_field(a, name));
            assert(member(q, name) == planned_field(b, name));
        }
        assert(member(p, "blocked_by"@) == planned_field(a, "blocked_by"@));
        assert(member(q, "blocked_by"@) == planned_field(b, "blocked_by"@));
        assert(member(p, "metadata"@) == planned_field(a, "metadata"@));
        assert(member(q, "metadata"@) == planned_field(b, "metadata"@));
        assert(rest_of_metadata(a) =~= rest_of_metadata(b));
        assert forall|name: Seq<char>| #[trigger]
            metadata_kept(a, name) == metadata_kept(b, name) by {
            assert(member(rest_of_metadata(a), name) == metadata_kept(a, name));
            assert(member(rest_of_metadata(b), name) == metadata_kept(b, name));
        }
    }
}

/// Tasks with the same work have the same blockers.
proof fn same_work_same_blockers(a: TaskView, b: TaskView)
    requires
        genuine(a),
        genuine(b),
        declaration(a) == declaration(b),
    ensures
        a.blocked_by == b.blocked_by,
{
    if a.blocked_by.len() == 0 && b.blocked_by.len() == 0 {
        assert(a.blocked_by =~= b.blocked_by);
    }
}

/// The tasks of a plan are those that their values describe.
proof fn planned_tasks_are_genuine(plan: PlanView)
    requires
        plan.valid(),
        plan.queue.well_formed(),
    ensures
        forall|id: Seq<char>| #[trigger]
            plan.task_ids().contains(id) ==> plan.queue.tasks.contains_key(id) && genuine(
                plan.queue.tasks[id],
            ),
{
    let g = graph_of(plan.queue.tasks);
    assert(g.dom() =~= plan.queue.tasks.dom());
    graph::scope_is_closed(g, plan.root_task_id);
}

/// A queue that keeps the blockers of the tasks of a plan has a plan for the same root, with the
/// same tasks.
proof fn same_blockers_same_scope(plan: PlanView, queue: QueueView)
    requires
        plan.valid(),
        queue.tasks.dom().finite(),
        forall|id: Seq<char>| #[trigger]
            plan.task_ids().contains(id) ==> queue.tasks.contains_key(id)
                && queue.tasks[id].blocked_by == plan.queue.tasks[id].blocked_by,
    ensures
        plan_for(queue, plan.root_task_id) == Ok::<PlanView, ErrorView>(
            (PlanView { queue, root_task_id: plan.root_task_id }),
        ),
        (PlanView { queue, root_task_id: plan.root_task_id }).valid(),
        (PlanView { queue, root_task_id: plan.root_task_id }).task_ids() == plan.task_ids(),
{
    let g = graph_of(plan.queue.tasks);
    let h = graph_of(queue.tasks);
    assert(g.dom() =~= plan.queue.tasks.dom());
    assert(h.dom() =~= queue.tasks.dom());
    graph::scope_is_closed(g, plan.root_task_id);
    assert forall|t: Seq<char>| #[trigger]
        graph::scope(g, plan.root_task_id)->Ok_0.contains(t) implies h.contains_key(t) && h[t]
        == g[t] by {
        assert(plan.task_ids().contains(t));
    }
    graph::scope_depends_on_its_tasks(g, h, plan.root_task_id);
}

// ---------------------------------------------------------------------------------------------
// Laws

/// A plan drifts exactly with its work: a queue gives the snapshot of a plan again exactly when it
/// holds every task of the plan, each changed at most in status, timestamps and ownership.
pub proof fn plans_drift_with_their_work(plan: PlanView, queue: QueueView)
    requires
        plan.valid(),
        plan.queue.well_formed(),
        queue.well_formed(),
    ensures
        same_plan(plan, queue) <==> (plan_for(queue, plan.root_task_id) matches Ok(p)
            && p.snapshot() == plan.snapshot()),
{
    planned_tasks_are_genuine(plan);
    let later = PlanView { queue, root_task_id: plan.root_task_id };
    if same_plan(plan, queue) {
        assert forall|id: Seq<char>| #[trigger]
            plan.task_ids().contains(id) implies queue.tasks.contains_key(id)
            && queue.tasks[id].blocked_by == plan.queue.tasks[id].blocked_by by {
            same_work_same_blockers(plan.queue.tasks[id], queue.tasks[id]);
        }
        same_blockers_same_scope(plan, queue);
        assert forall|id: Seq<char>| #[trigger]
            plan.task_ids().contains(id) implies queue.tasks[id].plan_value()
            == plan.queue.tasks[id].plan_value() by {
            plan_values_tell_the_work(plan.queue.tasks[id], queue.tasks[id]);
        }
        assert(later.snapshot().tasks =~= plan.snapshot().tasks);
    }
    if plan_for(queue, plan.root_task_id) is Ok && later.snapshot() == plan.snapshot() {
        same_snapshot_same_tasks(later, plan);
        planned_tasks_are_genuine(later);
        assert forall|id: Seq<char>| #[trigger]
            plan.task_ids().contains(id) implies queue.tasks.contains_key(id) && same_work(
            plan.queue.tasks[id],
            queue.tasks[id],
        ) by {
            assert(later.task_ids().contains(id));
            assert(later.snapshot().tasks[id] == queue.tasks[id].plan_value());
            assert(plan.snapshot().tasks[id] == plan.queue.tasks[id].plan_value());
            plan_values_tell_the_work(plan.queue.tasks[id], queue.tasks[id]);
        }
    }
}

/// Progress is no drift: where the tasks of a plan changed at most in status, timestamps and
/// ownership, and none of them keeps the run from working on it, the plan is validated, with the
/// same snapshot.
pub proof fn progress_is_no_drift(
    plan: PlanView,
    queue: QueueView,
    path: Seq<char>,
    lines: Seq<Result<String, String>>,
    run_id: Seq<char>,
)
    requires
        plan.valid(),
        plan.queue.well_formed(),
        queue_from(path, lines) == Ok::<QueueView, ErrorView>(queue),
        queue.well_formed(),
        same_plan(plan, queue),
        forall|id: Seq<char>| #[trigger]
            plan.task_ids().contains(id) ==> (PlanView {
                queue,
                root_task_id: plan.root_task_id,
            }).ownership_fault(id, run_id) is None,
    ensures
        validated_plan_from(path, lines, plan.root_task_id, run_id, Some(plan.snapshot()))
            matches Ok(p) && p.queue == queue && p.snapshot() == plan.snapshot(),
{
    plans_drift_with_their_work(plan, queue);
    let later = PlanView { queue, root_task_id: plan.root_task_id };
    same_snapshot_same_tasks(later, plan);
    let fault = |id: Seq<char>| later.ownership_fault(id, run_id);
    assert forall|key: Seq<char>| !is_first_fault(later.task_ids(), fault, key) by {
        if later.task_ids().contains(key) {
            assert(plan.task_ids().contains(key));
        }
    }
    assert(first_fault(later.task_ids(), fault) is None);
}

/// Any other change is drift: where the tasks of a plan keep their blockers and one of them changed
/// in anything but status, timestamps and ownership, the plan is refused as drifted.
pub proof fn changed_work_is_drift(
    plan: PlanView,
    queue: QueueView,
    path: Seq<char>,
    lines: Seq<Result<String, String>>,
    run_id: Seq<char>,
    task_id: Seq<char>,
)
    requires
        plan.valid(),
        plan.queue.well_formed(),
        queue_from(path, lines) == Ok::<QueueView, ErrorView>(queue),
        queue.well_formed(),
        forall|id: Seq<char>| #[trigger]
            plan.task_ids().contains(id) ==> queue.tasks.contains_key(id)
                && queue.tasks[id].blocked_by == plan.queue.tasks[id].blocked_by,
        plan.task_ids().contains(task_id),
        !same_work(plan.queue.tasks[task_id], queue.tasks[task_id]),
    ensures
        validated_plan_from(path, lines, plan.root_task_id, run_id, Some(plan.snapshot())) == Err::<
            PlanView,
            ErrorView,
        >(ErrorView::PlanDrift { root_task_id: plan.root_task_id }),
{
    same_blockers_same_scope(plan, queue);
    plans_drift_with_their_work(plan, queue);
}

/// A changed title is drift.
pub proof fn changed_title_is_drift(
    plan: PlanView,
    queue: QueueView,
    path: Seq<char>,
    lines: Seq<Result<String, String>>,
    run_id: Seq<char>,
    task_id: Seq<char>,
)
    requires
        plan.valid(),
        plan.queue.well_formed(),
        queue_from(path, lines) == Ok::<QueueView, ErrorView>(queue),
        queue.well_formed(),
        forall|id: Seq<char>| #[trigger]
            plan.task_ids().contains(id) ==> queue.tasks.contains_key(id)
                && queue.tasks[id].blocked_by == plan.queue.tasks[id].blocked_by,
        plan.task_ids().contains(task_id),
        queue.tasks[task_id].title != plan.queue.tasks[task_id].title,
    ensures
        validated_plan_from(path, lines, plan.root_task_id, run_id, Some(plan.snapshot())) == Err::<
            PlanView,
            ErrorView,
        >(ErrorView::PlanDrift { root_task_id: plan.root_task_id }),
{
    names_differ();
    planned_tasks_are_genuine(plan);
    let a = plan.queue.tasks[task_id];
    let b = queue.tasks[task_id];
    assert(a.raw.field("title"@) != b.raw.field("title"@));
    changed_work_is_drift(plan, queue, path, lines, run_id, task_id);
}

} // verus!
