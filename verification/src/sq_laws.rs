//! What queues, tasks and plans must satisfy.
use vstd::prelude::*;
use crate::command::Finished;
use crate::graph::{self, Defect};
use crate::json::{json_of_text, member, nested_object_text, text_in, without, JsonView, MemberView};
use crate::paths::below;
use crate::sq::{
    all_filled, all_written, at_line, claim_arguments, claim_request, confirmed_claim,
    declared_blockers, edit_fault, executable_or, first_file, graph_of, item_texts, lines_seen,
    listed_in_metadata, metadata_fault, plan_for, plan_from, queue_from, queue_path_for,
    status_named, status_words_name_their_status, task_from, tasks_on, validated_plan_from,
    with_line, ErrorView, PlanView, QueueCandidate, QueueView, SnapshotView, TaskStatus, TaskView,
};
use crate::table::{first_fault, first_fault_exists, is_first_fault};
use crate::text::{before, blank, trim};
use crate::text_laws::{begins, ends, paths_below_keep_both_parts, says_something};

verus! {

// ---------------------------------------------------------------------------------------------
// Members of objects

/// The member of a name is the first one with it; where none has it there is none.
pub proof fn members_are_found_by_name(members: Seq<MemberView>, name: Seq<char>, i: int)
    ensures
        0 <= i < members.len() && members[i].name == name && (forall|j: int|
            0 <= j < i ==> (#[trigger] members[j]).name != name) ==> member(members, name) == Some(
            members[i].value,
        ),
        (forall|j: int| 0 <= j < members.len() ==> (#[trigger] members[j]).name != name)
            <==> member(members, name) is None,
    decreases members.len(),
{
    if members.len() > 0 {
        let rest = members.drop_first();
        members_are_found_by_name(rest, name, i - 1);
        assert forall|j: int| 0 < j < members.len() implies (#[trigger] members[j]) == rest[
            j - 1
        ] by {}
        assert forall|j: int| 0 <= j < rest.len() implies (#[trigger] rest[j]) == members[
            j + 1
        ] by {}
        if member(members, name) is None {
            assert forall|j: int| 0 <= j < members.len() implies (#[trigger] members[j]).name
                != name by {
                if j > 0 {
                    assert(rest[j - 1].name != name);
                }
            }
        }
        if forall|j: int| 0 <= j < members.len() ==> (#[trigger] members[j]).name != name {
            assert(members[0].name != name);
            assert forall|j: int| 0 <= j < rest.len() implies (#[trigger] rest[j]).name != name by {
                assert(members[j + 1].name != name);
            }
        }
        if 0 < i < members.len() && members[i].name == name && (forall|j: int|
            0 <= j < i ==> (#[trigger] members[j]).name != name) {
            assert(members[0].name != name);
            assert forall|j: int| 0 <= j < i - 1 implies (#[trigger] rest[j]).name != name by {
                assert(members[j + 1].name != name);
            }
            assert(rest[i - 1] == members[i]);
        }
    }
}

/// Taking a name out of members takes out those with that name, and no others.
pub proof fn only_the_named_members_are_left_out(
    members: Seq<MemberView>,
    name: Seq<char>,
    m: MemberView,
)
    ensures
        without(members, name).contains(m) <==> members.contains(m) && m.name != name,
        without(members, name).len() <= members.len(),
        (forall|j: int| 0 <= j < members.len() ==> (#[trigger] members[j]).name != name) ==> without(
            members,
            name,
        ) == members,
    decreases members.len(),
{
    if members.len() > 0 {
        let rest = members.drop_last();
        let last = members.last();
        only_the_named_members_are_left_out(rest, name, m);
        assert(rest.push(last) =~= members);
        let kept = without(rest, name);
        if members.contains(m) {
            let i = choose|i: int| 0 <= i < members.len() && members[i] == m;
            if i < rest.len() {
                assert(rest[i] == m);
            }
        }
        if rest.contains(m) {
            let i = choose|i: int| 0 <= i < rest.len() && rest[i] == m;
            assert(members[i] == m);
        }
        assert(members[members.len() - 1] == last);
        if last.name != name {
            if kept.contains(m) {
                let i = choose|i: int| 0 <= i < kept.len() && kept[i] == m;
                assert(kept.push(last)[i] == m);
            }
            assert(kept.push(last)[kept.len() as int] == last);
            if kept.push(last).contains(m) && m != last {
                let i = choose|i: int| 0 <= i < kept.push(last).len() && kept.push(last)[i] == m;
                assert(kept[i] == m);
            }
        }
        if forall|j: int| 0 <= j < members.len() ==> (#[trigger] members[j]).name != name {
            assert forall|j: int| 0 <= j < rest.len() implies (#[trigger] rest[j]).name != name by {
                assert(members[j].name != name);
            }
        }
    }
}

// ---------------------------------------------------------------------------------------------
// Tasks

/// The value is an array that holds the texts in their order.
pub open spec fn holds_texts(value: JsonView, texts: Seq<Seq<char>>) -> bool {
    value matches JsonView::Array(items) && items.len() == texts.len() && forall|i: int|
        0 <= i < items.len() ==> #[trigger] items[i] == JsonView::Text(texts[i])
}

/// What the metadata of a task holds under a key.
pub open spec fn in_metadata(raw: JsonView, key: Seq<char>) -> Option<JsonView> {
    match raw.field("metadata"@) {
        Some(JsonView::Object(members)) => member(members, key),
        _ => None,
    }
}

/// A task says what its JSON value says: the ID, the title, the description and the status under the
/// members of these names, the blockers under `blocked_by`, and in the metadata the acceptance
/// criteria under `acceptance_criteria` and the validation checks under `checks`.
pub proof fn tasks_say_what_the_queue_says(raw: JsonView, task: TaskView)
    requires
        task_from(raw) == Ok::<TaskView, Seq<char>>(task),
    ensures
        task.raw == raw,
        raw is Object,
        task.id.len() > 0,
        raw.field("id"@) == Some(JsonView::Text(task.id)),
        raw.field("title"@) == Some(JsonView::Text(task.title)),
        raw.field("description"@) == Some(JsonView::Text(task.description)),
        raw.field("status"@) == Some(JsonView::Text(task.stored_status.word())),
        match raw.field("blocked_by"@) {
            None => task.blocked_by.len() == 0,
            Some(JsonView::Null) => task.blocked_by.len() == 0,
            Some(value) => holds_texts(value, task.blocked_by),
        },
        forall|i: int| 0 <= i < task.blocked_by.len() ==> (#[trigger] task.blocked_by[i]).len() > 0,
        match in_metadata(raw, "acceptance_criteria"@) {
            None => task.acceptance_criteria.len() == 0,
            Some(value) => holds_texts(value, task.acceptance_criteria),
        },
        match in_metadata(raw, "checks"@) {
            None => task.validation_checks.len() == 0,
            Some(value) => holds_texts(value, task.validation_checks),
        },
        forall|i: int|
            0 <= i < task.acceptance_criteria.len() ==> says_something(
                #[trigger] task.acceptance_criteria[i],
            ),
        forall|i: int|
            0 <= i < task.validation_checks.len() ==> says_something(
                #[trigger] task.validation_checks[i],
            ),
{
    let blockers = raw.field("blocked_by"@);
    if let Some(JsonView::Array(items)) = blockers {
        texts_of_items(items);
    }
    metadata_lists_its_texts(raw, "acceptance_criteria"@);
    metadata_lists_its_texts(raw, "checks"@);
    words_of_statuses(text_in(raw.field("status"@))->0);
}

/// The four statuses are written as the words for them.
pub proof fn statuses_are_written_in_words(raw: JsonView, task: TaskView)
    requires
        task_from(raw) == Ok::<TaskView, Seq<char>>(task),
    ensures
        raw.field("status"@) == Some(JsonView::Text("pending"@)) <==> task.stored_status
            == TaskStatus::Pending,
        raw.field("status"@) == Some(JsonView::Text("blocked"@)) <==> task.stored_status
            == TaskStatus::Blocked,
        raw.field("status"@) == Some(JsonView::Text("in_progress"@)) <==> task.stored_status
            == TaskStatus::InProgress,
        raw.field("status"@) == Some(JsonView::Text("closed"@)) <==> task.stored_status
            == TaskStatus::Closed,
{
    status_words_name_their_status(TaskStatus::Pending);
    status_words_name_their_status(TaskStatus::Blocked);
    status_words_name_their_status(TaskStatus::InProgress);
    status_words_name_their_status(TaskStatus::Closed);
}

/// A word that names a status is the word for it.
proof fn words_of_statuses(word: Seq<char>)
    ensures
        status_named(word) matches Some(status) ==> word == status.word(),
{
}

/// The texts among values that are texts are theirs.
proof fn texts_of_items(items: Seq<JsonView>)
    requires
        forall|i: int| 0 <= i < items.len() ==> (#[trigger] items[i]).text() is Some,
    ensures
        holds_texts(JsonView::Array(items), item_texts(items)),
        forall|i: int|
            0 <= i < items.len() ==> (#[trigger] item_texts(items)[i]) == items[i].text()->0,
{
}

/// What the metadata lists under a key is what it holds there.
proof fn metadata_lists_its_texts(raw: JsonView, key: Seq<char>)
    ensures
        listed_in_metadata(raw.field("metadata"@), key) matches Ok(texts) ==> (match in_metadata(
            raw,
            key,
        ) {
            None => texts.len() == 0,
            Some(value) => holds_texts(value, texts),
        }) && forall|i: int| 0 <= i < texts.len() ==> says_something(#[trigger] texts[i]),
{
    if let Some(JsonView::Array(items)) = in_metadata(raw, key) {
        if all_written(items) {
            texts_of_items(items);
            let texts = item_texts(items);
            assert forall|i: int| 0 <= i < texts.len() implies says_something(
                #[trigger] texts[i],
            ) by {
                assert(texts[i] == items[i].text()->0);
                assert(!blank(items[i].text()->0));
            }
        }
    }
}

/// The value is an array of texts that each hold more than white space.
pub open spec fn holds_written_texts(value: JsonView) -> bool {
    value matches JsonView::Array(items) && forall|i: int|
        0 <= i < items.len() ==> ((#[trigger] items[i]) matches JsonView::Text(text)
            && says_something(text))
}

/// The metadata says nothing of a run, or names it by a text.
pub open spec fn names_a_run_or_none(raw: JsonView) -> bool {
    match in_metadata(raw, "agent_orchestrator"@) {
        None => true,
        Some(JsonView::Null) => true,
        Some(JsonView::Object(members)) => match member(members, "run_id"@) {
            None => true,
            Some(value) => value is Text,
        },
        Some(_) => false,
    }
}

/// Every object with an ID, a title, a description and the word of a status is a task, where what it
/// says of blockers, criteria, checks and its run has the right form.
pub proof fn well_formed_objects_are_tasks(raw: JsonView, status: TaskStatus)
    requires
        raw is Object,
        raw.field("id"@) matches Some(JsonView::Text(id)) && id.len() > 0,
        raw.field("title"@) matches Some(JsonView::Text(_)),
        raw.field("description"@) matches Some(JsonView::Text(_)),
        raw.field("status"@) == Some(JsonView::Text(status.word())),
        match raw.field("blocked_by"@) {
            None => true,
            Some(JsonView::Null) => true,
            Some(JsonView::Array(items)) => forall|i: int|
                0 <= i < items.len() ==> ((#[trigger] items[i]) matches JsonView::Text(text)
                    && text.len() > 0),
            Some(_) => false,
        },
        match raw.field("metadata"@) {
            None => true,
            Some(value) => value is Null || value is Object,
        },
        in_metadata(raw, "acceptance_criteria"@) matches Some(value) ==> holds_written_texts(value),
        in_metadata(raw, "checks"@) matches Some(value) ==> holds_written_texts(value),
        names_a_run_or_none(raw),
    ensures
        task_from(raw) matches Ok(task) && task.stored_status == status,
{
    status_words_name_their_status(status);
    if let Some(JsonView::Array(items)) = raw.field("blocked_by"@) {
        assert(all_filled(items));
    }
    written_lists_are_taken(raw, "acceptance_criteria"@);
    written_lists_are_taken(raw, "checks"@);
}

proof fn written_lists_are_taken(raw: JsonView, key: Seq<char>)
    requires
        in_metadata(raw, key) matches Some(value) ==> holds_written_texts(value),
    ensures
        listed_in_metadata(raw.field("metadata"@), key) is Ok,
{
    if let Some(JsonView::Array(items)) = in_metadata(raw, key) {
        assert forall|i: int| 0 <= i < items.len() implies (#[trigger] items[i]).text() is Some
            && !blank(items[i].text()->0) by {
            assert(says_something(items[i].text()->0));
        }
        assert(all_written(items));
    }
}

/// What is no task is refused for the first thing that it lacks: to be an object, the texts of its ID,
/// title and description, an ID that is not empty, and the text of a status that has a word.
pub proof fn refused_tasks_lack_what_is_told(raw: JsonView)
    ensures
        ({
            let id = text_in(raw.field("id"@));
            let title = text_in(raw.field("title"@));
            let description = text_in(raw.field("description"@));
            let status = text_in(raw.field("status"@));
            let named = raw is Object && id is Some && title is Some && description is Some;
            &&& !(raw is Object) ==> task_from(raw) == refused("task must be a JSON object"@)
            &&& raw is Object && id is None ==> task_from(raw) == refused("`id` must be a string"@)
            &&& raw is Object && id is Some && title is None ==> task_from(raw) == refused(
                "`title` must be a string"@,
            )
            &&& raw is Object && id is Some && title is Some && description is None ==> task_from(raw)
                == refused("`description` must be a string"@)
            &&& named && id->0.len() == 0 ==> task_from(raw) == refused("`id` must not be empty"@)
            &&& named && id->0.len() > 0 && status is None ==> task_from(raw) == refused(
                "`status` must be a string"@,
            )
            &&& named && id->0.len() > 0 && status is Some && status->0 != "pending"@ && status->0
                != "blocked"@ && status->0 != "in_progress"@ && status->0 != "closed"@ ==> task_from(
                raw,
            ) == refused("unsupported status `"@ + status->0 + "`"@)
        }),
{
    reveal_strlit("`");
    reveal_strlit("` must be a string");
    reveal_strlit("id");
    reveal_strlit("title");
    reveal_strlit("description");
    reveal_strlit("status");
    reveal_strlit("`id` must be a string");
    reveal_strlit("`title` must be a string");
    reveal_strlit("`description` must be a string");
    reveal_strlit("`status` must be a string");
    assert("`"@ + "id"@ + "` must be a string"@ =~= "`id` must be a string"@);
    assert("`"@ + "title"@ + "` must be a string"@ =~= "`title` must be a string"@);
    assert("`"@ + "description"@ + "` must be a string"@ =~= "`description` must be a string"@);
    assert("`"@ + "status"@ + "` must be a string"@ =~= "`status` must be a string"@);
}

/// The refusal of a task.
pub open spec fn refused(reason: Seq<char>) -> Result<TaskView, Seq<char>> {
    Err(reason)
}

/// Blockers are refused that are no array or not all of texts that are not empty, criteria and checks
/// that are no array or not all of texts that say something.
pub proof fn refused_lists_are_told(value: JsonView, metadata: JsonView, key: Seq<char>)
    ensures
        declared_blockers(Some(value)) is Err <==> !(value is Null) && !(
        value matches JsonView::Array(items) && forall|i: int|
            0 <= i < items.len() ==> ((#[trigger] items[i]) matches JsonView::Text(text)
                && text.len() > 0)),
        !(value is Null) && !(value is Array) ==> declared_blockers(Some(value)) == Err::<
            Seq<Seq<char>>,
            Seq<char>,
        >("`blocked_by` must be an array"@),
        value is Array ==> (declared_blockers(Some(value)) matches Err(reason) ==> reason
            == "`blocked_by` must contain non-empty strings"@),
        metadata.field(key) is None ==> listed_in_metadata(Some(metadata), key) is Ok,
        metadata.field(key) matches Some(list) ==> (listed_in_metadata(Some(metadata), key) is Ok
            <==> holds_written_texts(list)),
        metadata.field(key) matches Some(list) ==> !(list is Array) ==> listed_in_metadata(
            Some(metadata),
            key,
        ) == Err::<Seq<Seq<char>>, Seq<char>>("`metadata."@ + key + "` must be an array"@),
        metadata.field(key) matches Some(list) ==> list is Array ==> (listed_in_metadata(
            Some(metadata),
            key,
        ) matches Err(reason) ==> reason == "`metadata."@ + key
            + "` must contain non-empty strings"@),
{
    if let JsonView::Array(items) = value {
        if all_filled(items) {
            assert forall|i: int| 0 <= i < items.len() implies ((
            #[trigger] items[i]) matches JsonView::Text(text) && text.len() > 0) by {
                assert(items[i].text() is Some);
            }
        }
        if forall|i: int|
            0 <= i < items.len() ==> ((#[trigger] items[i]) matches JsonView::Text(text)
                && text.len() > 0) {
            assert(all_filled(items));
        }
    }
    if let Some(JsonView::Array(items)) = metadata.field(key) {
        if all_written(items) {
            assert forall|i: int| 0 <= i < items.len() implies ((
            #[trigger] items[i]) matches JsonView::Text(text) && says_something(text)) by {
                assert(items[i].text() is Some && !blank(items[i].text()->0));
            }
        }
        if holds_written_texts(JsonView::Array(items)) {
            assert forall|i: int| 0 <= i < items.len() implies (#[trigger] items[i]).text() is Some
                && !blank(items[i].text()->0) by {
                assert(says_something(items[i].text()->0));
            }
        }
    }
}

/// Metadata is refused that is no object, or in which what is said of the run has another form than an
/// object with a text.
pub proof fn refused_metadata_is_told(metadata: JsonView)
    ensures
        metadata_fault(None) is None,
        metadata_fault(Some(metadata)) is None <==> match metadata {
            JsonView::Null => true,
            JsonView::Object(_) => match metadata.field("agent_orchestrator"@) {
                None => true,
                Some(JsonView::Null) => true,
                Some(JsonView::Object(members)) => match member(members, "run_id"@) {
                    None => true,
                    Some(value) => value is Text,
                },
                Some(_) => false,
            },
            _ => false,
        },
        !(metadata is Null) && !(metadata is Object) ==> metadata_fault(Some(metadata)) == Some(
            "`metadata` must be an object"@,
        ),
        metadata is Object && (metadata.field("agent_orchestrator"@) matches Some(value) && !(
        value is Null) && !(value is Object)) ==> metadata_fault(Some(metadata)) == Some(
            "`metadata.agent_orchestrator` must be an object"@,
        ),
        metadata is Object && (metadata.field("agent_orchestrator"@) matches Some(value)
            && value is Object && (value.field("run_id"@) matches Some(run) && !(run is Text)))
            ==> metadata_fault(Some(metadata)) == Some(
            "`metadata.agent_orchestrator.run_id` must be a string"@,
        ),
{
}

/// A task is owned by the run that its metadata names under `agent_orchestrator`, and by none where
/// no text stands there.
pub proof fn owners_stand_in_the_metadata(task: TaskView, run_id: Seq<char>)
    ensures
        task.owner_run_id() == Some(run_id) <==> (in_metadata(
            task.raw,
            "agent_orchestrator"@,
        ) matches Some(JsonView::Object(members)) && member(members, "run_id"@) == Some(
            JsonView::Text(run_id),
        )),
{
}

// ---------------------------------------------------------------------------------------------
// Queues

/// A line of white space adds no task; any other adds the task that it describes and changes no
/// other; none adds a task twice.
pub proof fn lines_add_their_tasks(
    path: Seq<char>,
    tasks: Map<Seq<char>, TaskView>,
    text: Seq<char>,
    number: nat,
    id: Seq<char>,
)
    ensures
        !says_something(text) ==> with_line(path, tasks, Ok(text), number) == Ok::<
            Map<Seq<char>, TaskView>,
            ErrorView,
        >(tasks),
        says_something(text) ==> (with_line(path, tasks, Ok(text), number) matches Ok(more) ==> {
            let raw = json_of_text(text)->Ok_0;
            let added = task_from(raw)->Ok_0;
            &&& json_of_text(text) is Ok
            &&& task_from(raw) is Ok
            &&& !tasks.contains_key(added.id)
            &&& more.contains_key(id) <==> tasks.contains_key(id) || id == added.id
            &&& more.contains_key(id) ==> more[id] == (if id == added.id {
                added
            } else {
                tasks[id]
            })
        }),
        says_something(text) && json_of_text(text) is Err ==> with_line(
            path,
            tasks,
            Ok(text),
            number,
        ) == Err::<Map<Seq<char>, TaskView>, ErrorView>(
            ErrorView::InvalidJson { path, line: number, source: json_of_text(text)->Err_0 },
        ),
        says_something(text) && (json_of_text(text) matches Ok(raw) && task_from(raw) is Err)
            ==> with_line(path, tasks, Ok(text), number) == Err::<
            Map<Seq<char>, TaskView>,
            ErrorView,
        >(
            ErrorView::InvalidTask {
                line: number,
                reason: task_from(json_of_text(text)->Ok_0)->Err_0,
            },
        ),
        says_something(text) && (json_of_text(text) matches Ok(raw) && (task_from(
            raw,
        ) matches Ok(task) && tasks.contains_key(task.id))) ==> with_line(
            path,
            tasks,
            Ok(text),
            number,
        ) == Err::<Map<Seq<char>, TaskView>, ErrorView>(
            ErrorView::DuplicateTask { task_id: task_from(json_of_text(text)->Ok_0)->Ok_0.id },
        ),
{
    assert(says_something(text) <==> !blank(text));
}

/// The line describes the task.
pub open spec fn describes(line: Result<Seq<char>, Seq<char>>, task: TaskView) -> bool {
    line matches Ok(text) && says_something(text) && (json_of_text(text) matches Ok(raw)
        && task_from(raw) == Ok::<TaskView, Seq<char>>(task))
}

/// A queue that was read holds exactly the tasks that its lines describe, and every line that is not
/// white space describes one.
pub proof fn queues_hold_what_their_lines_describe(
    path: Seq<char>,
    lines: Seq<Result<Seq<char>, Seq<char>>>,
    n: nat,
    id: Seq<char>,
)
    requires
        n <= lines.len(),
        tasks_on(path, lines, n) is Ok,
    ensures
        tasks_on(path, lines, n)->Ok_0.contains_key(id) ==> exists|i: int|
            0 <= i < n && describes(#[trigger] lines[i], tasks_on(path, lines, n)->Ok_0[id]),
        forall|i: int|
            0 <= i < n ==> ((#[trigger] lines[i]) matches Ok(text) && (says_something(text) ==> {
                let task = task_from(json_of_text(text)->Ok_0)->Ok_0;
                &&& describes(lines[i], task)
                &&& tasks_on(path, lines, n)->Ok_0.contains_key(task.id)
                &&& tasks_on(path, lines, n)->Ok_0[task.id] == task
            })),
    decreases n,
{
    if n > 0 {
        let tasks = tasks_on(path, lines, (n - 1) as nat)->Ok_0;
        let more = tasks_on(path, lines, n)->Ok_0;
        queues_hold_what_their_lines_describe(path, lines, (n - 1) as nat, id);
        let last = lines[n - 1];
        assert(last is Ok);
        let text = last->Ok_0;
        assert(says_something(text) <==> !blank(text));
        if says_something(text) {
            let added = task_from(json_of_text(text)->Ok_0)->Ok_0;
            assert(describes(lines[n - 1], added));
            if more.contains_key(id) && id != added.id {
                let i = choose|i: int|
                    0 <= i < n - 1 && describes(#[trigger] lines[i], tasks[id]);
                assert(describes(lines[i], more[id]));
            }
        }
        assert forall|i: int| 0 <= i < n implies ((#[trigger] lines[i]) matches Ok(t) && (
        says_something(t) ==> {
            let task = task_from(json_of_text(t)->Ok_0)->Ok_0;
            &&& describes(lines[i], task)
            &&& more.contains_key(task.id)
            &&& more[task.id] == task
        })) by {
            if i < n - 1 {
                assert(lines[i] is Ok);
                let t = lines[i]->Ok_0;
                let task = task_from(json_of_text(t)->Ok_0)->Ok_0;
                if says_something(t) {
                    assert(tasks.contains_key(task.id) && tasks[task.id] == task);
                }
            }
        }
    }
}

/// An error in a queue tells the number of the first line that is at fault, counted from one.
pub proof fn errors_tell_their_line(
    path: Seq<char>,
    lines: Seq<Result<Seq<char>, Seq<char>>>,
    n: nat,
)
    requires
        n <= lines.len(),
    ensures
        tasks_on(path, lines, n) matches Err(e) ==> match e {
            ErrorView::InvalidJson { path: p, line, source } => p == path && 1 <= line <= n && (
            lines[line - 1] matches Ok(text) && json_of_text(text) == Err::<JsonView, Seq<char>>(
                source,
            )) && tasks_on(path, lines, (line - 1) as nat) is Ok,
            ErrorView::InvalidTask { line, reason } => 1 <= line <= n && (
            lines[line - 1] matches Ok(text) && (json_of_text(text) matches Ok(raw) && task_from(raw)
                == Err::<TaskView, Seq<char>>(reason))) && tasks_on(path, lines, (line - 1) as nat)
                is Ok,
            ErrorView::DuplicateTask { task_id } => exists|i: int, task: TaskView|
                0 <= i < n && describes(#[trigger] lines[i], task) && #[trigger] task.id == task_id
                    && (tasks_on(path, lines, i as nat) matches Ok(tasks) && tasks.contains_key(
                    task_id,
                )),
            ErrorView::ReadQueue { path: p, source } => p == path && exists|i: int|
                0 <= i < n && #[trigger] lines[i] == Err::<Seq<char>, Seq<char>>(source),
            _ => false,
        },
    decreases n,
{
    if n > 0 {
        errors_tell_their_line(path, lines, (n - 1) as nat);
        if tasks_on(path, lines, (n - 1) as nat) is Ok {
            if let Ok(text) = lines[n - 1] {
                assert(says_something(text) <==> !blank(text));
                if let Err(ErrorView::DuplicateTask { task_id }) = tasks_on(path, lines, n) {
                    let task = task_from(json_of_text(text)->Ok_0)->Ok_0;
                    assert(describes(lines[n - 1], task) && task.id == task_id);
                }
            } else {
                assert(lines[n - 1] == Err::<Seq<char>, Seq<char>>(lines[n - 1]->Err_0));
            }
        }
    }
}

// ---------------------------------------------------------------------------------------------
// Plans

/// There is a plan for every task of the queue whose blockers are all there and go round in no
/// circle, and for no other.
pub proof fn plans_begin_at_tasks_of_the_queue(queue: QueueView, root: Seq<char>)
    ensures
        !queue.tasks.contains_key(root) ==> plan_for(queue, root) == Err::<PlanView, ErrorView>(
            ErrorView::MissingRoot { task_id: root },
        ),
        plan_for(queue, root) matches Ok(plan) ==> plan.queue == queue && plan.root_task_id == root
            && queue.tasks.contains_key(root) && graph::scope(graph_of(queue.tasks), root) is Ok,
        queue.tasks.contains_key(root) && graph::scope(graph_of(queue.tasks), root) is Ok
            ==> plan_for(queue, root) is Ok,
        queue.tasks.contains_key(root) ==> (graph::scope(graph_of(queue.tasks), root) matches Err(
            defect,
        ) ==> match defect {
            Defect::Missing { task, blocker } => plan_for(queue, root) == Err::<PlanView, ErrorView>(
                ErrorView::MissingBlocker { task_id: task, blocker_id: blocker },
            ),
            Defect::Cycle(task_ids) => plan_for(queue, root) == Err::<PlanView, ErrorView>(
                ErrorView::DependencyCycle { task_ids },
            ),
        }),
        forall|id: Seq<char>| #[trigger]
            queue.tasks.contains_key(id) ==> graph_of(queue.tasks).contains_key(id) && graph_of(
                queue.tasks,
            )[id] == queue.tasks[id].blocked_by,
{
}

/// A plan that is read from a file is that of the lines of the file, under the path of the file; an
/// error in a line is told before any in the plan.
pub proof fn plans_are_read_from_the_lines(
    path: Seq<char>,
    lines: Seq<Result<String, String>>,
    root: Seq<char>,
    run_id: Seq<char>,
    expected: Option<SnapshotView>,
)
    ensures
        queue_from(path, lines) matches Ok(queue) ==> queue.path == path && tasks_on(
            path,
            lines_seen(lines),
            lines.len(),
        ) == Ok::<Map<Seq<char>, TaskView>, ErrorView>(queue.tasks),
        queue_from(path, lines) matches Err(e) ==> tasks_on(path, lines_seen(lines), lines.len())
            == Err::<Map<Seq<char>, TaskView>, ErrorView>(e) && plan_from(path, lines, root) == Err::<
            PlanView,
            ErrorView,
        >(e),
        queue_from(path, lines) matches Ok(queue) ==> plan_from(path, lines, root) == plan_for(
            queue,
            root,
        ),
        plan_from(path, lines, root) matches Ok(plan) ==> validated_plan_from(
            path,
            lines,
            root,
            run_id,
            expected,
        ) == plan.validated(run_id, expected),
        plan_from(path, lines, root) matches Err(e) ==> validated_plan_from(
            path,
            lines,
            root,
            run_id,
            expected,
        ) == Err::<PlanView, ErrorView>(e),
        lines_seen(lines).len() == lines.len(),
        forall|i: int|
            0 <= i < lines.len() ==> (#[trigger] lines_seen(lines)[i]) == (match lines[i] {
                Ok(text) => Ok::<Seq<char>, Seq<char>>(text@),
                Err(source) => Err(source@),
            }),
{
}

/// A task of a plan is the one of the queue with that ID, where it is in the scope.
pub proof fn plans_hold_tasks_of_the_queue(plan: PlanView, task_id: Seq<char>)
    ensures
        plan.task(task_id) is Some <==> plan.task_ids().contains(task_id),
        plan.task(task_id) matches Some(task) ==> task == plan.queue.tasks[task_id],
{
}

/// A task is pending while nothing that it waits for is open, blocked while something is; one that is
/// in progress or closed is what the queue says.
pub proof fn statuses_follow_the_blockers(plan: PlanView, task: TaskView)
    ensures
        plan.status(task) == TaskStatus::Pending <==> task.stored_status == TaskStatus::Pending
            && forall|i: int|
            0 <= i < task.blocked_by.len()
                ==> plan.queue.tasks[#[trigger] task.blocked_by[i]].stored_status
                == TaskStatus::Closed,
        plan.status(task) == TaskStatus::Blocked <==> task.stored_status == TaskStatus::Blocked || (
        task.stored_status == TaskStatus::Pending && exists|i: int|
            0 <= i < task.blocked_by.len()
                && plan.queue.tasks[#[trigger] task.blocked_by[i]].stored_status
                != TaskStatus::Closed),
        plan.status(task) == TaskStatus::InProgress <==> task.stored_status
            == TaskStatus::InProgress,
        plan.status(task) == TaskStatus::Closed <==> task.stored_status == TaskStatus::Closed,
{
}

/// The tasks that can be claimed are the pending ones of the scope whose blockers are all closed.
pub proof fn ready_tasks_are_all_that_can_be_claimed(plan: PlanView, task_id: Seq<char>)
    ensures
        plan.ready().contains(task_id) <==> plan.task_ids().contains(task_id)
            && plan.queue.tasks[task_id].stored_status == TaskStatus::Pending && forall|i: int|
            0 <= i < plan.queue.tasks[task_id].blocked_by.len()
                ==> plan.queue.tasks[#[trigger] plan.queue.tasks[task_id].blocked_by[i]].stored_status
                == TaskStatus::Closed,
{
}

/// The run may work on the task: the task is closed, belongs to the run, or belongs to none and is
/// not in progress.
pub open spec fn may_work_on(plan: PlanView, task_id: Seq<char>, run_id: Seq<char>) -> bool {
    let task = plan.queue.tasks[task_id];
    ||| task.stored_status == TaskStatus::Closed
    ||| task.owner_run_id() == Some(run_id)
    ||| task.owner_run_id() is None && task.stored_status != TaskStatus::InProgress
}

/// A run may work on a plan exactly when it may work on each of its tasks; otherwise the error tells
/// of the first task on which it may not.
pub proof fn plans_are_refused_for_their_first_foreign_task(plan: PlanView, run_id: Seq<char>)
    requires
        plan.task_ids().finite(),
    ensures
        plan.ownership_error(run_id) is None <==> forall|id: Seq<char>| #[trigger]
            plan.task_ids().contains(id) ==> may_work_on(plan, id, run_id),
        plan.ownership_error(run_id) matches Some(e) ==> exists|id: Seq<char>| #[trigger]
            plan.task_ids().contains(id) && !may_work_on(plan, id, run_id) && (forall|other:
                Seq<char>| #[trigger]
                plan.task_ids().contains(other) && before(other, id) ==> may_work_on(
                plan,
                other,
                run_id,
            )) && e == (match plan.queue.tasks[id].owner_run_id() {
                Some(owner) => ErrorView::ForeignOwnership {
                    task_id: id,
                    owner_run_id: owner,
                    run_id,
                },
                None => ErrorView::UnownedInProgress { task_id: id },
            }),
{
    let fault = |id: Seq<char>| plan.ownership_fault(id, run_id);
    first_faults_come_first(plan.task_ids(), fault);
    assert forall|id: Seq<char>| plan.task_ids().contains(id) implies (fault(id) is None
        <==> #[trigger] may_work_on(plan, id, run_id)) by {}
    if plan.ownership_error(run_id) is None {
        assert forall|id: Seq<char>| #[trigger] plan.task_ids().contains(id) implies may_work_on(
            plan,
            id,
            run_id,
        ) by {
            assert(fault(id) is None);
        }
    } else {
        let id = choose|id: Seq<char>| #[trigger]
            plan.task_ids().contains(id) && fault(id) == first_fault(plan.task_ids(), fault) && (
            forall|other: Seq<char>| #[trigger]
                plan.task_ids().contains(other) && before(other, id) ==> fault(other) is None);
        assert(plan.task_ids().contains(id) && !may_work_on(plan, id, run_id));
        assert forall|other: Seq<char>| #[trigger]
            plan.task_ids().contains(other) && before(other, id) implies may_work_on(
            plan,
            other,
            run_id,
        ) by {
            assert(fault(other) is None);
        }
    }
}

/// The first fault is that of a key before which none has one; without one no key has a fault.
pub proof fn first_faults_come_first<E>(
    keys: Set<Seq<char>>,
    fault: spec_fn(Seq<char>) -> Option<E>,
)
    requires
        keys.finite(),
    ensures
        first_fault(keys, fault) is None <==> forall|k: Seq<char>| #[trigger]
            keys.contains(k) ==> fault(k) is None,
        first_fault(keys, fault) is Some ==> exists|k: Seq<char>| #[trigger]
            keys.contains(k) && fault(k) == first_fault(keys, fault) && (forall|other: Seq<char>|
             #[trigger]
                keys.contains(other) && before(other, k) ==> fault(other) is None),
{
    if exists|k: Seq<char>| #[trigger] keys.contains(k) && fault(k) is Some {
        let k = choose|k: Seq<char>| #[trigger] keys.contains(k) && fault(k) is Some;
        first_fault_exists(keys, fault, k);
    }
    if first_fault(keys, fault) is Some {
        let k = choose|k: Seq<char>| is_first_fault(keys, fault, k);
        assert(is_first_fault(keys, fault, k));
        assert(keys.contains(k));
    }
}

/// A run works on a plan as it is: where a snapshot is expected the plan says exactly that, and the
/// run may work on every task. A plan that says anything else has drifted, whoever owns it.
pub proof fn validated_plans_say_what_was_expected(
    plan: PlanView,
    run_id: Seq<char>,
    expected: Option<SnapshotView>,
)
    requires
        plan.task_ids().finite(),
    ensures
        plan.validated(run_id, expected) is Ok <==> (expected is Some ==> plan.snapshot()
            == expected->0) && forall|id: Seq<char>| #[trigger]
            plan.task_ids().contains(id) ==> may_work_on(plan, id, run_id),
        plan.validated(run_id, expected) matches Ok(p) ==> p == plan,
        expected is Some && plan.snapshot() != expected->0 ==> plan.validated(run_id, expected)
            == Err::<PlanView, ErrorView>(ErrorView::PlanDrift { root_task_id: plan.root_task_id }),
        plan.validated(run_id, None) matches Err(e) ==> e is ForeignOwnership
            || e is UnownedInProgress,
{
    plans_are_refused_for_their_first_foreign_task(plan, run_id);
}

// ---------------------------------------------------------------------------------------------
// The queue and its executable

/// A given queue is used whatever else there is, a configured one unless it is empty, then the first
/// one that is found, and else the one below where the search begins.
pub proof fn queues_are_chosen_in_order(
    explicit: Option<Seq<char>>,
    configured: Option<Seq<char>>,
    search_root: Seq<char>,
    candidates: Seq<QueueCandidate>,
    i: int,
)
    ensures
        explicit is Some ==> queue_path_for(explicit, configured, search_root, candidates)
            == explicit->0,
        configured is Some && configured->0.len() > 0 ==> queue_path_for(
            None,
            configured,
            search_root,
            candidates,
        ) == configured->0,
        configured is None || configured->0.len() == 0 ==> {
            let path = queue_path_for(None, configured, search_root, candidates);
            &&& 0 <= i < candidates.len() && candidates[i].is_file && (forall|j: int|
                0 <= j < i ==> !(#[trigger] candidates[j]).is_file) ==> path == candidates[i].path@
            &&& (forall|j: int| 0 <= j < candidates.len() ==> !(#[trigger] candidates[j]).is_file)
                ==> begins(path, search_root) && ends(path, ".sift/issues.jsonl"@)
        },
{
    first_files_are_found(candidates, i);
    paths_below_keep_both_parts(search_root, ".sift/issues.jsonl"@);
}

proof fn first_files_are_found(candidates: Seq<QueueCandidate>, i: int)
    ensures
        0 <= i < candidates.len() && candidates[i].is_file && (forall|j: int|
            0 <= j < i ==> !(#[trigger] candidates[j]).is_file) ==> first_file(candidates) == Some(
            candidates[i].path@,
        ),
        (forall|j: int| 0 <= j < candidates.len() ==> !(#[trigger] candidates[j]).is_file)
            ==> first_file(candidates) is None,
    decreases candidates.len(),
{
    if candidates.len() > 0 {
        let rest = candidates.drop_first();
        first_files_are_found(rest, i - 1);
        if forall|j: int| 0 <= j < candidates.len() ==> !(#[trigger] candidates[j]).is_file {
            assert(!candidates[0].is_file);
            assert forall|j: int| 0 <= j < rest.len() implies !(#[trigger] rest[j]).is_file by {
                assert(!candidates[j + 1].is_file);
            }
        }
        if 0 < i < candidates.len() && (forall|j: int|
            0 <= j < i ==> !(#[trigger] candidates[j]).is_file) {
            assert(!candidates[0].is_file);
            assert(rest[i - 1] == candidates[i]);
            assert forall|j: int| 0 <= j < i - 1 implies !(#[trigger] rest[j]).is_file by {
                assert(!candidates[j + 1].is_file);
            }
        }
    }
}

/// A configured executable is used unless its name is empty; then the usual one is.
pub proof fn configured_executables_are_used(name: Seq<char>, default: Seq<char>)
    ensures
        name.len() > 0 ==> executable_or(Some(name), default) == name,
        executable_or(Some(Seq::empty()), default) == default,
        executable_or(None, default) == default,
{
}

/// A task is claimed exactly when the plan as it is now holds it as pending, with all of its blockers
/// closed; a task outside the plan and one that is not ready are told as such.
pub proof fn only_ready_tasks_are_claimed(
    current: Result<PlanView, ErrorView>,
    root_task_id: Seq<char>,
    task_id: Seq<char>,
    queue: Seq<char>,
    run_id: Seq<char>,
)
    ensures
        claim_request(current, root_task_id, task_id, queue, run_id) is Ok <==> (
        current matches Ok(plan) && plan.ready().contains(task_id)),
        claim_request(current, root_task_id, task_id, queue, run_id) matches Ok(arguments)
            ==> arguments == claim_arguments(task_id, queue, run_id),
        current matches Err(e) ==> claim_request(current, root_task_id, task_id, queue, run_id)
            == Err::<Seq<Seq<char>>, ErrorView>(e),
        current matches Ok(plan) ==> !plan.task_ids().contains(task_id) ==> claim_request(
            current,
            root_task_id,
            task_id,
            queue,
            run_id,
        ) == Err::<Seq<Seq<char>>, ErrorView>(
            ErrorView::TaskOutsideScope { task_id, root_task_id },
        ),
        current matches Ok(plan) ==> (plan.task_ids().contains(task_id) && !plan.ready().contains(
            task_id,
        )) ==> claim_request(current, root_task_id, task_id, queue, run_id) == Err::<
            Seq<Seq<char>>,
            ErrorView,
        >(ErrorView::TaskNotReady { task_id, status: plan.status(plan.queue.tasks[task_id]) }),
{
}

/// An edit of the queue is accepted exactly when the command succeeded; the error tells what could not
/// be started, or how it failed.
pub proof fn failed_edits_are_told(executable: Seq<char>, ran: Result<Finished, String>)
    ensures
        edit_fault(executable, ran) is None <==> (ran matches Ok(output) && output.success),
        ran matches Err(source) ==> edit_fault(executable, ran) == Some(
            ErrorView::StartSq { executable, source: source@ },
        ),
        ran matches Ok(output) ==> !output.success ==> (edit_fault(executable, ran) matches Some(
            ErrorView::SqFailed { executable: e, status, stderr },
        ) && e == executable && status == output.code && stderr == trim(output.stderr@)),
{
}

/// A refused task is told with its line.
pub proof fn refused_tasks_are_told_with_their_line(
    task: TaskView,
    reason: Seq<char>,
    line: nat,
)
    ensures
        at_line(Ok::<TaskView, Seq<char>>(task), line) == Ok::<TaskView, ErrorView>(task),
        at_line(Err::<TaskView, Seq<char>>(reason), line) == Err::<TaskView, ErrorView>(
            ErrorView::InvalidTask { line, reason },
        ),
{
}

/// A claim is confirmed exactly when the plan that is read back holds the task in progress for the run.
/// A claim that did not stand is told with what was found; any other refusal is told as it is.
pub proof fn confirmed_claims_stand_in_the_queue(
    read_back: Result<PlanView, ErrorView>,
    task_id: Seq<char>,
    run_id: Seq<char>,
)
    ensures
        confirmed_claim(read_back, task_id, run_id) is Ok <==> (read_back matches Ok(plan)
            && plan.queue.tasks[task_id].stored_status == TaskStatus::InProgress
            && plan.queue.tasks[task_id].owner_run_id() == Some(run_id)),
        confirmed_claim(read_back, task_id, run_id) matches Ok(plan) ==> read_back == Ok::<
            PlanView,
            ErrorView,
        >(plan),
        confirmed_claim(read_back, task_id, run_id) matches Err(
            ErrorView::ClaimNotPersisted {
                task_id: task,
                expected_run_id,
                actual_status,
                actual_run_id,
            },
        ) ==> match read_back {
            Ok(plan) => task == task_id && expected_run_id == run_id && actual_status
                == plan.queue.tasks[task_id].stored_status && actual_run_id
                == plan.queue.tasks[task_id].owner_run_id(),
            Err(ErrorView::UnownedInProgress { task_id: stray }) => stray == task_id && task
                == task_id && expected_run_id == run_id && actual_status == TaskStatus::InProgress
                && actual_run_id is None,
            Err(error) => confirmed_claim(read_back, task_id, run_id) == Err::<PlanView, ErrorView>(
                error,
            ),
        },
        read_back is Ok && confirmed_claim(read_back, task_id, run_id) is Err ==> confirmed_claim(
            read_back,
            task_id,
            run_id,
        )->Err_0 is ClaimNotPersisted,
        read_back == Err::<PlanView, ErrorView>(ErrorView::UnownedInProgress { task_id }) ==> (
        confirmed_claim(read_back, task_id, run_id)->Err_0 is ClaimNotPersisted),
        read_back is Err && read_back != Err::<PlanView, ErrorView>(
            ErrorView::UnownedInProgress { task_id },
        ) ==> confirmed_claim(read_back, task_id, run_id) == read_back,
{
}

/// A claim edits the task in the queue of the run: it sets the status to in progress and merges the
/// run into the metadata.
pub proof fn claims_edit_the_task(task_id: Seq<char>, queue: Seq<char>, run_id: Seq<char>, i: int)
    requires
        0 <= i < claim_arguments(task_id, queue, run_id).len(),
    ensures
        claim_arguments(task_id, queue, run_id)[0] == "edit"@,
        claim_arguments(task_id, queue, run_id)[1] == task_id,
        claim_arguments(task_id, queue, run_id).contains("--queue"@),
        claim_arguments(task_id, queue, run_id).contains("--set-status"@),
        claim_arguments(task_id, queue, run_id).contains("--merge-metadata"@),
        claim_arguments(task_id, queue, run_id).last() == "--json"@,
        i % 2 == 0 && 2 <= i && i + 1 < claim_arguments(task_id, queue, run_id).len() ==> {
            let option = claim_arguments(task_id, queue, run_id)[i];
            let value = claim_arguments(task_id, queue, run_id)[i + 1];
            &&& option == "--queue"@ ==> value == queue
            &&& option == "--set-status"@ ==> status_named(value) == Some(TaskStatus::InProgress)
            &&& option == "--merge-metadata"@ ==> value == nested_object_text(
                "agent_orchestrator"@,
                "run_id"@,
                run_id,
            )
        },
{
    reveal_strlit("--queue");
    reveal_strlit("--set-status");
    reveal_strlit("--merge-metadata");
    assert("--queue"@.len() == 7 && "--set-status"@.len() == 12 && "--merge-metadata"@.len() == 16);
    status_words_name_their_status(TaskStatus::InProgress);
    let a = claim_arguments(task_id, queue, run_id);
    assert(a[2] == "--queue"@ && a[4] == "--set-status"@ && a[6] == "--merge-metadata"@);
    if i % 2 == 0 && 2 <= i && i + 1 < a.len() {
        assert(i == 2 || i == 4 || i == 6);
    }
}

} // verus!
