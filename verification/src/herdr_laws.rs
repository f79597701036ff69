//! What Herdr is asked, and what its replies must satisfy.
use vstd::prelude::*;
use vstd::utf8::encode_utf8;
use crate::command::Finished;
use crate::hash::hash_of;
use crate::herdr::{
    agent_fault, agent_of, agent_status_named, close_arguments, create_arguments, created_workspace,
    disposition_of, is_separator, name_char, name_of_worker, name_start, output_of,
    preflight_arguments, preflight_of, prompt_arguments, prompt_request, readable_part, reply_of,
    response_text, server_fault, start_arguments, started_worker, status_arguments, type_fault,
    unseparated, AgentResponse, AgentStatus, ErrorView, HerdrClient, ServerStatus,
    WorkerDisposition, WorkerStop, WorkerView, WorkspaceView, WorktreeSpec,
};
use crate::json::{field_in, json_of_bytes, JsonView};
use crate::text::{blank, hex};
use crate::text_laws::{
    begins, end_goes_on, ends, gives, hexadecimals_are_read_back, numeral_value, says_something,
};

verus! {

// ---------------------------------------------------------------------------------------------
// Workers

/// The five words of Herdr name the five statuses, and no other word names one.
pub proof fn words_of_herdr_name_statuses(word: Seq<char>)
    ensures
        agent_status_named(word) == Some(AgentStatus::Working) <==> word == "working"@,
        agent_status_named(word) == Some(AgentStatus::Idle) <==> word == "idle"@,
        agent_status_named(word) == Some(AgentStatus::Done) <==> word == "done"@,
        agent_status_named(word) == Some(AgentStatus::Blocked) <==> word == "blocked"@,
        agent_status_named(word) == Some(AgentStatus::Unknown) <==> word == "unknown"@,
{
    reveal_strlit("working");
    reveal_strlit("idle");
    reveal_strlit("done");
    reveal_strlit("blocked");
    reveal_strlit("unknown");
    assert("working"@[0] == 'w' && "idle"@[0] == 'i' && "done"@[0] == 'd');
    assert("blocked"@[0] == 'b' && "unknown"@[0] == 'u');
}

/// A report counts for more than any status. Without one a worker goes on while it works or nothing
/// is known of it; one that is idle or done has settled without a report, and a blocked one is
/// blocked.
pub proof fn reports_count_for_more_than_panes(status: AgentStatus, report_present: bool)
    ensures
        disposition_of(status, report_present) == WorkerDisposition::ReportPresent
            <==> report_present,
        disposition_of(status, false) == WorkerDisposition::Active <==> status
            == AgentStatus::Working || status == AgentStatus::Unknown,
        disposition_of(status, false) == WorkerDisposition::Stop(WorkerStop::Blocked) <==> status
            == AgentStatus::Blocked,
        disposition_of(status, false) == WorkerDisposition::Stop(
            WorkerStop::SettledWithoutReport(status),
        ) <==> status == AgentStatus::Idle || status == AgentStatus::Done,
{
}

/// A worker is named by a word, a readable part of the task, and the hash of the run and the task
/// with a zero byte between them, in sixteen hexadecimal digits.
pub proof fn worker_names_tell_run_and_task(run_id: Seq<char>, task_id: Seq<char>)
    ensures
        ({
            let name = name_of_worker(run_id, task_id);
            let part = readable_part(encode_utf8(task_id));
            &&& begins(name, "ao-"@ + part + "-"@)
            &&& name.len() == 3 + part.len() + 1 + 16
            &&& numeral_value(name.skip(name.len() - 16), 16) == hash_of(
                encode_utf8(run_id) + seq![0u8] + encode_utf8(task_id),
            )
        }),
{
    reveal_strlit("ao-");
    reveal_strlit("-");
    let part = readable_part(encode_utf8(task_id));
    let hash = hash_of(encode_utf8(run_id) + seq![0u8] + encode_utf8(task_id));
    let digits = hex(hash as nat, 16);
    hexadecimals_are_read_back(hash as nat, 16);
    let head = "ao-"@ + part + "-"@;
    let name = name_of_worker(run_id, task_id);
    assert(name.take(head.len() as int) =~= head);
    assert(name.skip(name.len() - 16) =~= digits);
    assert(vstd::arithmetic::power::pow(16, 16) == 0x1_0000_0000_0000_0000) by {
        reveal_with_fuel(vstd::arithmetic::power::pow, 17);
    }
    vstd::arithmetic::div_mod::lemma_small_mod(hash as nat, 0x1_0000_0000_0000_0000);
}

/// A small letter or a digit.
pub open spec fn plain_byte(byte: u8) -> bool {
    97 <= byte <= 122 || 48 <= byte <= 57
}

/// The bytes as characters.
pub open spec fn as_chars(bytes: Seq<u8>) -> Seq<char> {
    bytes.map_values(|b: u8| b as char)
}

/// A task ID of small letters and digits is readable as it is, up to its twelfth character; a task
/// ID of nothing is called a task.
pub proof fn plain_ids_are_readable(bytes: Seq<u8>)
    requires
        forall|i: int| 0 <= i < bytes.len() ==> plain_byte(#[trigger] bytes[i]),
    ensures
        bytes.len() == 0 ==> readable_part(bytes) == "task"@,
        0 < bytes.len() <= 12 ==> readable_part(bytes) == as_chars(bytes),
        bytes.len() > 12 ==> readable_part(bytes) == as_chars(bytes.take(12)),
{
    plain_ids_start_names(bytes);
    let name = name_start(bytes);
    if bytes.len() > 0 {
        let n = name.len() - 1;
        assert(plain_byte(bytes[n]));
        assert(name.last() == bytes[n] as char);
        assert(!is_separator(name.last()));
    }
}

proof fn plain_ids_start_names(bytes: Seq<u8>)
    requires
        forall|i: int| 0 <= i < bytes.len() ==> plain_byte(#[trigger] bytes[i]),
    ensures
        bytes.len() <= 12 ==> name_start(bytes) == as_chars(bytes),
        bytes.len() > 12 ==> name_start(bytes) == as_chars(bytes.take(12)),
    decreases bytes.len(),
{
    if bytes.len() > 0 {
        let rest = bytes.drop_last();
        plain_ids_start_names(rest);
        let last = bytes.last();
        assert(plain_byte(bytes[bytes.len() - 1]));
        assert(name_char(last) == last as char);
        assert(!is_separator(last as char));
        if bytes.len() <= 12 {
            assert(as_chars(bytes) =~= as_chars(rest).push(last as char));
        } else if bytes.len() == 13 {
            assert(rest =~= bytes.take(12));
        } else {
            assert(rest.take(12) =~= bytes.take(12));
        }
    } else {
        assert(name_start(bytes) =~= as_chars(bytes));
    }
}

/// What a byte of a task ID counts as: a capital letter as the small one, and all but letters, digits
/// and separators as a hyphen.
pub open spec fn counted_as(byte: u8) -> u8 {
    if plain_byte(byte) || byte == 45 || byte == 95 {
        byte
    } else if 65 <= byte <= 90 {
        (byte + 32) as u8
    } else {
        45
    }
}

/// The readable part of a task ID takes capital letters as small ones and other signs as hyphens; it
/// neither begins nor ends with a separator, has no two of them in a row, and is neither empty nor
/// longer than twelve characters.
pub proof fn readable_parts_are_separated(bytes: Seq<u8>)
    ensures
        readable_part(bytes) == readable_part(bytes.map_values(|b: u8| counted_as(b))),
        0 < readable_part(bytes).len() <= 12,
        !is_separator(readable_part(bytes).first()),
        !is_separator(readable_part(bytes).last()),
        forall|i: int|
            0 <= i && i + 1 < readable_part(bytes).len() ==> !(is_separator(
                #[trigger] readable_part(bytes)[i],
            ) && is_separator(readable_part(bytes)[i + 1])),
        forall|c: char| #[trigger] is_separator(c) <==> c == '-' || c == '_',
{
    reveal_strlit("task");
    counting_keeps_names(bytes);
    names_are_separated(bytes);
    let name = name_start(bytes);
    ends_are_taken_off(name);
    let cut = unseparated(name);
    if cut.len() > 0 {
        assert(cut[0] == name[0]);
    } else {
        assert(!is_separator("task"@[0]) && !is_separator("task"@[1]));
        assert(!is_separator("task"@[2]) && !is_separator("task"@[3]));
    }
}

proof fn counting_keeps_names(bytes: Seq<u8>)
    ensures
        name_start(bytes) == name_start(bytes.map_values(|b: u8| counted_as(b))),
    decreases bytes.len(),
{
    let counted = bytes.map_values(|b: u8| counted_as(b));
    if bytes.len() > 0 {
        let rest = bytes.drop_last();
        counting_keeps_names(rest);
        assert(counted.drop_last() =~= rest.map_values(|b: u8| counted_as(b)));
        assert(counted.last() == counted_as(bytes.last()));
        assert(name_char(counted.last()) == name_char(bytes.last()));
    } else {
        assert(counted =~= bytes);
    }
}

proof fn names_are_separated(bytes: Seq<u8>)
    ensures
        name_start(bytes).len() <= 12,
        name_start(bytes).len() > 0 ==> !is_separator(name_start(bytes)[0]),
        forall|i: int|
            0 <= i && i + 1 < name_start(bytes).len() ==> !(is_separator(
                #[trigger] name_start(bytes)[i],
            ) && is_separator(name_start(bytes)[i + 1])),
    decreases bytes.len(),
{
    if bytes.len() > 0 {
        names_are_separated(bytes.drop_last());
    }
}

proof fn ends_are_taken_off(name: Seq<char>)
    ensures
        unseparated(name).len() <= name.len(),
        unseparated(name) == name.take(unseparated(name).len() as int),
        unseparated(name).len() > 0 ==> !is_separator(unseparated(name).last()),
    decreases name.len(),
{
    if name.len() > 0 && is_separator(name.last()) {
        ends_are_taken_off(name.drop_last());
        let n = unseparated(name).len() as int;
        assert(name.take(n) =~= name.drop_last().take(n));
    } else {
        assert(name.take(name.len() as int) =~= name);
    }
}

// ---------------------------------------------------------------------------------------------
// What is asked

/// Everything is asked of the session of the run.
pub proof fn the_session_is_asked(
    session: Seq<char>,
    spec: WorktreeSpec,
    workspace: WorkspaceView,
    worker: WorkerView,
    run_id: Seq<char>,
    task_id: Seq<char>,
    model: Option<Seq<char>>,
    text: Seq<char>,
)
    ensures
        begins_with_session(preflight_arguments(session), session),
        begins_with_session(create_arguments(session, spec), session),
        begins_with_session(close_arguments(session, text), session),
        begins_with_session(start_arguments(session, workspace, run_id, task_id, model), session),
        begins_with_session(prompt_arguments(session, worker, text), session),
        begins_with_session(status_arguments(session, worker), session),
        gives(preflight_arguments(session), "status"@, "server"@),
        gives(close_arguments(session, text), "close"@, text),
        gives(prompt_arguments(session, worker, text), "prompt"@, worker.name),
        prompt_arguments(session, worker, text).last() == text,
        gives(status_arguments(session, worker), "get"@, worker.name),
{
    let a = preflight_arguments(session);
    assert(a[2] == "status"@ && a[3] == "server"@);
    let a = close_arguments(session, text);
    assert(a[3] == "close"@ && a[4] == text);
    let a = prompt_arguments(session, worker, text);
    assert(a[3] == "prompt"@ && a[4] == worker.name);
    let a = status_arguments(session, worker);
    assert(a[3] == "get"@ && a[4] == worker.name);
}

/// The arguments begin with the session.
pub open spec fn begins_with_session(arguments: Seq<Seq<char>>, session: Seq<char>) -> bool {
    arguments.len() > 2 && arguments[0] == "--session"@ && arguments[1] == session
}

/// A worktree is created from the repository, on its branch and from its base, at its path and under
/// its label, without the focus going there.
pub proof fn worktrees_are_created_as_specified(session: Seq<char>, spec: WorktreeSpec)
    ensures
        gives(create_arguments(session, spec), "worktree"@, "create"@),
        gives(create_arguments(session, spec), "--cwd"@, spec.repo@),
        gives(create_arguments(session, spec), "--branch"@, spec.branch@),
        gives(create_arguments(session, spec), "--base"@, spec.base@),
        gives(create_arguments(session, spec), "--path"@, spec.path@),
        gives(create_arguments(session, spec), "--label"@, spec.task_label@),
        create_arguments(session, spec).contains("--no-focus"@),
{
    let a = create_arguments(session, spec);
    assert(a[2] == "worktree"@ && a[3] == "create"@);
    assert(a[4] == "--cwd"@ && a[5] == spec.repo@);
    assert(a[6] == "--branch"@ && a[7] == spec.branch@);
    assert(a[8] == "--base"@ && a[9] == spec.base@);
    assert(a[10] == "--path"@ && a[11] == spec.path@);
    assert(a[12] == "--label"@ && a[13] == spec.task_label@);
    assert(a[14] == "--no-focus"@);
}

/// A worker is started under its own name as OMP, in the pane of its workspace, and with the model
/// where one is asked for.
pub proof fn workers_are_started_in_their_pane(
    session: Seq<char>,
    workspace: WorkspaceView,
    run_id: Seq<char>,
    task_id: Seq<char>,
    model: Option<Seq<char>>,
)
    ensures
        ({
            let arguments = start_arguments(session, workspace, run_id, task_id, model);
            &&& gives(arguments, "agent"@, "start"@)
            &&& gives(arguments, "start"@, name_of_worker(run_id, task_id))
            &&& gives(arguments, "--kind"@, "omp"@)
            &&& gives(arguments, "--pane"@, workspace.pane_id)
            &&& model matches Some(m) ==> gives(arguments, "--"@, "--model"@) && gives(
                arguments,
                "--model"@,
                m,
            ) && arguments.last() == m
            &&& model is None ==> arguments.last() == workspace.pane_id
        }),
{
    let a = start_arguments(session, workspace, run_id, task_id, model);
    assert(a[2] == "agent"@ && a[3] == "start"@ && a[4] == name_of_worker(run_id, task_id));
    assert(a[5] == "--kind"@ && a[6] == "omp"@);
    assert(a[7] == "--pane"@ && a[8] == workspace.pane_id);
    if let Some(m) = model {
        assert(a[9] == "--"@ && a[10] == "--model"@ && a[11] == m);
    }
}

// ---------------------------------------------------------------------------------------------
// What is replied

/// A server can be worked with exactly when it runs and does not say that it is incompatible.
pub proof fn servers_run_and_are_compatible(session: Seq<char>, status: ServerStatus)
    ensures
        server_fault(session, status) is None <==> status.running && status.compatible != Some(
            false,
        ),
        server_fault(session, status) matches Some(e) ==> e == (ErrorView::SessionUnavailable {
            session,
            detail: if status.running {
                "server protocol is incompatible"@
            } else {
                "server is not running"@
            },
        }),
{
}

/// A session is available exactly when its server answers; otherwise the error tells the session.
pub proof fn sessions_are_available_when_they_answer(
    client: HerdrClient,
    ran: Result<Finished, String>,
)
    ensures
        preflight_of(client, ran) is Ok <==> (ran matches Ok(o) && o.success),
        preflight_of(client, ran) matches Ok(bytes) ==> (ran matches Ok(o) && bytes == o.stdout@),
        ran matches Ok(o) ==> !o.success ==> (preflight_of(client, ran) matches Err(
            ErrorView::SessionUnavailable { session, detail },
        ) && session == client.session_name()),
        ran matches Err(source) ==> (preflight_of(client, ran) matches Err(
            ErrorView::Start { executable, session, operation, source: s },
        ) && executable == client.executable_name() && session == client.session_name() && s
            == source@),
{
}

/// What stands in the result of a reply, two names down.
pub open spec fn in_result(
    response: JsonView,
    part: Seq<char>,
    name: Seq<char>,
) -> Option<JsonView> {
    match response.field("result"@) {
        Some(result) => match result.field(part) {
            Some(value) => value.field(name),
            None => None,
        },
        None => None,
    }
}

/// The reply says of which type its result is.
pub open spec fn is_of_type(response: JsonView, expected: Seq<char>) -> bool {
    response.field("result"@) matches Some(result) && result.field("type"@) == Some(
        JsonView::Text(expected),
    )
}

/// A reply of the expected type is accepted; one of another type is not, and the error tells both.
pub proof fn replies_are_of_the_expected_type(
    response: JsonView,
    operation: Seq<char>,
    expected: Seq<char>,
    found: Seq<char>,
)
    requires
        expected != "<missing>"@,
    ensures
        type_fault(response, operation, expected) is None <==> is_of_type(response, expected),
        is_of_type(response, found) && found != expected ==> (type_fault(
            response,
            operation,
            expected,
        ) matches Some(ErrorView::UnexpectedResponse { operation: o, detail }) && o == operation
            && begins(detail, "returned result type `"@ + found + "`"@) && ends(
            detail,
            "`"@ + expected + "`"@,
        )),
{
    reveal_strlit("`, expected `");
    reveal_strlit("`");
    if is_of_type(response, found) && found != expected {
        let tail = "`, expected `"@;
        let detail = "returned result type `"@ + found + tail + expected + "`"@;
        let head = "returned result type `"@ + found + "`"@;
        assert(detail.take(head.len() as int) =~= head);
        let end = "`"@ + expected + "`"@;
        assert(detail.skip(detail.len() - end.len()) =~= end);
    }
}

/// A text is taken out of a reply exactly when a text that is not empty stands there.
pub proof fn replies_give_their_texts(
    response: JsonView,
    part: Seq<char>,
    name: Seq<char>,
    operation: Seq<char>,
)
    ensures
        response_text(response, part, name, operation) is Ok <==> (in_result(
            response,
            part,
            name,
        ) matches Some(JsonView::Text(text)) && text.len() > 0),
        response_text(response, part, name, operation) matches Ok(text) ==> in_result(
            response,
            part,
            name,
        ) == Some(JsonView::Text(text)),
        response_text(response, part, name, operation) matches Err(e)
            ==> e matches ErrorView::UnexpectedResponse { operation: o, detail } && o == operation
            && ends(detail, "/"@ + part + "/"@ + name + "`"@),
{
    reveal_strlit("missing non-empty `/result/");
    reveal_strlit("/");
    let head = "missing non-empty `/result/"@;
    assert(head.skip(head.len() - 1) =~= "/"@);
    end_goes_on(head, part, "/"@);
    end_goes_on(head + part, "/"@, "/"@ + part);
    end_goes_on(head + part + "/"@, name, "/"@ + part + "/"@);
    end_goes_on(head + part + "/"@ + name, "`"@, "/"@ + part + "/"@ + name);
}

/// The workspace that was created is the one in the reply: its ID that of the workspace, its pane that
/// of the root pane.
pub proof fn created_workspaces_are_in_the_reply(response: JsonView)
    ensures
        created_workspace(response) matches Ok(workspace) ==> {
            &&& is_of_type(response, "worktree_created"@)
            &&& in_result(response, "workspace"@, "workspace_id"@) == Some(
                JsonView::Text(workspace.workspace_id),
            )
            &&& in_result(response, "root_pane"@, "pane_id"@) == Some(
                JsonView::Text(workspace.pane_id),
            )
            &&& workspace.workspace_id.len() > 0 && workspace.pane_id.len() > 0
        },
        is_of_type(response, "worktree_created"@) && (in_result(
            response,
            "workspace"@,
            "workspace_id"@,
        ) matches Some(JsonView::Text(w)) && w.len() > 0) && (in_result(
            response,
            "root_pane"@,
            "pane_id"@,
        ) matches Some(JsonView::Text(p)) && p.len() > 0) ==> created_workspace(response) is Ok,
{
    reveal_strlit("<missing>");
    reveal_strlit("worktree_created");
    assert("<missing>"@.len() == 9 && "worktree_created"@.len() == 16);
    let operation = "creating Herdr worktree"@;
    replies_are_of_the_expected_type(
        response,
        operation,
        "worktree_created"@,
        "worktree_created"@,
    );
    replies_give_their_texts(response, "workspace"@, "workspace_id"@, operation);
    replies_give_their_texts(response, "root_pane"@, "pane_id"@, operation);
}

/// The agent of a reply of the expected type is the one in its result.
pub proof fn agents_are_in_the_reply(
    response: JsonView,
    operation: Seq<char>,
    expected: Seq<char>,
)
    requires
        expected != "<missing>"@,
    ensures
        agent_of(response, operation, expected) matches Ok(agent) ==> is_of_type(response, expected)
            && field_in(response.field("result"@), "agent"@) == Some(agent),
        is_of_type(response, expected) && field_in(response.field("result"@), "agent"@) is Some
            ==> agent_of(response, operation, expected) is Ok,
{
    replies_are_of_the_expected_type(response, operation, expected, expected);
}

/// An agent is taken for the worker exactly when its status has a word and its name, its workspace and
/// its pane are those of the worker.
pub proof fn agents_are_their_workers(
    agent: AgentResponse,
    expected: WorkerView,
    operation: Seq<char>,
)
    ensures
        agent_fault(agent, expected, operation) is None <==> {
            &&& agent.agent_status@ == "working"@ || agent.agent_status@ == "idle"@
                || agent.agent_status@ == "done"@ || agent.agent_status@ == "blocked"@
                || agent.agent_status@ == "unknown"@
            &&& agent.name matches Some(name) && name@ == expected.name
            &&& agent.workspace_id@ == expected.workspace_id
            &&& agent.pane_id@ == expected.pane_id
        },
        agent_fault(agent, expected, operation) matches Some(e)
            ==> e matches ErrorView::UnexpectedResponse { operation: o, detail } && o == operation,
{
}

/// A worker that was started has the name for its run and task, and stands in its own workspace and
/// pane; it is there exactly when the agent in the reply has all three.
pub proof fn started_workers_are_their_own(
    workspace: WorkspaceView,
    run_id: Seq<char>,
    task_id: Seq<char>,
    agent: AgentResponse,
)
    ensures
        started_worker(workspace, run_id, task_id, agent) matches Ok(worker) ==> {
            &&& worker.name == name_of_worker(run_id, task_id)
            &&& worker.workspace_id == workspace.workspace_id
            &&& worker.pane_id == workspace.pane_id
        },
        started_worker(workspace, run_id, task_id, agent) is Ok <==> {
            &&& agent_status_named(agent.agent_status@) is Some
            &&& agent.name matches Some(name) && name@ == name_of_worker(run_id, task_id)
            &&& agent.workspace_id@ == workspace.workspace_id
            &&& agent.pane_id@ == workspace.pane_id
        },
{
    let worker = WorkerView {
        name: name_of_worker(run_id, task_id),
        workspace_id: workspace.workspace_id,
        pane_id: workspace.pane_id,
    };
    agents_are_their_workers(agent, worker, "starting OMP worker"@);
}

/// A worker is prompted exactly when its handoff has a receipt that says something.
pub proof fn workers_are_prompted_after_their_handoff(
    session: Seq<char>,
    worker: WorkerView,
    receipt: Seq<char>,
    prompt: Seq<char>,
)
    ensures
        prompt_request(session, worker, receipt, prompt) is Ok <==> says_something(receipt),
        prompt_request(session, worker, receipt, prompt) matches Ok(arguments) ==> gives(
            arguments,
            "prompt"@,
            worker.name,
        ) && arguments.last() == prompt,
        prompt_request(session, worker, receipt, prompt) matches Err(e)
            ==> e is MissingHandoffReceipt,
{
    assert(says_something(receipt) <==> !blank(receipt));
    let a = prompt_arguments(session, worker, prompt);
    assert(a[3] == "prompt"@ && a[4] == worker.name);
}

/// What a command wrote is taken where it succeeded, and read as JSON; the errors tell the operation.
pub proof fn replies_are_read_where_commands_succeed(
    client: HerdrClient,
    operation: Seq<char>,
    ran: Result<Finished, String>,
)
    ensures
        output_of(client, operation, ran) is Ok <==> (ran matches Ok(o) && o.success),
        output_of(client, operation, ran) matches Ok(bytes) ==> (ran matches Ok(o) && bytes
            == o.stdout@),
        reply_of(client, operation, ran) is Ok <==> (ran matches Ok(o) && o.success
            && json_of_bytes(o.stdout@) is Ok),
        reply_of(client, operation, ran) matches Ok(value) ==> (ran matches Ok(o) && json_of_bytes(
            o.stdout@,
        ) == Ok::<JsonView, Seq<char>>(value)),
        ran matches Err(source) ==> reply_of(client, operation, ran) == Err::<JsonView, ErrorView>(
            ErrorView::Start {
                executable: client.executable_name(),
                session: client.session_name(),
                operation,
                source: source@,
            },
        ),
        ran matches Ok(o) ==> !o.success ==> (reply_of(client, operation, ran) matches Err(
            ErrorView::CommandFailed { operation: p, status, detail },
        ) && p == operation && status == o.status@),
        ran matches Ok(o) ==> (o.success && json_of_bytes(o.stdout@) is Err) ==> reply_of(
            client,
            operation,
            ran,
        ) == Err::<JsonView, ErrorView>(
            ErrorView::InvalidJson { operation, source: json_of_bytes(o.stdout@)->Err_0 },
        ),
{
}

} // verus!
