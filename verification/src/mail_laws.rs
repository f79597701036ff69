//! What mail must satisfy: handoffs, receipts, and the reports that answer them.
use vstd::prelude::*;
use crate::command::Finished;
use crate::identity::IdentityView;
use crate::mail::{
    body_of, handoff_text, handoff_title, header_fault, header_in, header_value, how_to_report_text,
    listed, mark_request, numbered_list, output_of, peek_arguments, read_arguments, receipt_fault,
    reconciled, report_announced, report_title, reports_announced, scan_arguments, send_arguments,
    some_written, what_and_where_text, what_is_expected_text, what_is_touched_text, who_works_text,
    with_numbers, ErrorView, HandoffView, MailHeader, MailReceipt, ReportDisposition, ReportStatus,
    ReportView,
};
use crate::sq::TaskStatus;
use crate::text::{
    blank, decimal, find_from, find_is_first, lines, occurs, occurs_at, same_ignoring_case, trim,
    white_space,
};
use crate::text_laws::{
    begin_stays, begins, end_goes_on, end_occurs, ends, joining_one_more, occurs_at_the_end,
    occurs_behind, occurs_in_more, pieces_occur, says, says_something,
};

verus! {

// ---------------------------------------------------------------------------------------------
// Subjects

/// The subjects of a handoff and of its report end with the task and the run, and tell handoff and
/// report apart.
pub proof fn subjects_tell_task_and_run(task_id: Seq<char>, run_id: Seq<char>)
    ensures
        ends(handoff_title(task_id, run_id), " "@ + task_id + " "@ + run_id),
        ends(report_title(task_id, run_id), " "@ + task_id + " "@ + run_id),
        handoff_title(task_id, run_id).len() == 26 + (" "@ + task_id + " "@ + run_id).len(),
        report_title(task_id, run_id).len() == 25 + (" "@ + task_id + " "@ + run_id).len(),
        begins(handoff_title(task_id, run_id), "agent-orchestrator handoff "@),
        begins(report_title(task_id, run_id), "agent-orchestrator report "@),
        handoff_title(task_id, run_id) != report_title(task_id, run_id),
{
    reveal_strlit("agent-orchestrator handoff ");
    reveal_strlit("agent-orchestrator report ");
    reveal_strlit(" ");
    let handoff = "agent-orchestrator handoff "@;
    let report = "agent-orchestrator report "@;
    assert(handoff.skip(26) =~= " "@);
    assert(report.skip(25) =~= " "@);
    end_goes_on(handoff, task_id, " "@);
    end_goes_on(handoff + task_id, " "@, " "@ + task_id);
    end_goes_on(handoff + task_id + " "@, run_id, " "@ + task_id + " "@);
    end_goes_on(report, task_id, " "@);
    end_goes_on(report + task_id, " "@, " "@ + task_id);
    end_goes_on(report + task_id + " "@, run_id, " "@ + task_id + " "@);
    assert(handoff_title(task_id, run_id).take(27) =~= handoff);
    assert(report_title(task_id, run_id).take(26) =~= report);
    assert(handoff_title(task_id, run_id)[19] == 'h');
    assert(report_title(task_id, run_id)[19] == 'r');
}

// ---------------------------------------------------------------------------------------------
// Handoffs

/// A handoff names the orchestrator and the worker, each with its slug.
pub proof fn handoffs_say_who_works(h: HandoffView)
    ensures
        occurs(handoff_text(h), "You are the worker for an agent-orchestrator run.\n\n"@),
        occurs(
            handoff_text(h),
            "Orchestrator: "@
                + h.orchestrator.name
                + " ("@
                + h.orchestrator.slug
                + ")"@,
        ),
        occurs(handoff_text(h), "Worker: "@ + h.worker.name + " ("@ + h.worker.slug + ")"@),
{
    broadcast use {occurs_in_more, occurs_behind};

    let t0 = "You are the worker for an agent-orchestrator run.\n\n"@;
    let t1 = t0 + "Orchestrator: "@;
    let t2 = t1 + h.orchestrator.name;
    let t3 = t2 + " ("@;
    let t4 = t3 + h.orchestrator.slug;
    let t5 = t4 + ")"@;
    let t6 = t5 + "\n"@;
    let t7 = t6 + "Worker: "@;
    let t8 = t7 + h.worker.name;
    let t9 = t8 + " ("@;
    let t10 = t9 + h.worker.slug;
    let t11 = t10 + ")"@;
    let t12 = t11 + "\n"@;
    assert(t0.skip(0) =~= t0);
    end_occurs(t0, t0);
    pieces_occur(t0, "Orchestrator: "@, h.orchestrator.name, " ("@, h.orchestrator.slug, ")"@);
    pieces_occur(t6, "Worker: "@, h.worker.name, " ("@, h.worker.slug, ")"@);
    assert(who_works_text(h) == t12);
    assert(occurs(who_works_text(h), "You are the worker for an agent-orchestrator run.\n\n"@));
    assert(occurs(who_works_text(h), "Orchestrator: "@ + h.orchestrator.name + " ("@ + h.orchestrator.slug + ")"@));
    assert(occurs(who_works_text(h), "Worker: "@ + h.worker.name + " ("@ + h.worker.slug + ")"@));
}

/// A handoff gives the run, the task, its title and description, the queue, the worktree, the branch
/// and the dependencies, each under its own label.
pub proof fn handoffs_say_what_and_where(h: HandoffView)
    ensures
        occurs(handoff_text(h), "Run ID: "@ + h.run_id + "\n"@),
        occurs(handoff_text(h), "Task ID: "@ + h.task_id + "\n"@),
        occurs(handoff_text(h), "Task: "@ + h.title + "\n"@),
        occurs(handoff_text(h), "Description: "@ + h.description + "\n"@),
        occurs(handoff_text(h), "Canonical SQ queue: "@ + h.queue + "\n"@),
        occurs(handoff_text(h), "Worktree: "@ + h.worktree + "\n"@),
        occurs(handoff_text(h), "Branch: "@ + h.branch + "\n"@),
        occurs(handoff_text(h), "Dependencies: "@ + listed(h.dependencies) + "\n\n"@),
{
    broadcast use {occurs_in_more, occurs_behind};

    let t0 = "Run ID: "@;
    let t1 = t0 + h.run_id;
    let t2 = t1 + "\n"@;
    let t3 = t2 + "Task ID: "@;
    let t4 = t3 + h.task_id;
    let t5 = t4 + "\n"@;
    let t6 = t5 + "Task: "@;
    let t7 = t6 + h.title;
    let t8 = t7 + "\n"@;
    let t9 = t8 + "Description: "@;
    let t10 = t9 + h.description;
    let t11 = t10 + "\n"@;
    let t12 = t11 + "Canonical SQ queue: "@;
    let t13 = t12 + h.queue;
    let t14 = t13 + "\n"@;
    let t15 = t14 + "Worktree: "@;
    let t16 = t15 + h.worktree;
    let t17 = t16 + "\n"@;
    let t18 = t17 + "Branch: "@;
    let t19 = t18 + h.branch;
    let t20 = t19 + "\n"@;
    let t21 = t20 + "Dependencies: "@;
    let t22 = t21 + listed(h.dependencies);
    let t23 = t22 + "\n\n"@;
    assert(t2.skip(0) =~= t2);
    end_occurs(t2, t2);
    pieces_occur(t2, "Task ID: "@, h.task_id, "\n"@, ""@, ""@);
    pieces_occur(t5, "Task: "@, h.title, "\n"@, ""@, ""@);
    pieces_occur(t8, "Description: "@, h.description, "\n"@, ""@, ""@);
    pieces_occur(t11, "Canonical SQ queue: "@, h.queue, "\n"@, ""@, ""@);
    pieces_occur(t14, "Worktree: "@, h.worktree, "\n"@, ""@, ""@);
    pieces_occur(t17, "Branch: "@, h.branch, "\n"@, ""@, ""@);
    pieces_occur(t20, "Dependencies: "@, listed(h.dependencies), "\n\n"@, ""@, ""@);
    assert(what_and_where_text(h) == t23);
    assert(occurs(what_and_where_text(h), "Run ID: "@ + h.run_id + "\n"@));
    assert(occurs(what_and_where_text(h), "Task ID: "@ + h.task_id + "\n"@));
    assert(occurs(what_and_where_text(h), "Task: "@ + h.title + "\n"@));
    assert(occurs(what_and_where_text(h), "Description: "@ + h.description + "\n"@));
    assert(occurs(what_and_where_text(h), "Canonical SQ queue: "@ + h.queue + "\n"@));
    assert(occurs(what_and_where_text(h), "Worktree: "@ + h.worktree + "\n"@));
    assert(occurs(what_and_where_text(h), "Branch: "@ + h.branch + "\n"@));
    assert(occurs(what_and_where_text(h), "Dependencies: "@ + listed(h.dependencies) + "\n\n"@));
}

/// A handoff lists the acceptance criteria as such, and the validation checks as such.
pub proof fn handoffs_say_what_is_expected(h: HandoffView)
    ensures
        occurs(
            handoff_text(h),
            "Acceptance criteria:\n"@
                + numbered_list(h.acceptance_criteria)
                + "\n\n"@,
        ),
        occurs(
            handoff_text(h),
            "Validation expectations:\n"@
                + numbered_list(h.validation_checks)
                + "\n\n"@,
        ),
{
    broadcast use {occurs_in_more, occurs_behind};

    let t0 = "Acceptance criteria:\n"@;
    let t1 = t0 + numbered_list(h.acceptance_criteria);
    let t2 = t1 + "\n\n"@;
    let t3 = t2 + "Validation expectations:\n"@;
    let t4 = t3 + numbered_list(h.validation_checks);
    let t5 = t4 + "\n\n"@;
    assert(t2.skip(0) =~= t2);
    end_occurs(t2, t2);
    pieces_occur(t2, "Validation expectations:\n"@, numbered_list(h.validation_checks), "\n\n"@, ""@, ""@);
    assert(what_is_expected_text(h) == t5);
    assert(occurs(what_is_expected_text(h), "Acceptance criteria:\n"@ + numbered_list(h.acceptance_criteria) + "\n\n"@));
    assert(occurs(what_is_expected_text(h), "Validation expectations:\n"@ + numbered_list(h.validation_checks) + "\n\n"@));
}

/// A handoff confines the worker to its task, and sends its questions to the orchestrator.
pub proof fn handoffs_say_what_may_be_touched(h: HandoffView)
    ensures
        occurs(
            handoff_text(h),
            "Update only task "@
                + h.task_id
                + " in the canonical SQ queue. "@,
        ),
        occurs(
            handoff_text(h),
            "Do not take ownership of other tasks, merge branches, delete worktrees, or silently retry failed work. "@,
        ),
        occurs(
            handoff_text(h),
            "Send decisions and blockers to "@
                + h.orchestrator.slug
                + " with AgentMail.\n\n"@,
        ),
{
    broadcast use {occurs_in_more, occurs_behind};

    let t0 = "Update only task "@;
    let t1 = t0 + h.task_id;
    let t2 = t1 + " in the canonical SQ queue. "@;
    let t3 = t2 + "Do not take ownership of other tasks, merge branches, delete worktrees, or silently retry failed work. "@;
    let t4 = t3 + "Send decisions and blockers to "@;
    let t5 = t4 + h.orchestrator.slug;
    let t6 = t5 + " with AgentMail.\n\n"@;
    assert(t2.skip(0) =~= t2);
    end_occurs(t2, t2);
    occurs_at_the_end(t2, "Do not take ownership of other tasks, merge branches, delete worktrees, or silently retry failed work. "@);
    pieces_occur(t3, "Send decisions and blockers to "@, h.orchestrator.slug, " with AgentMail.\n\n"@, ""@, ""@);
    assert(what_is_touched_text(h) == t6);
    assert(occurs(what_is_touched_text(h), "Update only task "@ + h.task_id + " in the canonical SQ queue. "@));
    assert(occurs(what_is_touched_text(h), "Do not take ownership of other tasks, merge branches, delete worktrees, or silently retry failed work. "@));
    assert(occurs(what_is_touched_text(h), "Send decisions and blockers to "@ + h.orchestrator.slug + " with AgentMail.\n\n"@));
}

/// A handoff has the report sent to the orchestrator, under the subject that announces it and with the
/// IDs by which it is told. The orchestrator is whose mail is looked through for the report.
pub proof fn handoffs_say_whom_to_report_to(h: HandoffView)
    ensures
        occurs(
            handoff_text(h),
            "When finished, first produce and validate the reported commit or durable artifact, then update SQ. Then "@,
        ),
        occurs(
            handoff_text(h),
            "send an AgentMail message to "@
                + h.orchestrator.slug
                + " with subject `"@
                + report_title(h.task_id, h.run_id)
                + "`"@,
        ),
        occurs(handoff_text(h), " and a JSON-only body matching:\n"@),
        occurs(
            handoff_text(h),
            "{\"task_id\":\""@
                + h.task_id
                + "\",\"run_id\":\""@
                + h.run_id
                + "\","@,
        ),
        occurs(
            handoff_text(h),
            "\"status\":\"completed|blocked|failed\",\"commit\":\"COMMIT_OR_NULL\",\"artifact\":\"ARTIFACT_OR_NULL\",\"evidence\":[\"COMMAND: RESULT\"],\"summary\":\"BLOCKER_OR_FAILURE_OR_NULL\"}\n"@,
        ),
        occurs(
            handoff_text(h),
            "A completed report requires a commit or artifact and non-empty validation evidence. Blocked or failed reports require a non-empty summary. Pane exit alone is not completion.\n"@,
        ),
        scan_arguments(h.orchestrator)[1] == "--to"@,
        scan_arguments(h.orchestrator)[2] == h.orchestrator.slug,
{
    broadcast use {occurs_in_more, occurs_behind};

    let t0 = "When finished, first produce and validate the reported commit or durable artifact, then update SQ. Then "@;
    let t1 = t0 + "send an AgentMail message to "@;
    let t2 = t1 + h.orchestrator.slug;
    let t3 = t2 + " with subject `"@;
    let t4 = t3 + report_title(h.task_id, h.run_id);
    let t5 = t4 + "`"@;
    let t6 = t5 + " and a JSON-only body matching:\n"@;
    let t7 = t6 + "{\"task_id\":\""@;
    let t8 = t7 + h.task_id;
    let t9 = t8 + "\",\"run_id\":\""@;
    let t10 = t9 + h.run_id;
    let t11 = t10 + "\","@;
    let t12 = t11 + "\"status\":\"completed|blocked|failed\",\"commit\":\"COMMIT_OR_NULL\",\"artifact\":\"ARTIFACT_OR_NULL\",\"evidence\":[\"COMMAND: RESULT\"],\"summary\":\"BLOCKER_OR_FAILURE_OR_NULL\"}\n"@;
    let t13 = t12 + "A completed report requires a commit or artifact and non-empty validation evidence. Blocked or failed reports require a non-empty summary. Pane exit alone is not completion.\n"@;
    assert(t0.skip(0) =~= t0);
    end_occurs(t0, t0);
    pieces_occur(t0, "send an AgentMail message to "@, h.orchestrator.slug, " with subject `"@, report_title(h.task_id, h.run_id), "`"@);
    occurs_at_the_end(t5, " and a JSON-only body matching:\n"@);
    pieces_occur(t6, "{\"task_id\":\""@, h.task_id, "\",\"run_id\":\""@, h.run_id, "\","@);
    occurs_at_the_end(t11, "\"status\":\"completed|blocked|failed\",\"commit\":\"COMMIT_OR_NULL\",\"artifact\":\"ARTIFACT_OR_NULL\",\"evidence\":[\"COMMAND: RESULT\"],\"summary\":\"BLOCKER_OR_FAILURE_OR_NULL\"}\n"@);
    occurs_at_the_end(t12, "A completed report requires a commit or artifact and non-empty validation evidence. Blocked or failed reports require a non-empty summary. Pane exit alone is not completion.\n"@);
    assert(how_to_report_text(h) == t13);
    assert(occurs(how_to_report_text(h), "When finished, first produce and validate the reported commit or durable artifact, then update SQ. Then "@));
    assert(occurs(how_to_report_text(h), "send an AgentMail message to "@ + h.orchestrator.slug + " with subject `"@ + report_title(h.task_id, h.run_id) + "`"@));
    assert(occurs(how_to_report_text(h), " and a JSON-only body matching:\n"@));
    assert(occurs(how_to_report_text(h), "{\"task_id\":\""@ + h.task_id + "\",\"run_id\":\""@ + h.run_id + "\","@));
    assert(occurs(how_to_report_text(h), "\"status\":\"completed|blocked|failed\",\"commit\":\"COMMIT_OR_NULL\",\"artifact\":\"ARTIFACT_OR_NULL\",\"evidence\":[\"COMMAND: RESULT\"],\"summary\":\"BLOCKER_OR_FAILURE_OR_NULL\"}\n"@));
    assert(occurs(how_to_report_text(h), "A completed report requires a commit or artifact and non-empty validation evidence. Blocked or failed reports require a non-empty summary. Pane exit alone is not completion.\n"@));
}

/// A handoff says nothing but its parts, each once.
pub proof fn handoffs_say_nothing_else(h: HandoffView)
    ensures
        handoff_text(h).len() == "You are the worker for an agent-orchestrator run.\n\n"@.len()
            + "Orchestrator: "@.len()
            + h.orchestrator.name.len()
            + " ("@.len()
            + h.orchestrator.slug.len()
            + ")"@.len()
            + "\n"@.len()
            + "Worker: "@.len()
            + h.worker.name.len()
            + " ("@.len()
            + h.worker.slug.len()
            + ")"@.len()
            + "\n"@.len()
            + "Run ID: "@.len()
            + h.run_id.len()
            + "\n"@.len()
            + "Task ID: "@.len()
            + h.task_id.len()
            + "\n"@.len()
            + "Task: "@.len()
            + h.title.len()
            + "\n"@.len()
            + "Description: "@.len()
            + h.description.len()
            + "\n"@.len()
            + "Canonical SQ queue: "@.len()
            + h.queue.len()
            + "\n"@.len()
            + "Worktree: "@.len()
            + h.worktree.len()
            + "\n"@.len()
            + "Branch: "@.len()
            + h.branch.len()
            + "\n"@.len()
            + "Dependencies: "@.len()
            + listed(h.dependencies).len()
            + "\n\n"@.len()
            + "Acceptance criteria:\n"@.len()
            + numbered_list(h.acceptance_criteria).len()
            + "\n\n"@.len()
            + "Validation expectations:\n"@.len()
            + numbered_list(h.validation_checks).len()
            + "\n\n"@.len()
            + "Update only task "@.len()
            + h.task_id.len()
            + " in the canonical SQ queue. "@.len()
            + "Do not take ownership of other tasks, merge branches, delete worktrees, or silently retry failed work. "@.len()
            + "Send decisions and blockers to "@.len()
            + h.orchestrator.slug.len()
            + " with AgentMail.\n\n"@.len()
            + "When finished, first produce and validate the reported commit or durable artifact, then update SQ. Then "@.len()
            + "send an AgentMail message to "@.len()
            + h.orchestrator.slug.len()
            + " with subject `"@.len()
            + report_title(h.task_id, h.run_id).len()
            + "`"@.len()
            + " and a JSON-only body matching:\n"@.len()
            + "{\"task_id\":\""@.len()
            + h.task_id.len()
            + "\",\"run_id\":\""@.len()
            + h.run_id.len()
            + "\","@.len()
            + "\"status\":\"completed|blocked|failed\",\"commit\":\"COMMIT_OR_NULL\",\"artifact\":\"ARTIFACT_OR_NULL\",\"evidence\":[\"COMMAND: RESULT\"],\"summary\":\"BLOCKER_OR_FAILURE_OR_NULL\"}\n"@.len()
            + "A completed report requires a commit or artifact and non-empty validation evidence. Blocked or failed reports require a non-empty summary. Pane exit alone is not completion.\n"@.len(),
        begins(handoff_text(h), "You are the worker for an agent-orchestrator run.\n\n"@),
{
    let first = "You are the worker for an agent-orchestrator run.\n\n"@;
    assert(handoff_text(h).take(first.len() as int) =~= first);
}

/// A numbered list gives every item its number, one line each; a list of nothing asks for a report
/// on what was done instead.
pub proof fn lists_number_their_items(values: Seq<Seq<char>>, more: Seq<char>)
    ensures
        values.len() > 0 ==> numbered_list(values.push(more)) == numbered_list(values) + "\n"@ + (
        decimal(values.len() + 1) + ". "@ + more),
        numbered_list(seq![more]) == decimal(1) + ". "@ + more,
        numbered_list(Seq::empty())
            == "1. None declared; report the focused command or scenario you used."@,
{
    let line = decimal(values.len() + 1) + ". "@ + more;
    assert(with_numbers(values.push(more)) =~= with_numbers(values).push(line));
    joining_one_more(with_numbers(values), line, "\n"@);
    let only = decimal(1) + ". "@ + more;
    assert(with_numbers(seq![more]) =~= seq![only]);
    joining_one_more(with_numbers(values), only, "\n"@);
}

/// A numbered list holds every item behind its number.
pub proof fn lists_hold_their_items(values: Seq<Seq<char>>, i: int)
    requires
        0 <= i < values.len(),
    ensures
        occurs(numbered_list(values), decimal((i + 1) as nat) + ". "@ + values[i]),
        occurs(listed(values), values[i]),
    decreases values.len(),
{
    broadcast use occurs_in_more;

    let before = values.drop_last();
    let last = values.last();
    assert(before.push(last) =~= values);
    lists_number_their_items(before, last);
    joining_one_more(before, last, ", "@);
    let line = decimal(values.len()) + ". "@ + last;
    if before.len() == 0 {
        assert(values =~= seq![last]);
        assert(line.skip(0) =~= line);
        end_occurs(line, line);
        assert(last.skip(0) =~= last);
        end_occurs(last, last);
    } else if i == before.len() {
        occurs_at_the_end(numbered_list(before) + "\n"@, line);
        occurs_at_the_end(listed(before) + ", "@, last);
    } else {
        lists_hold_their_items(before, i);
        assert(occurs(numbered_list(before) + "\n"@, decimal((i + 1) as nat) + ". "@ + values[i]));
        assert(occurs(listed(before) + ", "@, values[i]));
    }
}

/// Texts in a row stand in their order with commas between them; no texts are called none.
pub proof fn rows_keep_their_order(values: Seq<Seq<char>>, more: Seq<char>)
    ensures
        values.len() > 0 ==> listed(values.push(more)) == listed(values) + ", "@ + more,
        listed(seq![more]) == more,
        listed(Seq::empty()) == "none"@,
{
    joining_one_more(values, more, ", "@);
}

/// A handoff is sent from the orchestrator to the worker, answers come back to the orchestrator, and
/// subject and body are those of the handoff.
pub proof fn handoffs_go_to_the_worker(h: HandoffView, i: int)
    requires
        0 <= i < send_arguments(h).len(),
    ensures
        send_arguments(h)[0] == "send"@,
        send_arguments(h).contains("--to"@),
        send_arguments(h).contains("--from"@),
        send_arguments(h).contains("--reply-to"@),
        send_arguments(h).contains("--subject"@),
        send_arguments(h).contains("--body"@),
        send_arguments(h).last() == "--json"@,
        i % 2 == 1 && i + 1 < send_arguments(h).len() ==> {
            let option = send_arguments(h)[i];
            let value = send_arguments(h)[i + 1];
            &&& option == "--to"@ ==> value == h.worker.slug
            &&& option == "--from"@ ==> value == h.orchestrator.slug
            &&& option == "--reply-to"@ ==> value == h.orchestrator.slug
            &&& option == "--subject"@ ==> value == handoff_title(h.task_id, h.run_id)
            &&& option == "--body"@ ==> value == handoff_text(h)
        },
{
    reveal_strlit("--to");
    reveal_strlit("--from");
    reveal_strlit("--reply-to");
    reveal_strlit("--subject");
    reveal_strlit("--body");
    reveal_strlit("--json");
    assert("--to"@.len() == 4 && "--from"@.len() == 6 && "--reply-to"@.len() == 10);
    assert("--subject"@.len() == 9 && "--body"@.len() == 6 && "--json"@.len() == 6);
    assert("--from"@[2] == 'f' && "--body"@[2] == 'b' && "--json"@[2] == 'j');
    let a = send_arguments(h);
    assert(a[1] == "--to"@ && a[3] == "--from"@ && a[5] == "--reply-to"@);
    assert(a[7] == "--subject"@ && a[9] == "--body"@ && a[11] == "--json"@);
    if i % 2 == 1 && i + 1 < a.len() {
        assert(i == 1 || i == 3 || i == 5 || i == 7 || i == 9);
    }
}

/// A message is looked at without being marked as read, and marked as read by reading it; both
/// commands name the message and differ in nothing but that.
pub proof fn looking_is_no_reading(message_id: Seq<char>)
    ensures
        peek_arguments(message_id) == read_arguments(message_id).push("--peek"@),
        read_arguments(message_id) == seq!["read"@, message_id],
        !read_arguments(message_id).contains("--peek"@) || message_id == "--peek"@,
{
    reveal_strlit("--peek");
    reveal_strlit("read");
    assert("--peek"@.len() == 6 && "read"@.len() == 4);
    assert(peek_arguments(message_id) =~= read_arguments(message_id).push("--peek"@));
}

/// A message is marked as read exactly when its ID says something.
pub proof fn blank_messages_are_not_marked(message_id: Seq<char>)
    ensures
        mark_request(message_id) is Ok <==> says_something(message_id),
        mark_request(message_id) matches Ok(arguments) ==> arguments == read_arguments(message_id),
        mark_request(message_id) matches Err(e) ==> e == (ErrorView::InvalidMailHeader {
            reason: "cannot mark an empty message ID as read"@,
        }),
{
    assert(says_something(message_id) <==> !blank(message_id));
}

/// What a command wrote is taken exactly when it succeeded; the error tells the operation, and what
/// could not be started or with which status it failed.
pub proof fn mail_is_taken_where_commands_succeed(
    executable: Seq<char>,
    operation: Seq<char>,
    ran: Result<Finished, String>,
)
    ensures
        output_of(executable, operation, ran) is Ok <==> (ran matches Ok(o) && o.success),
        output_of(executable, operation, ran) matches Ok(bytes) ==> (ran matches Ok(o) && bytes
            == o.stdout@),
        ran matches Err(source) ==> output_of(executable, operation, ran) == Err::<
            Seq<u8>,
            ErrorView,
        >(ErrorView::Start { executable, operation, source: source@ }),
        ran matches Ok(o) ==> !o.success ==> (output_of(executable, operation, ran) matches Err(
            ErrorView::CommandFailed { operation: p, status, detail },
        ) && p == operation && status == o.status@),
{
}

// ---------------------------------------------------------------------------------------------
// Receipts

/// A receipt is accepted exactly when it has an ID and tells a delivery from the orchestrator, by
/// slug or by name, to the worker under the subject of the handoff.
pub proof fn receipts_tell_of_the_delivery(receipt: MailReceipt, h: HandoffView)
    ensures
        receipt_fault(receipt, h) is None <==> {
            &&& exists|k: int|
                0 <= k < receipt.id@.len() && !white_space(#[trigger] receipt.id@[k])
            &&& receipt.recipient@ == h.worker.slug
            &&& receipt.sender@ == h.orchestrator.slug || receipt.sender@ == h.orchestrator.name
            &&& receipt.subject@ == handoff_title(h.task_id, h.run_id)
            &&& receipt.state@ == "delivered"@
        },
        receipt_fault(receipt, h) matches Some(e) ==> e is InvalidReceipt,
{
}

/// A refused receipt is refused for what is wrong with it: the reason gives what was found and what
/// was expected.
pub proof fn refused_receipts_tell_why(receipt: MailReceipt, h: HandoffView)
    ensures
        receipt_fault(receipt, h) matches Some(ErrorView::InvalidReceipt { reason }) ==> {
            ||| reason == "missing non-empty `id`"@ && forall|k: int|
                0 <= k < receipt.id@.len() ==> white_space(#[trigger] receipt.id@[k])
            ||| begins(reason, "recipient `"@) && occurs(reason, receipt.recipient@) && occurs(
                reason,
                h.worker.slug,
            ) && receipt.recipient@ != h.worker.slug
            ||| begins(reason, "sender `"@) && occurs(reason, receipt.sender@) && occurs(
                reason,
                h.orchestrator.slug,
            ) && receipt.sender@ != h.orchestrator.slug
            ||| begins(reason, "subject `"@) && occurs(reason, receipt.subject@) && occurs(
                reason,
                handoff_title(h.task_id, h.run_id),
            ) && receipt.subject@ != handoff_title(h.task_id, h.run_id)
            ||| begins(reason, "state `"@) && occurs(reason, receipt.state@) && receipt.state@
                != "delivered"@
        },
{
    found_and_expected("recipient `"@, receipt.recipient@, h.worker.slug);
    found_and_expected("sender `"@, receipt.sender@, h.orchestrator.slug);
    found_and_expected("subject `"@, receipt.subject@, handoff_title(h.task_id, h.run_id));
    let state = "state `"@ + receipt.state@;
    assert((state + "`, expected `delivered`"@).take("state `"@.len() as int) =~= "state `"@);
    occurs_at_the_end("state `"@, receipt.state@);
    occurs_in_more(state, "`, expected `delivered`"@, receipt.state@);
}

/// A reason of the form that what was found is not what was expected gives both.
proof fn found_and_expected(what: Seq<char>, found: Seq<char>, expected: Seq<char>)
    ensures
        begins(what + found + "`, expected `"@ + expected + "`"@, what),
        occurs(what + found + "`, expected `"@ + expected + "`"@, found),
        occurs(what + found + "`, expected `"@ + expected + "`"@, expected),
{
    broadcast use {occurs_in_more, begin_stays};

    let to = what + found + "`, expected `"@;
    assert(what.take(what.len() as int) =~= what);
    assert(begins(what, what));
    assert(begins(what + found, what));
    assert(begins(to, what));
    assert(begins(to + expected, what));
    occurs_at_the_end(what, found);
    assert(occurs(to, found));
    assert(occurs(to + expected, found));
    occurs_at_the_end(to, expected);
}

// ---------------------------------------------------------------------------------------------
// Messages

/// A line gives a value to the header that stands before its first colon, in either case of the
/// letters: what follows the colon, without the white space around it, where anything is left.
pub proof fn lines_give_headers_their_values(
    header: Seq<char>,
    value: Seq<char>,
    name: Seq<char>,
)
    requires
        forall|i: int| 0 <= i < header.len() ==> #[trigger] header[i] != ':',
    ensures
        header_value(header.push(':') + value, name) is Some <==> same_ignoring_case(header, name)
            && trim(value).len() > 0,
        header_value(header.push(':') + value, name) matches Some(v) ==> v == trim(value),
        header_value(header, name) is None,
{
    let line = header.push(':') + value;
    let colon = seq![':'];
    let n = header.len() as int;
    find_is_first(line, colon, 0);
    assert(line.subrange(n, n + 1) =~= colon);
    assert(occurs_at(line, colon, n));
    match find_from(line, colon, 0) {
        Some(k) => {
            assert(line.subrange(k, k + 1)[0] == ':');
            assert(line[k] == ':');
            if k < n {
                assert(header[k] == ':');
            }
        },
        None => {},
    }
    assert(line.take(n) =~= header);
    assert(line.skip(n + 1) =~= value);
    find_is_first(header, colon, 0);
    match find_from(header, colon, 0) {
        Some(k) => {
            assert(header.subrange(k, k + 1)[0] == ':');
            assert(header[k] == ':');
        },
        None => {},
    }
}

/// The header of a message is what the first line that gives it a value gives it, before the first
/// line of white space alone.
pub proof fn headers_stand_before_the_first_blank_line(
    message_lines: Seq<Seq<char>>,
    name: Seq<char>,
    value: Seq<char>,
)
    ensures
        header_in(message_lines, name) == Some(value) <==> exists|i: int|
            #![trigger message_lines[i]]
            0 <= i < message_lines.len() && header_value(message_lines[i], name) == Some(value) && (
            forall|j: int|
                #![trigger message_lines[j]]
                0 <= j < i ==> header_value(message_lines[j], name) is None) && forall|j: int|
                #![trigger message_lines[j]]
                0 <= j <= i ==> !blank(message_lines[j]),
    decreases message_lines.len(),
{
    let all = message_lines;
    if all.len() > 0 && !blank(all[0]) {
        let rest = all.drop_first();
        headers_stand_before_the_first_blank_line(rest, name, value);
        if header_value(all[0], name) is None {
            if header_in(rest, name) == Some(value) {
                let i = choose|i: int|
                    #![trigger rest[i]]
                    0 <= i < rest.len() && header_value(rest[i], name) == Some(value) && (forall|
                        j: int,
                    |
                        #![trigger rest[j]]
                        0 <= j < i ==> header_value(rest[j], name) is None) && forall|j: int|
                        #![trigger rest[j]]
                        0 <= j <= i ==> !blank(rest[j]);
                assert(all[i + 1] == rest[i]);
                assert forall|j: int|
                    #![trigger all[j]]
                    0 <= j < i + 1 implies header_value(all[j], name) is None by {
                    if j > 0 {
                        assert(all[j] == rest[j - 1]);
                    }
                }
                assert forall|j: int|
                    #![trigger all[j]]
                    0 <= j <= i + 1 implies !blank(all[j]) by {
                    if j > 0 {
                        assert(all[j] == rest[j - 1]);
                    }
                }
            }
            assert forall|i: int|
                #![trigger all[i]]
                0 <= i < all.len() && header_value(all[i], name) == Some(value) && (forall|j: int|
                    #![trigger all[j]]
                    0 <= j < i ==> header_value(all[j], name) is None) && (forall|j: int|
                    #![trigger all[j]]
                    0 <= j <= i ==> !blank(all[j])) implies header_in(rest, name)
                == Some(value) by {
                assert(i > 0);
                assert(rest[i - 1] == all[i]);
                assert forall|j: int|
                    #![trigger rest[j]]
                    0 <= j < i - 1 implies header_value(rest[j], name) is None by {
                    assert(rest[j] == all[j + 1]);
                }
                assert forall|j: int|
                    #![trigger rest[j]]
                    0 <= j <= i - 1 implies !blank(rest[j]) by {
                    assert(rest[j] == all[j + 1]);
                }
            }
        } else {
            assert(all[0] == all[0]);
        }
    }
}

/// The body of a message is all that follows its first empty line, without the white space around
/// it; a message without an empty line is all body.
pub proof fn bodies_follow_the_first_empty_line(message: Seq<char>, n: int)
    requires
        occurs(message, "\r\n\r\n"@) ==> occurs_at(message, "\r\n\r\n"@, n) && forall|j: int|
            0 <= j < n ==> !#[trigger] occurs_at(message, "\r\n\r\n"@, j),
        !occurs(message, "\r\n\r\n"@) && occurs(message, "\n\n"@) ==> occurs_at(
            message,
            "\n\n"@,
            n,
        ) && forall|j: int| 0 <= j < n ==> !#[trigger] occurs_at(message, "\n\n"@, j),
    ensures
        occurs(message, "\r\n\r\n"@) ==> body_of(message) == trim(message.skip(n + 4)),
        !occurs(message, "\r\n\r\n"@) && occurs(message, "\n\n"@) ==> body_of(message) == trim(
            message.skip(n + 2),
        ),
        !occurs(message, "\r\n\r\n"@) && !occurs(message, "\n\n"@) ==> body_of(message) == trim(
            message,
        ),
{
    find_is_first(message, "\r\n\r\n"@, 0);
    find_is_first(message, "\n\n"@, 0);
}

/// A message is taken for the one that was announced exactly when its headers name the worker, by
/// slug or by name, and the subject, and name no other message.
pub proof fn messages_are_what_was_announced(
    message: Seq<char>,
    id: Seq<char>,
    worker: IdentityView,
    subject: Seq<char>,
)
    ensures
        header_fault(message, id, worker, subject) is None <==> {
            &&& header_in(lines(message), "From"@) == Some(worker.slug) || header_in(
                lines(message),
                "From"@,
            ) == Some(worker.name)
            &&& header_in(lines(message), "Subject"@) == Some(subject)
            &&& header_in(lines(message), "Message-ID"@) is None || header_in(
                lines(message),
                "Message-ID"@,
            ) == Some(id)
        },
        header_fault(message, id, worker, subject) matches Some(e) ==> e is InvalidMailHeader,
{
}

/// A refused message is refused for what is wrong with it: the reason names the missing header, or
/// gives what was found and what was expected.
pub proof fn refused_messages_tell_why(
    message: Seq<char>,
    id: Seq<char>,
    worker: IdentityView,
    subject: Seq<char>,
)
    ensures
        header_fault(message, id, worker, subject) matches Some(
            ErrorView::InvalidMailHeader { reason },
        ) ==> {
            let from = header_in(lines(message), "From"@);
            let about = header_in(lines(message), "Subject"@);
            let message_id = header_in(lines(message), "Message-ID"@);
            ||| reason == "message is missing `From`"@ && from is None
            ||| reason == "message is missing `Subject`"@ && about is None
            ||| from is Some && from != Some(worker.slug) && begins(reason, "sender `"@) && occurs(
                reason,
                from->0,
            ) && occurs(reason, worker.slug)
            ||| about is Some && about != Some(subject) && begins(reason, "subject `"@) && occurs(
                reason,
                about->0,
            ) && occurs(reason, subject)
            ||| message_id is Some && message_id != Some(id) && begins(reason, "message ID `"@)
                && occurs(reason, message_id->0) && occurs(reason, id)
        },
{
    found_and_expected("sender `"@, header_in(lines(message), "From"@)->0, worker.slug);
    found_and_expected("subject `"@, header_in(lines(message), "Subject"@)->0, subject);
    found_and_expected("message ID `"@, header_in(lines(message), "Message-ID"@)->0, id);
}

// ---------------------------------------------------------------------------------------------
// Reports

/// A message announces the report on a task of a run exactly when the worker sent it, by slug or by
/// name, under the subject of that report.
pub open spec fn from_worker_on(
    header: MailHeader,
    worker: IdentityView,
    task_id: Seq<char>,
    run_id: Seq<char>,
) -> bool {
    (header.sender@ == worker.slug || header.sender@ == worker.name) && header.subject@
        == report_title(task_id, run_id)
}

/// Where no message announces the report, none is read; where exactly one does, that one is, whatever
/// stands before and behind it, unless it has no ID; where more than one does, it is an error that
/// counts them.
pub proof fn the_only_announced_report_is_read(
    headers: Seq<MailHeader>,
    worker: IdentityView,
    task_id: Seq<char>,
    run_id: Seq<char>,
)
    ensures
        report_announced(headers, worker, task_id, run_id) == Ok::<Option<Seq<char>>, ErrorView>(
            None,
        ) <==> forall|i: int|
            0 <= i < headers.len() ==> !from_worker_on(
                #[trigger] headers[i],
                worker,
                task_id,
                run_id,
            ),
        forall|i: int|
            0 <= i < headers.len() && from_worker_on(#[trigger] headers[i], worker, task_id, run_id)
                && (forall|j: int|
                0 <= j < headers.len() && j != i ==> !from_worker_on(
                    #[trigger] headers[j],
                    worker,
                    task_id,
                    run_id,
                )) ==> report_announced(headers, worker, task_id, run_id) == (if says_something(headers[i].id@) {
                Ok::<Option<Seq<char>>, ErrorView>(Some(headers[i].id@))
            } else {
                Err(
                    ErrorView::InvalidMailHeader {
                        reason: "matching report has an empty message ID"@,
                    },
                )
            }),
        forall|i: int, j: int|
            0 <= i < j < headers.len() && from_worker_on(
                #[trigger] headers[i],
                worker,
                task_id,
                run_id,
            ) && from_worker_on(#[trigger] headers[j], worker, task_id, run_id)
                ==> report_announced(headers, worker, task_id, run_id) == Err::<
                Option<Seq<char>>,
                ErrorView,
            >(
                ErrorView::MultipleReports {
                    task_id,
                    run_id,
                    count: headers.filter(
                        |h: MailHeader| from_worker_on(h, worker, task_id, run_id),
                    ).len(),
                },
            ),
{
    announced_ids(headers, worker, task_id, run_id);
}

/// The IDs of the announced reports: none, that of the only one, or as many as there are.
proof fn announced_ids(
    headers: Seq<MailHeader>,
    worker: IdentityView,
    task_id: Seq<char>,
    run_id: Seq<char>,
)
    ensures
        ({
            let ids = reports_announced(headers, worker, task_id, run_id);
            &&& ids.len() == headers.filter(
                |h: MailHeader| from_worker_on(h, worker, task_id, run_id),
            ).len()
            &&& ids.len() == 0 <==> forall|i: int|
                0 <= i < headers.len() ==> !from_worker_on(
                    #[trigger] headers[i],
                    worker,
                    task_id,
                    run_id,
                )
            &&& forall|i: int|
                0 <= i < headers.len() && from_worker_on(
                    #[trigger] headers[i],
                    worker,
                    task_id,
                    run_id,
                ) && (forall|j: int|
                    0 <= j < headers.len() && j != i ==> !from_worker_on(
                        #[trigger] headers[j],
                        worker,
                        task_id,
                        run_id,
                    )) ==> ids == seq![headers[i].id@]
            &&& forall|i: int, j: int|
                0 <= i < j < headers.len() && from_worker_on(
                    #[trigger] headers[i],
                    worker,
                    task_id,
                    run_id,
                ) && from_worker_on(#[trigger] headers[j], worker, task_id, run_id) ==> ids.len()
                    >= 2
        }),
    decreases headers.len(),
{
    reveal(Seq::filter);
    if headers.len() > 0 {
        let rest = headers.drop_last();
        let n = rest.len() as int;
        announced_ids(rest, worker, task_id, run_id);
        let ids = reports_announced(headers, worker, task_id, run_id);
        let ids_before = reports_announced(rest, worker, task_id, run_id);
        assert(forall|i: int| 0 <= i < n ==> #[trigger] headers[i] == rest[i]);
        assert(forall|i: int| 0 <= i < n ==> #[trigger] rest[i] == headers[i]);
        assert(headers[n] == headers.last());
        assert forall|i: int|
            0 <= i < headers.len() && from_worker_on(#[trigger] headers[i], worker, task_id, run_id)
                && (forall|j: int|
                0 <= j < headers.len() && j != i ==> !from_worker_on(
                    #[trigger] headers[j],
                    worker,
                    task_id,
                    run_id,
                )) implies ids == seq![headers[i].id@] by {
            if i == n {
                assert(ids_before.len() == 0);
                assert(ids =~= seq![headers[i].id@]);
            } else {
                assert(!from_worker_on(headers[n], worker, task_id, run_id));
                assert(from_worker_on(rest[i], worker, task_id, run_id));
            }
        }
        assert forall|i: int, j: int|
            0 <= i < j < headers.len() && from_worker_on(
                #[trigger] headers[i],
                worker,
                task_id,
                run_id,
            ) && from_worker_on(#[trigger] headers[j], worker, task_id, run_id) implies ids.len()
            >= 2 by {
            assert(from_worker_on(rest[i], worker, task_id, run_id));
            if j < n {
                assert(from_worker_on(rest[j], worker, task_id, run_id));
            }
        }
    }
}

/// A report is accepted exactly when it is on the task and the run, and says what its status owes: a
/// completed one a commit or an artifact, or both, and evidence; any other one a summary. Texts of
/// white space alone say nothing.
pub proof fn complete_reports_are_accepted(
    report: ReportView,
    task_id: Seq<char>,
    run_id: Seq<char>,
)
    ensures
        report.fault(task_id, run_id) is None <==> {
            &&& report.task_id == task_id
            &&& report.run_id == run_id
            &&& report.status == ReportStatus::Completed ==> (says(report.commit) || says(
                report.artifact,
            )) && exists|i: int|
                0 <= i < report.evidence.len() && says_something(#[trigger] report.evidence[i])
            &&& report.status == ReportStatus::Blocked ==> says(report.summary)
            &&& report.status == ReportStatus::Failed ==> says(report.summary)
        },
        says(report.commit) && says(report.artifact) && report.status == ReportStatus::Completed
            && report.task_id == task_id && report.run_id == run_id && (exists|i: int|
            0 <= i < report.evidence.len() && says_something(#[trigger] report.evidence[i]))
            ==> report.fault(task_id, run_id) is None,
{
    if exists|i: int| 0 <= i < report.evidence.len() && says_something(#[trigger] report.evidence[i]) {
        let i = choose|i: int|
            0 <= i < report.evidence.len() && says_something(#[trigger] report.evidence[i]);
        assert(!blank(report.evidence[i]));
    }
    if some_written(report.evidence) {
        let i = choose|i: int|
            0 <= i < report.evidence.len() && !blank(#[trigger] report.evidence[i]);
        assert(says_something(report.evidence[i]));
    }
}

/// What an incomplete report is refused for: first that it belongs elsewhere, then that a completed
/// one names nothing that was made, then that it has no evidence; that any other has no summary.
pub proof fn incomplete_reports_are_refused_for_what_they_lack(
    report: ReportView,
    task_id: Seq<char>,
    run_id: Seq<char>,
)
    ensures
        report.fault(task_id, run_id) matches Some(e) ==> match e {
            ErrorView::ReportCorrelation {
                task_id: task,
                run_id: run,
                expected_task_id,
                expected_run_id,
            } => task == report.task_id && run == report.run_id && expected_task_id == task_id
                && expected_run_id == run_id && (task != task_id || run != run_id),
            ErrorView::CompletedWithoutDeliverable => report.task_id == task_id && report.run_id
                == run_id && report.status == ReportStatus::Completed && !says(report.commit)
                && !says(report.artifact),
            ErrorView::CompletedWithoutEvidence => report.task_id == task_id && report.run_id
                == run_id && report.status == ReportStatus::Completed && (says(report.commit)
                || says(report.artifact)) && forall|i: int|
                0 <= i < report.evidence.len() ==> !says_something(#[trigger] report.evidence[i]),
            ErrorView::TerminalReportWithoutSummary { status } => report.task_id == task_id
                && report.run_id == run_id && status == report.status && status
                != ReportStatus::Completed && !says(report.summary),
            _ => false,
        },
{
    complete_reports_are_accepted(report, task_id, run_id);
    if report.fault(task_id, run_id) == Some(ErrorView::CompletedWithoutEvidence) {
        assert forall|i: int| 0 <= i < report.evidence.len() implies !says_something(
            #[trigger] report.evidence[i],
        ) by {
            assert(blank(report.evidence[i]));
        }
    }
}

/// A report means for its task what it says: completed, blocked or failed. Where the queue disagrees
/// the error tells the task and what either says.
pub proof fn reports_mean_what_they_say(status: TaskStatus, report: ReportView)
    ensures
        match reconciled(status, report) {
            Ok(ReportDisposition::Completed) => report.status == ReportStatus::Completed,
            Ok(ReportDisposition::Blocked) => report.status == ReportStatus::Blocked,
            Ok(ReportDisposition::Failed) => report.status == ReportStatus::Failed,
            Err(e) => e == (ErrorView::SqStatusMismatch {
                task_id: report.task_id,
                report_status: report.status,
                sq_status: status,
            }),
        },
        reconciled(status, report) is Err <==> ((report.status == ReportStatus::Completed && status
            != TaskStatus::Closed) || (report.status != ReportStatus::Completed && status
            == TaskStatus::Closed)),
{
}

} // verus!
