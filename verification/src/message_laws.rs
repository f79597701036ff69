//! What the messages for errors must tell.
use vstd::prelude::*;
use crate::finish::{self, owner_text};
use crate::text::{decimal, exit_text, joined, occurs};
use crate::text_laws::{end_occurs, occurs_in_more, pieces_occur};
use crate::{herdr, identity, mail, runtime, sq, worktree};

verus! {

/// The message for an error of the queue tells each part of it in its place.
pub proof fn errors_of_the_queue_tell_what_happened(e: sq::ErrorView)
    ensures
        match e {
            sq::ErrorView::ReadQueue { path, source } => {
                &&& occurs(e.message(), "cannot read SQ queue `"@ + path + "`: "@)
                &&& occurs(e.message(), "`: "@ + source)
            },
            sq::ErrorView::InvalidJson { path, line, source } => {
                &&& occurs(e.message(), "invalid JSON in SQ queue `"@ + path + "` at line "@)
                &&& occurs(e.message(), "` at line "@ + decimal(line) + ": "@)
                &&& occurs(e.message(), ": "@ + source)
            },
            sq::ErrorView::InvalidTask { line, reason } => {
                &&& occurs(e.message(), "invalid SQ task at line "@ + decimal(line) + ": "@)
                &&& occurs(e.message(), ": "@ + reason)
            },
            sq::ErrorView::DuplicateTask { task_id } => {
                &&& occurs(e.message(), "SQ queue contains duplicate task ID `"@ + task_id + "`"@)
            },
            sq::ErrorView::MissingRoot { task_id } => {
                &&& occurs(e.message(), "SQ root task `"@ + task_id + "` is missing"@)
            },
            sq::ErrorView::MissingBlocker { task_id, blocker_id } => {
                &&& occurs(e.message(), "SQ task `"@ + task_id + "` declares missing blocker `"@)
                &&& occurs(e.message(), "` declares missing blocker `"@ + blocker_id + "`"@)
            },
            sq::ErrorView::DependencyCycle { task_ids } => {
                &&& occurs(e.message(), "SQ dependency cycle: "@ + joined(task_ids, " -> "@))
            },
            sq::ErrorView::PlanDrift { root_task_id } => {
                &&& occurs(e.message(), "SQ plan drift for root task `"@ + root_task_id + "`"@)
            },
            sq::ErrorView::ForeignOwnership { task_id, owner_run_id, run_id } => {
                &&& occurs(
                    e.message(),
                    "SQ task `"@
                        + task_id
                        + "` is owned by foreign agent_orchestrator.run_id `"@,
                )
                &&& occurs(
                    e.message(),
                    "` is owned by foreign agent_orchestrator.run_id `"@
                        + owner_run_id
                        + "` (current run `"@,
                )
                &&& occurs(e.message(), "` (current run `"@ + run_id + "`)"@)
            },
            sq::ErrorView::UnownedInProgress { task_id } => {
                &&& occurs(
                    e.message(),
                    "SQ task `"@
                        + task_id
                        + "` is in_progress without agent_orchestrator.run_id ownership"@,
                )
            },
            sq::ErrorView::TaskOutsideScope { task_id, root_task_id } => {
                &&& occurs(e.message(), "SQ task `"@ + task_id + "` is outside root `"@)
                &&& occurs(
                    e.message(),
                    "` is outside root `"@
                        + root_task_id
                        + "` dependency scope"@,
                )
            },
            sq::ErrorView::TaskNotReady { task_id, status } => {
                &&& occurs(e.message(), "SQ task `"@ + task_id + "` is not ready (status: "@)
                &&& occurs(e.message(), "` is not ready (status: "@ + status.word() + ")"@)
            },
            sq::ErrorView::StartSq { executable, source } => {
                &&& occurs(
                    e.message(),
                    "cannot start configured SQ executable `"@
                        + executable
                        + "`: "@,
                )
                &&& occurs(e.message(), "`: "@ + source)
            },
            sq::ErrorView::SqFailed { executable, status, stderr } => {
                &&& occurs(
                    e.message(),
                    "configured SQ executable `"@
                        + executable
                        + "` failed with status "@,
                )
                &&& occurs(e.message(), "` failed with status "@ + exit_text(status) + ": "@)
                &&& occurs(e.message(), ": "@ + stderr)
            },
            sq::ErrorView::ClaimNotPersisted { task_id, expected_run_id, actual_status, actual_run_id } => {
                &&& occurs(
                    e.message(),
                    "SQ did not persist claim for task `"@
                        + task_id
                        + "`: expected status in_progress and run `"@,
                )
                &&& occurs(
                    e.message(),
                    "`: expected status in_progress and run `"@
                        + expected_run_id
                        + "`, got status "@,
                )
                &&& occurs(e.message(), "`, got status "@ + actual_status.word() + " and run "@)
                &&& occurs(
                    e.message(),
                    " and run "@
                        + (match actual_run_id { Some(id) => id, None => "<missing>"@, }),
                )
            },
        },
{
    broadcast use occurs_in_more;

    match e {
        sq::ErrorView::ReadQueue { path, source } => {
            let t0 = "cannot read SQ queue `"@;
            let t1 = t0 + path;
            let t2 = t1 + "`: "@;
            let t3 = t2 + source;
            assert(t2.skip(0) =~= t2);
            end_occurs(t2, t2);
            assert(occurs(t3, "cannot read SQ queue `"@ + path + "`: "@));
            pieces_occur(t1, "`: "@, source, ""@, ""@, ""@);
            assert(occurs(t3, "`: "@ + source));
        },
        sq::ErrorView::InvalidJson { path, line, source } => {
            let t0 = "invalid JSON in SQ queue `"@;
            let t1 = t0 + path;
            let t2 = t1 + "` at line "@;
            let t3 = t2 + decimal(line);
            let t4 = t3 + ": "@;
            let t5 = t4 + source;
            assert(t2.skip(0) =~= t2);
            end_occurs(t2, t2);
            assert(occurs(t5, "invalid JSON in SQ queue `"@ + path + "` at line "@));
            pieces_occur(t1, "` at line "@, decimal(line), ": "@, ""@, ""@);
            assert(occurs(t5, "` at line "@ + decimal(line) + ": "@));
            pieces_occur(t3, ": "@, source, ""@, ""@, ""@);
            assert(occurs(t5, ": "@ + source));
        },
        sq::ErrorView::InvalidTask { line, reason } => {
            let t0 = "invalid SQ task at line "@;
            let t1 = t0 + decimal(line);
            let t2 = t1 + ": "@;
            let t3 = t2 + reason;
            assert(t2.skip(0) =~= t2);
            end_occurs(t2, t2);
            assert(occurs(t3, "invalid SQ task at line "@ + decimal(line) + ": "@));
            pieces_occur(t1, ": "@, reason, ""@, ""@, ""@);
            assert(occurs(t3, ": "@ + reason));
        },
        sq::ErrorView::DuplicateTask { task_id } => {
            let t0 = "SQ queue contains duplicate task ID `"@;
            let t1 = t0 + task_id;
            let t2 = t1 + "`"@;
            assert(t2.skip(0) =~= t2);
            end_occurs(t2, t2);
            assert(occurs(t2, "SQ queue contains duplicate task ID `"@ + task_id + "`"@));
        },
        sq::ErrorView::MissingRoot { task_id } => {
            let t0 = "SQ root task `"@;
            let t1 = t0 + task_id;
            let t2 = t1 + "` is missing"@;
            assert(t2.skip(0) =~= t2);
            end_occurs(t2, t2);
            assert(occurs(t2, "SQ root task `"@ + task_id + "` is missing"@));
        },
        sq::ErrorView::MissingBlocker { task_id, blocker_id } => {
            let t0 = "SQ task `"@;
            let t1 = t0 + task_id;
            let t2 = t1 + "` declares missing blocker `"@;
            let t3 = t2 + blocker_id;
            let t4 = t3 + "`"@;
            assert(t2.skip(0) =~= t2);
            end_occurs(t2, t2);
            assert(occurs(t4, "SQ task `"@ + task_id + "` declares missing blocker `"@));
            pieces_occur(t1, "` declares missing blocker `"@, blocker_id, "`"@, ""@, ""@);
            assert(occurs(t4, "` declares missing blocker `"@ + blocker_id + "`"@));
        },
        sq::ErrorView::DependencyCycle { task_ids } => {
            let t0 = "SQ dependency cycle: "@;
            let t1 = t0 + joined(task_ids, " -> "@);
            assert(t1.skip(0) =~= t1);
            end_occurs(t1, t1);
            assert(occurs(t1, "SQ dependency cycle: "@ + joined(task_ids, " -> "@)));
        },
        sq::ErrorView::PlanDrift { root_task_id } => {
            let t0 = "SQ plan drift for root task `"@;
            let t1 = t0 + root_task_id;
            let t2 = t1 + "`"@;
            assert(t2.skip(0) =~= t2);
            end_occurs(t2, t2);
            assert(occurs(t2, "SQ plan drift for root task `"@ + root_task_id + "`"@));
        },
        sq::ErrorView::ForeignOwnership { task_id, owner_run_id, run_id } => {
            let t0 = "SQ task `"@;
            let t1 = t0 + task_id;
            let t2 = t1 + "` is owned by foreign agent_orchestrator.run_id `"@;
            let t3 = t2 + owner_run_id;
            let t4 = t3 + "` (current run `"@;
            let t5 = t4 + run_id;
            let t6 = t5 + "`)"@;
            assert(t2.skip(0) =~= t2);
            end_occurs(t2, t2);
            assert(occurs(t6, "SQ task `"@ + task_id + "` is owned by foreign agent_orchestrator.run_id `"@));
            pieces_occur(t1, "` is owned by foreign agent_orchestrator.run_id `"@, owner_run_id, "` (current run `"@, ""@, ""@);
            assert(occurs(t6, "` is owned by foreign agent_orchestrator.run_id `"@ + owner_run_id + "` (current run `"@));
            pieces_occur(t3, "` (current run `"@, run_id, "`)"@, ""@, ""@);
            assert(occurs(t6, "` (current run `"@ + run_id + "`)"@));
        },
        sq::ErrorView::UnownedInProgress { task_id } => {
            let t0 = "SQ task `"@;
            let t1 = t0 + task_id;
            let t2 = t1 + "` is in_progress without agent_orchestrator.run_id ownership"@;
            assert(t2.skip(0) =~= t2);
            end_occurs(t2, t2);
            assert(occurs(t2, "SQ task `"@ + task_id + "` is in_progress without agent_orchestrator.run_id ownership"@));
        },
        sq::ErrorView::TaskOutsideScope { task_id, root_task_id } => {
            let t0 = "SQ task `"@;
            let t1 = t0 + task_id;
            let t2 = t1 + "` is outside root `"@;
            let t3 = t2 + root_task_id;
            let t4 = t3 + "` dependency scope"@;
            assert(t2.skip(0) =~= t2);
            end_occurs(t2, t2);
            assert(occurs(t4, "SQ task `"@ + task_id + "` is outside root `"@));
            pieces_occur(t1, "` is outside root `"@, root_task_id, "` dependency scope"@, ""@, ""@);
            assert(occurs(t4, "` is outside root `"@ + root_task_id + "` dependency scope"@));
        },
        sq::ErrorView::TaskNotReady { task_id, status } => {
            let t0 = "SQ task `"@;
            let t1 = t0 + task_id;
            let t2 = t1 + "` is not ready (status: "@;
            let t3 = t2 + status.word();
            let t4 = t3 + ")"@;
            assert(t2.skip(0) =~= t2);
            end_occurs(t2, t2);
            assert(occurs(t4, "SQ task `"@ + task_id + "` is not ready (status: "@));
            pieces_occur(t1, "` is not ready (status: "@, status.word(), ")"@, ""@, ""@);
            assert(occurs(t4, "` is not ready (status: "@ + status.word() + ")"@));
        },
        sq::ErrorView::StartSq { executable, source } => {
            let t0 = "cannot start configured SQ executable `"@;
            let t1 = t0 + executable;
            let t2 = t1 + "`: "@;
            let t3 = t2 + source;
            assert(t2.skip(0) =~= t2);
            end_occurs(t2, t2);
            assert(occurs(t3, "cannot start configured SQ executable `"@ + executable + "`: "@));
            pieces_occur(t1, "`: "@, source, ""@, ""@, ""@);
            assert(occurs(t3, "`: "@ + source));
        },
        sq::ErrorView::SqFailed { executable, status, stderr } => {
            let t0 = "configured SQ executable `"@;
            let t1 = t0 + executable;
            let t2 = t1 + "` failed with status "@;
            let t3 = t2 + exit_text(status);
            let t4 = t3 + ": "@;
            let t5 = t4 + stderr;
            assert(t2.skip(0) =~= t2);
            end_occurs(t2, t2);
            assert(occurs(t5, "configured SQ executable `"@ + executable + "` failed with status "@));
            pieces_occur(t1, "` failed with status "@, exit_text(status), ": "@, ""@, ""@);
            assert(occurs(t5, "` failed with status "@ + exit_text(status) + ": "@));
            pieces_occur(t3, ": "@, stderr, ""@, ""@, ""@);
            assert(occurs(t5, ": "@ + stderr));
        },
        sq::ErrorView::ClaimNotPersisted { task_id, expected_run_id, actual_status, actual_run_id } => {
            let t0 = "SQ did not persist claim for task `"@;
            let t1 = t0 + task_id;
            let t2 = t1 + "`: expected status in_progress and run `"@;
            let t3 = t2 + expected_run_id;
            let t4 = t3 + "`, got status "@;
            let t5 = t4 + actual_status.word();
            let t6 = t5 + " and run "@;
            let t7 = t6 + (match actual_run_id { Some(id) => id, None => "<missing>"@, });
            assert(t2.skip(0) =~= t2);
            end_occurs(t2, t2);
            assert(occurs(t7, "SQ did not persist claim for task `"@ + task_id + "`: expected status in_progress and run `"@));
            pieces_occur(t1, "`: expected status in_progress and run `"@, expected_run_id, "`, got status "@, ""@, ""@);
            assert(occurs(t7, "`: expected status in_progress and run `"@ + expected_run_id + "`, got status "@));
            pieces_occur(t3, "`, got status "@, actual_status.word(), " and run "@, ""@, ""@);
            assert(occurs(t7, "`, got status "@ + actual_status.word() + " and run "@));
            pieces_occur(t5, " and run "@, (match actual_run_id { Some(id) => id, None => "<missing>"@, }), ""@, ""@, ""@);
            assert(occurs(t7, " and run "@ + (match actual_run_id { Some(id) => id, None => "<missing>"@, })));
        },
    }
}

/// The message for an error of Herdr tells each part of it in its place.
pub proof fn errors_of_herdr_tell_what_happened(e: herdr::ErrorView)
    ensures
        match e {
            herdr::ErrorView::Start { executable, session, operation, source } => {
                &&& occurs(
                    e.message(),
                    "Herdr is required for `finish`: cannot start Herdr executable `"@
                        + executable
                        + "` for session `"@,
                )
                &&& occurs(e.message(), "` for session `"@ + session + "` while "@)
                &&& occurs(e.message(), "` while "@ + operation + ": "@)
                &&& occurs(e.message(), ": "@ + source)
            },
            herdr::ErrorView::SessionUnavailable { session, detail } => {
                &&& occurs(e.message(), "Herdr session `"@ + session + "` is unavailable: "@)
                &&& occurs(e.message(), "` is unavailable: "@ + detail)
            },
            herdr::ErrorView::CommandFailed { operation, status, detail } => {
                &&& occurs(e.message(), "Herdr failed while "@ + operation + " ("@)
                &&& occurs(e.message(), " ("@ + status + "): "@)
                &&& occurs(e.message(), "): "@ + detail)
            },
            herdr::ErrorView::InvalidJson { operation, source } => {
                &&& occurs(e.message(), "Herdr returned invalid JSON while "@ + operation + ": "@)
                &&& occurs(e.message(), ": "@ + source)
            },
            herdr::ErrorView::UnexpectedResponse { operation, detail } => {
                &&& occurs(
                    e.message(),
                    "Herdr returned an unexpected response while "@
                        + operation
                        + ": "@,
                )
                &&& occurs(e.message(), ": "@ + detail)
            },
            herdr::ErrorView::MissingHandoffReceipt => e.message()
                == "cannot prompt OMP worker before a durable AgentMail handoff receipt exists"@,
        },
{
    broadcast use occurs_in_more;

    match e {
        herdr::ErrorView::Start { executable, session, operation, source } => {
            let t0 = "Herdr is required for `finish`: cannot start Herdr executable `"@;
            let t1 = t0 + executable;
            let t2 = t1 + "` for session `"@;
            let t3 = t2 + session;
            let t4 = t3 + "` while "@;
            let t5 = t4 + operation;
            let t6 = t5 + ": "@;
            let t7 = t6 + source;
            assert(t2.skip(0) =~= t2);
            end_occurs(t2, t2);
            assert(occurs(t7, "Herdr is required for `finish`: cannot start Herdr executable `"@ + executable + "` for session `"@));
            pieces_occur(t1, "` for session `"@, session, "` while "@, ""@, ""@);
            assert(occurs(t7, "` for session `"@ + session + "` while "@));
            pieces_occur(t3, "` while "@, operation, ": "@, ""@, ""@);
            assert(occurs(t7, "` while "@ + operation + ": "@));
            pieces_occur(t5, ": "@, source, ""@, ""@, ""@);
            assert(occurs(t7, ": "@ + source));
        },
        herdr::ErrorView::SessionUnavailable { session, detail } => {
            let t0 = "Herdr session `"@;
            let t1 = t0 + session;
            let t2 = t1 + "` is unavailable: "@;
            let t3 = t2 + detail;
            assert(t2.skip(0) =~= t2);
            end_occurs(t2, t2);
            assert(occurs(t3, "Herdr session `"@ + session + "` is unavailable: "@));
            pieces_occur(t1, "` is unavailable: "@, detail, ""@, ""@, ""@);
            assert(occurs(t3, "` is unavailable: "@ + detail));
        },
        herdr::ErrorView::CommandFailed { operation, status, detail } => {
            let t0 = "Herdr failed while "@;
            let t1 = t0 + operation;
            let t2 = t1 + " ("@;
            let t3 = t2 + status;
            let t4 = t3 + "): "@;
            let t5 = t4 + detail;
            assert(t2.skip(0) =~= t2);
            end_occurs(t2, t2);
            assert(occurs(t5, "Herdr failed while "@ + operation + " ("@));
            pieces_occur(t1, " ("@, status, "): "@, ""@, ""@);
            assert(occurs(t5, " ("@ + status + "): "@));
            pieces_occur(t3, "): "@, detail, ""@, ""@, ""@);
            assert(occurs(t5, "): "@ + detail));
        },
        herdr::ErrorView::InvalidJson { operation, source } => {
            let t0 = "Herdr returned invalid JSON while "@;
            let t1 = t0 + operation;
            let t2 = t1 + ": "@;
            let t3 = t2 + source;
            assert(t2.skip(0) =~= t2);
            end_occurs(t2, t2);
            assert(occurs(t3, "Herdr returned invalid JSON while "@ + operation + ": "@));
            pieces_occur(t1, ": "@, source, ""@, ""@, ""@);
            assert(occurs(t3, ": "@ + source));
        },
        herdr::ErrorView::UnexpectedResponse { operation, detail } => {
            let t0 = "Herdr returned an unexpected response while "@;
            let t1 = t0 + operation;
            let t2 = t1 + ": "@;
            let t3 = t2 + detail;
            assert(t2.skip(0) =~= t2);
            end_occurs(t2, t2);
            assert(occurs(t3, "Herdr returned an unexpected response while "@ + operation + ": "@));
            pieces_occur(t1, ": "@, detail, ""@, ""@, ""@);
            assert(occurs(t3, ": "@ + detail));
        },
        herdr::ErrorView::MissingHandoffReceipt => {},
    }
}

/// The message for an error of an identity tells each part of it in its place.
pub proof fn errors_of_identities_tell_what_happened(e: identity::ErrorView)
    ensures
        match e {
            identity::ErrorView::Start { executable, source } => {
                &&& occurs(e.message(), "cannot start Agent ID executable `"@ + executable + "`: "@)
                &&& occurs(e.message(), "`: "@ + source)
            },
            identity::ErrorView::CommandFailed { detail } => {
                &&& occurs(e.message(), "Agent ID command failed: "@ + detail)
            },
            identity::ErrorView::InvalidJson { output, source } => {
                &&& occurs(
                    e.message(),
                    "Agent ID returned invalid identity JSON: "@
                        + output
                        + ": "@,
                )
                &&& occurs(e.message(), ": "@ + source)
            },
            identity::ErrorView::IncompleteIdentity => e.message() == "Agent ID returned an incomplete identity"@,
            identity::ErrorView::MissingOmpRegistration { name } => {
                &&& occurs(
                    e.message(),
                    "Agent ID identity "@
                        + name
                        + " was not automatically registered by OMP: missing `extensions.omp`"@,
                )
            },
            identity::ErrorView::WorkerNotFound { worktree } => {
                &&& occurs(
                    e.message(),
                    "Agent ID did not discover an OMP worker registered for "@
                        + worktree
                        + ": found none"@,
                )
            },
            identity::ErrorView::MultipleWorkers { worktree, slugs } => {
                &&& occurs(
                    e.message(),
                    "Agent ID discovered multiple OMP workers for "@
                        + worktree
                        + ": "@,
                )
                &&& occurs(e.message(), ": "@ + joined(slugs, ", "@))
            },
        },
{
    broadcast use occurs_in_more;

    match e {
        identity::ErrorView::Start { executable, source } => {
            let t0 = "cannot start Agent ID executable `"@;
            let t1 = t0 + executable;
            let t2 = t1 + "`: "@;
            let t3 = t2 + source;
            assert(t2.skip(0) =~= t2);
            end_occurs(t2, t2);
            assert(occurs(t3, "cannot start Agent ID executable `"@ + executable + "`: "@));
            pieces_occur(t1, "`: "@, source, ""@, ""@, ""@);
            assert(occurs(t3, "`: "@ + source));
        },
        identity::ErrorView::CommandFailed { detail } => {
            let t0 = "Agent ID command failed: "@;
            let t1 = t0 + detail;
            assert(t1.skip(0) =~= t1);
            end_occurs(t1, t1);
            assert(occurs(t1, "Agent ID command failed: "@ + detail));
        },
        identity::ErrorView::InvalidJson { output, source } => {
            let t0 = "Agent ID returned invalid identity JSON: "@;
            let t1 = t0 + output;
            let t2 = t1 + ": "@;
            let t3 = t2 + source;
            assert(t2.skip(0) =~= t2);
            end_occurs(t2, t2);
            assert(occurs(t3, "Agent ID returned invalid identity JSON: "@ + output + ": "@));
            pieces_occur(t1, ": "@, source, ""@, ""@, ""@);
            assert(occurs(t3, ": "@ + source));
        },
        identity::ErrorView::IncompleteIdentity => {},
        identity::ErrorView::MissingOmpRegistration { name } => {
            let t0 = "Agent ID identity "@;
            let t1 = t0 + name;
            let t2 = t1 + " was not automatically registered by OMP: missing `extensions.omp`"@;
            assert(t2.skip(0) =~= t2);
            end_occurs(t2, t2);
            assert(occurs(t2, "Agent ID identity "@ + name + " was not automatically registered by OMP: missing `extensions.omp`"@));
        },
        identity::ErrorView::WorkerNotFound { worktree } => {
            let t0 = "Agent ID did not discover an OMP worker registered for "@;
            let t1 = t0 + worktree;
            let t2 = t1 + ": found none"@;
            assert(t2.skip(0) =~= t2);
            end_occurs(t2, t2);
            assert(occurs(t2, "Agent ID did not discover an OMP worker registered for "@ + worktree + ": found none"@));
        },
        identity::ErrorView::MultipleWorkers { worktree, slugs } => {
            let t0 = "Agent ID discovered multiple OMP workers for "@;
            let t1 = t0 + worktree;
            let t2 = t1 + ": "@;
            let t3 = t2 + joined(slugs, ", "@);
            assert(t2.skip(0) =~= t2);
            end_occurs(t2, t2);
            assert(occurs(t3, "Agent ID discovered multiple OMP workers for "@ + worktree + ": "@));
            pieces_occur(t1, ": "@, joined(slugs, ", "@), ""@, ""@, ""@);
            assert(occurs(t3, ": "@ + joined(slugs, ", "@)));
        },
    }
}

/// The message for an error of the mail tells each part of it in its place.
pub proof fn errors_of_mail_tell_what_happened(e: mail::ErrorView)
    ensures
        match e {
            mail::ErrorView::Start { executable, operation, source } => {
                &&& occurs(
                    e.message(),
                    "cannot start AgentMail executable `"@
                        + executable
                        + "` while "@,
                )
                &&& occurs(e.message(), "` while "@ + operation + ": "@)
                &&& occurs(e.message(), ": "@ + source)
            },
            mail::ErrorView::CommandFailed { operation, status, detail } => {
                &&& occurs(e.message(), "AgentMail failed while "@ + operation + " ("@)
                &&& occurs(e.message(), " ("@ + status + "): "@)
                &&& occurs(e.message(), "): "@ + detail)
            },
            mail::ErrorView::InvalidJson { operation, output, source } => {
                &&& occurs(
                    e.message(),
                    "AgentMail returned invalid JSON while "@
                        + operation
                        + ": "@,
                )
                &&& occurs(e.message(), ": "@ + output)
            },
            mail::ErrorView::InvalidUtf8 { operation, source } => {
                &&& occurs(e.message(), "AgentMail returned non-UTF-8 output while "@ + operation)
            },
            mail::ErrorView::InvalidReceipt { reason } => {
                &&& occurs(e.message(), "AgentMail returned an invalid handoff receipt: "@ + reason)
            },
            mail::ErrorView::InvalidMailHeader { reason } => {
                &&& occurs(e.message(), "AgentMail returned an invalid report envelope: "@ + reason)
            },
            mail::ErrorView::MultipleReports { task_id, run_id, count } => {
                &&& occurs(
                    e.message(),
                    "multiple unread AgentMail reports match task `"@
                        + task_id
                        + "` run `"@,
                )
                &&& occurs(e.message(), "` run `"@ + run_id + "`: found "@)
                &&& occurs(e.message(), "`: found "@ + decimal(count))
            },
            mail::ErrorView::InvalidReportJson { message_id, source } => {
                &&& occurs(
                    e.message(),
                    "AgentMail report `"@
                        + message_id
                        + "` body is not valid report JSON"@,
                )
            },
            mail::ErrorView::ReportCorrelation { task_id, run_id, expected_task_id, expected_run_id } => {
                &&& occurs(e.message(), "worker report belongs to task `"@ + task_id + "` run `"@)
                &&& occurs(e.message(), "` run `"@ + run_id + "`, expected task `"@)
                &&& occurs(e.message(), "`, expected task `"@ + expected_task_id + "` run `"@)
                &&& occurs(e.message(), "` run `"@ + expected_run_id + "`"@)
            },
            mail::ErrorView::CompletedWithoutDeliverable => e.message() == "completed worker report must include a commit or artifact"@,
            mail::ErrorView::CompletedWithoutEvidence => e.message() == "completed worker report must include non-empty validation evidence"@,
            mail::ErrorView::TerminalReportWithoutSummary { status } => {
                &&& occurs(
                    e.message(),
                    status.title()
                        + " worker report must include a non-empty summary"@,
                )
            },
            mail::ErrorView::SqStatusMismatch { task_id, report_status, sq_status } => {
                &&& occurs(e.message(), "worker reported task `"@ + task_id + "` "@)
                &&& occurs(e.message(), "` "@ + report_status.title() + " but SQ status is `"@)
                &&& occurs(e.message(), " but SQ status is `"@ + sq_status.word() + "`"@)
            },
        },
{
    broadcast use occurs_in_more;

    match e {
        mail::ErrorView::Start { executable, operation, source } => {
            let t0 = "cannot start AgentMail executable `"@;
            let t1 = t0 + executable;
            let t2 = t1 + "` while "@;
            let t3 = t2 + operation;
            let t4 = t3 + ": "@;
            let t5 = t4 + source;
            assert(t2.skip(0) =~= t2);
            end_occurs(t2, t2);
            assert(occurs(t5, "cannot start AgentMail executable `"@ + executable + "` while "@));
            pieces_occur(t1, "` while "@, operation, ": "@, ""@, ""@);
            assert(occurs(t5, "` while "@ + operation + ": "@));
            pieces_occur(t3, ": "@, source, ""@, ""@, ""@);
            assert(occurs(t5, ": "@ + source));
        },
        mail::ErrorView::CommandFailed { operation, status, detail } => {
            let t0 = "AgentMail failed while "@;
            let t1 = t0 + operation;
            let t2 = t1 + " ("@;
            let t3 = t2 + status;
            let t4 = t3 + "): "@;
            let t5 = t4 + detail;
            assert(t2.skip(0) =~= t2);
            end_occurs(t2, t2);
            assert(occurs(t5, "AgentMail failed while "@ + operation + " ("@));
            pieces_occur(t1, " ("@, status, "): "@, ""@, ""@);
            assert(occurs(t5, " ("@ + status + "): "@));
            pieces_occur(t3, "): "@, detail, ""@, ""@, ""@);
            assert(occurs(t5, "): "@ + detail));
        },
        mail::ErrorView::InvalidJson { operation, output, source } => {
            let t0 = "AgentMail returned invalid JSON while "@;
            let t1 = t0 + operation;
            let t2 = t1 + ": "@;
            let t3 = t2 + output;
            assert(t2.skip(0) =~= t2);
            end_occurs(t2, t2);
            assert(occurs(t3, "AgentMail returned invalid JSON while "@ + operation + ": "@));
            pieces_occur(t1, ": "@, output, ""@, ""@, ""@);
            assert(occurs(t3, ": "@ + output));
        },
        mail::ErrorView::InvalidUtf8 { operation, source } => {
            let t0 = "AgentMail returned non-UTF-8 output while "@;
            let t1 = t0 + operation;
            assert(t1.skip(0) =~= t1);
            end_occurs(t1, t1);
            assert(occurs(t1, "AgentMail returned non-UTF-8 output while "@ + operation));
        },
        mail::ErrorView::InvalidReceipt { reason } => {
            let t0 = "AgentMail returned an invalid handoff receipt: "@;
            let t1 = t0 + reason;
            assert(t1.skip(0) =~= t1);
            end_occurs(t1, t1);
            assert(occurs(t1, "AgentMail returned an invalid handoff receipt: "@ + reason));
        },
        mail::ErrorView::InvalidMailHeader { reason } => {
            let t0 = "AgentMail returned an invalid report envelope: "@;
            let t1 = t0 + reason;
            assert(t1.skip(0) =~= t1);
            end_occurs(t1, t1);
            assert(occurs(t1, "AgentMail returned an invalid report envelope: "@ + reason));
        },
        mail::ErrorView::MultipleReports { task_id, run_id, count } => {
            let t0 = "multiple unread AgentMail reports match task `"@;
            let t1 = t0 + task_id;
            let t2 = t1 + "` run `"@;
            let t3 = t2 + run_id;
            let t4 = t3 + "`: found "@;
            let t5 = t4 + decimal(count);
            assert(t2.skip(0) =~= t2);
            end_occurs(t2, t2);
            assert(occurs(t5, "multiple unread AgentMail reports match task `"@ + task_id + "` run `"@));
            pieces_occur(t1, "` run `"@, run_id, "`: found "@, ""@, ""@);
            assert(occurs(t5, "` run `"@ + run_id + "`: found "@));
            pieces_occur(t3, "`: found "@, decimal(count), ""@, ""@, ""@);
            assert(occurs(t5, "`: found "@ + decimal(count)));
        },
        mail::ErrorView::InvalidReportJson { message_id, source } => {
            let t0 = "AgentMail report `"@;
            let t1 = t0 + message_id;
            let t2 = t1 + "` body is not valid report JSON"@;
            assert(t2.skip(0) =~= t2);
            end_occurs(t2, t2);
            assert(occurs(t2, "AgentMail report `"@ + message_id + "` body is not valid report JSON"@));
        },
        mail::ErrorView::ReportCorrelation { task_id, run_id, expected_task_id, expected_run_id } => {
            let t0 = "worker report belongs to task `"@;
            let t1 = t0 + task_id;
            let t2 = t1 + "` run `"@;
            let t3 = t2 + run_id;
            let t4 = t3 + "`, expected task `"@;
            let t5 = t4 + expected_task_id;
            let t6 = t5 + "` run `"@;
            let t7 = t6 + expected_run_id;
            let t8 = t7 + "`"@;
            assert(t2.skip(0) =~= t2);
            end_occurs(t2, t2);
            assert(occurs(t8, "worker report belongs to task `"@ + task_id + "` run `"@));
            pieces_occur(t1, "` run `"@, run_id, "`, expected task `"@, ""@, ""@);
            assert(occurs(t8, "` run `"@ + run_id + "`, expected task `"@));
            pieces_occur(t3, "`, expected task `"@, expected_task_id, "` run `"@, ""@, ""@);
            assert(occurs(t8, "`, expected task `"@ + expected_task_id + "` run `"@));
            pieces_occur(t5, "` run `"@, expected_run_id, "`"@, ""@, ""@);
            assert(occurs(t8, "` run `"@ + expected_run_id + "`"@));
        },
        mail::ErrorView::CompletedWithoutDeliverable => {},
        mail::ErrorView::CompletedWithoutEvidence => {},
        mail::ErrorView::TerminalReportWithoutSummary { status } => {
            let t0 = status.title();
            let t1 = t0 + " worker report must include a non-empty summary"@;
            assert(t1.skip(0) =~= t1);
            end_occurs(t1, t1);
            assert(occurs(t1, status.title() + " worker report must include a non-empty summary"@));
        },
        mail::ErrorView::SqStatusMismatch { task_id, report_status, sq_status } => {
            let t0 = "worker reported task `"@;
            let t1 = t0 + task_id;
            let t2 = t1 + "` "@;
            let t3 = t2 + report_status.title();
            let t4 = t3 + " but SQ status is `"@;
            let t5 = t4 + sq_status.word();
            let t6 = t5 + "`"@;
            assert(t2.skip(0) =~= t2);
            end_occurs(t2, t2);
            assert(occurs(t6, "worker reported task `"@ + task_id + "` "@));
            pieces_occur(t1, "` "@, report_status.title(), " but SQ status is `"@, ""@, ""@);
            assert(occurs(t6, "` "@ + report_status.title() + " but SQ status is `"@));
            pieces_occur(t3, " but SQ status is `"@, sq_status.word(), "`"@, ""@, ""@);
            assert(occurs(t6, " but SQ status is `"@ + sq_status.word() + "`"@));
        },
    }
}

/// The message for an error of a worktree tells each part of it in its place.
pub proof fn errors_of_worktrees_tell_what_happened(e: worktree::ErrorView)
    ensures
        match e {
            worktree::ErrorView::Sq(error) => e.message() == error.message(),
            worktree::ErrorView::TaskOutsideScope { task_id, root_task_id } => {
                &&& occurs(e.message(), "task `"@ + task_id + "` is outside root `"@)
                &&& occurs(e.message(), "` is outside root `"@ + root_task_id + "` scope"@)
            },
            worktree::ErrorView::TaskNotReady { task_id, status } => {
                &&& occurs(
                    e.message(),
                    "cannot plan worktree for task `"@
                        + task_id
                        + "` with status `"@,
                )
                &&& occurs(e.message(), "` with status `"@ + status.word() + "`"@)
            },
            worktree::ErrorView::BlockerNotClosed { task_id, blocker_id, status } => {
                &&& occurs(e.message(), "cannot base task `"@ + task_id + "` on blocker `"@)
                &&& occurs(e.message(), "` on blocker `"@ + blocker_id + "` with status `"@)
                &&& occurs(e.message(), "` with status `"@ + status.word() + "`"@)
            },
            worktree::ErrorView::InvalidRefComponent { kind, value } => {
                &&& occurs(e.message(), kind + " ID `"@)
                &&& occurs(e.message(), " ID `"@ + value + "` is not safe in a Git branch"@)
            },
            worktree::ErrorView::InvalidPathComponent { value } => {
                &&& occurs(e.message(), "task ID `"@ + value + "` is not safe in a worktree path"@)
            },
            worktree::ErrorView::InvalidRepositoryPath { path } => {
                &&& occurs(e.message(), "repository path `"@ + path + "` has no file name"@)
            },
            worktree::ErrorView::WorktreeExists { path } => {
                &&& occurs(e.message(), "worker worktree `"@ + path + "` already exists"@)
            },
            worktree::ErrorView::MissingWorktree { path } => {
                &&& occurs(e.message(), "retained worker worktree `"@ + path + "` is missing"@)
            },
            worktree::ErrorView::BranchExists { branch } => {
                &&& occurs(e.message(), "worker branch `"@ + branch + "` already exists"@)
            },
            worktree::ErrorView::MissingBranch { branch } => {
                &&& occurs(e.message(), "required worker branch `"@ + branch + "` is missing"@)
            },
            worktree::ErrorView::AmbiguousBlockerBranches { task_id, branches } => {
                &&& occurs(
                    e.message(),
                    "task `"@
                        + task_id
                        + "` has no unique descendant blocker branch among "@,
                )
                &&& occurs(
                    e.message(),
                    "` has no unique descendant blocker branch among "@
                        + joined(branches, ", "@),
                )
            },
            worktree::ErrorView::WorktreeBranchMismatch { path, expected, actual } => {
                &&& occurs(e.message(), "retained worktree `"@ + path + "` is on branch `"@)
                &&& occurs(e.message(), "` is on branch `"@ + actual + "`, expected `"@)
                &&& occurs(e.message(), "`, expected `"@ + expected + "`"@)
            },
            worktree::ErrorView::CommitOutsideBranch { commit, branch } => {
                &&& occurs(
                    e.message(),
                    "reported commit `"@
                        + commit
                        + "` is not reachable from worker branch `"@,
                )
                &&& occurs(e.message(), "` is not reachable from worker branch `"@ + branch + "`"@)
            },
            worktree::ErrorView::MissingArtifact { path } => {
                &&& occurs(e.message(), "reported artifact `"@ + path + "` does not exist"@)
            },
            worktree::ErrorView::Start { executable, operation, source } => {
                &&& occurs(e.message(), "cannot start Git executable `"@ + executable + "` while "@)
                &&& occurs(e.message(), "` while "@ + operation + ": "@)
                &&& occurs(e.message(), ": "@ + source)
            },
            worktree::ErrorView::CommandFailed { operation, status, detail } => {
                &&& occurs(e.message(), "Git failed while "@ + operation + " ("@)
                &&& occurs(e.message(), " ("@ + status + "): "@)
                &&& occurs(e.message(), "): "@ + detail)
            },
            worktree::ErrorView::EmptyOutput { operation } => {
                &&& occurs(e.message(), "Git returned empty output while "@ + operation)
            },
            worktree::ErrorView::Canonicalize { path, source } => {
                &&& occurs(e.message(), "cannot canonicalize `"@ + path + "`: "@)
                &&& occurs(e.message(), "`: "@ + source)
            },
            worktree::ErrorView::QueueInsideWorktree { queue, worktree } => {
                &&& occurs(
                    e.message(),
                    "canonical queue `"@
                        + queue
                        + "` must be outside worker worktree `"@,
                )
                &&& occurs(e.message(), "` must be outside worker worktree `"@ + worktree + "`"@)
            },
            worktree::ErrorView::QueueLinkExists { path } => {
                &&& occurs(
                    e.message(),
                    "refusing to replace existing worker queue path `"@
                        + path
                        + "`"@,
                )
            },
            worktree::ErrorView::CreateQueueLinkDirectory { path, source } => {
                &&& occurs(e.message(), "cannot create worker queue directory `"@ + path + "`: "@)
                &&& occurs(e.message(), "`: "@ + source)
            },
            worktree::ErrorView::CreateQueueLink { path, target, source } => {
                &&& occurs(e.message(), "cannot create queue symlink `"@ + path + "` -> `"@)
                &&& occurs(e.message(), "` -> `"@ + target + "`: "@)
                &&& occurs(e.message(), "`: "@ + source)
            },
            worktree::ErrorView::RemoveQueueCopy { path, source } => {
                &&& occurs(e.message(), "cannot replace worker queue copy `"@ + path + "`: "@)
                &&& occurs(e.message(), "`: "@ + source)
            },
            worktree::ErrorView::ReadQueueLink { path, source } => {
                &&& occurs(e.message(), "cannot read retained queue symlink `"@ + path + "`: "@)
                &&& occurs(e.message(), "`: "@ + source)
            },
            worktree::ErrorView::RelativeQueueLink { path, target } => {
                &&& occurs(
                    e.message(),
                    "retained queue symlink `"@
                        + path
                        + "` has relative target `"@,
                )
                &&& occurs(e.message(), "` has relative target `"@ + target + "`"@)
            },
            worktree::ErrorView::QueueLinkMismatch { path, expected, actual } => {
                &&& occurs(e.message(), "retained queue symlink `"@ + path + "` targets `"@)
                &&& occurs(e.message(), "` targets `"@ + actual + "`, expected `"@)
                &&& occurs(e.message(), "`, expected `"@ + expected + "`"@)
            },
        },
{
    broadcast use occurs_in_more;

    match e {
        worktree::ErrorView::Sq(error) => {},
        worktree::ErrorView::TaskOutsideScope { task_id, root_task_id } => {
            let t0 = "task `"@;
            let t1 = t0 + task_id;
            let t2 = t1 + "` is outside root `"@;
            let t3 = t2 + root_task_id;
            let t4 = t3 + "` scope"@;
            assert(t2.skip(0) =~= t2);
            end_occurs(t2, t2);
            assert(occurs(t4, "task `"@ + task_id + "` is outside root `"@));
            pieces_occur(t1, "` is outside root `"@, root_task_id, "` scope"@, ""@, ""@);
            assert(occurs(t4, "` is outside root `"@ + root_task_id + "` scope"@));
        },
        worktree::ErrorView::TaskNotReady { task_id, status } => {
            let t0 = "cannot plan worktree for task `"@;
            let t1 = t0 + task_id;
            let t2 = t1 + "` with status `"@;
            let t3 = t2 + status.word();
            let t4 = t3 + "`"@;
            assert(t2.skip(0) =~= t2);
            end_occurs(t2, t2);
            assert(occurs(t4, "cannot plan worktree for task `"@ + task_id + "` with status `"@));
            pieces_occur(t1, "` with status `"@, status.word(), "`"@, ""@, ""@);
            assert(occurs(t4, "` with status `"@ + status.word() + "`"@));
        },
        worktree::ErrorView::BlockerNotClosed { task_id, blocker_id, status } => {
            let t0 = "cannot base task `"@;
            let t1 = t0 + task_id;
            let t2 = t1 + "` on blocker `"@;
            let t3 = t2 + blocker_id;
            let t4 = t3 + "` with status `"@;
            let t5 = t4 + status.word();
            let t6 = t5 + "`"@;
            assert(t2.skip(0) =~= t2);
            end_occurs(t2, t2);
            assert(occurs(t6, "cannot base task `"@ + task_id + "` on blocker `"@));
            pieces_occur(t1, "` on blocker `"@, blocker_id, "` with status `"@, ""@, ""@);
            assert(occurs(t6, "` on blocker `"@ + blocker_id + "` with status `"@));
            pieces_occur(t3, "` with status `"@, status.word(), "`"@, ""@, ""@);
            assert(occurs(t6, "` with status `"@ + status.word() + "`"@));
        },
        worktree::ErrorView::InvalidRefComponent { kind, value } => {
            let t0 = kind;
            let t1 = t0 + " ID `"@;
            let t2 = t1 + value;
            let t3 = t2 + "` is not safe in a Git branch"@;
            assert(t1.skip(0) =~= t1);
            end_occurs(t1, t1);
            assert(occurs(t3, kind + " ID `"@));
            pieces_occur(t0, " ID `"@, value, "` is not safe in a Git branch"@, ""@, ""@);
            assert(occurs(t3, " ID `"@ + value + "` is not safe in a Git branch"@));
        },
        worktree::ErrorView::InvalidPathComponent { value } => {
            let t0 = "task ID `"@;
            let t1 = t0 + value;
            let t2 = t1 + "` is not safe in a worktree path"@;
            assert(t2.skip(0) =~= t2);
            end_occurs(t2, t2);
            assert(occurs(t2, "task ID `"@ + value + "` is not safe in a worktree path"@));
        },
        worktree::ErrorView::InvalidRepositoryPath { path } => {
            let t0 = "repository path `"@;
            let t1 = t0 + path;
            let t2 = t1 + "` has no file name"@;
            assert(t2.skip(0) =~= t2);
            end_occurs(t2, t2);
            assert(occurs(t2, "repository path `"@ + path + "` has no file name"@));
        },
        worktree::ErrorView::WorktreeExists { path } => {
            let t0 = "worker worktree `"@;
            let t1 = t0 + path;
            let t2 = t1 + "` already exists"@;
            assert(t2.skip(0) =~= t2);
            end_occurs(t2, t2);
            assert(occurs(t2, "worker worktree `"@ + path + "` already exists"@));
        },
        worktree::ErrorView::MissingWorktree { path } => {
            let t0 = "retained worker worktree `"@;
            let t1 = t0 + path;
            let t2 = t1 + "` is missing"@;
            assert(t2.skip(0) =~= t2);
            end_occurs(t2, t2);
            assert(occurs(t2, "retained worker worktree `"@ + path + "` is missing"@));
        },
        worktree::ErrorView::BranchExists { branch } => {
            let t0 = "worker branch `"@;
            let t1 = t0 + branch;
            let t2 = t1 + "` already exists"@;
            assert(t2.skip(0) =~= t2);
            end_occurs(t2, t2);
            assert(occurs(t2, "worker branch `"@ + branch + "` already exists"@));
        },
        worktree::ErrorView::MissingBranch { branch } => {
            let t0 = "required worker branch `"@;
            let t1 = t0 + branch;
            let t2 = t1 + "` is missing"@;
            assert(t2.skip(0) =~= t2);
            end_occurs(t2, t2);
            assert(occurs(t2, "required worker branch `"@ + branch + "` is missing"@));
        },
        worktree::ErrorView::AmbiguousBlockerBranches { task_id, branches } => {
            let t0 = "task `"@;
            let t1 = t0 + task_id;
            let t2 = t1 + "` has no unique descendant blocker branch among "@;
            let t3 = t2 + joined(branches, ", "@);
            assert(t2.skip(0) =~= t2);
            end_occurs(t2, t2);
            assert(occurs(t3, "task `"@ + task_id + "` has no unique descendant blocker branch among "@));
            pieces_occur(t1, "` has no unique descendant blocker branch among "@, joined(branches, ", "@), ""@, ""@, ""@);
            assert(occurs(t3, "` has no unique descendant blocker branch among "@ + joined(branches, ", "@)));
        },
        worktree::ErrorView::WorktreeBranchMismatch { path, expected, actual } => {
            let t0 = "retained worktree `"@;
            let t1 = t0 + path;
            let t2 = t1 + "` is on branch `"@;
            let t3 = t2 + actual;
            let t4 = t3 + "`, expected `"@;
            let t5 = t4 + expected;
            let t6 = t5 + "`"@;
            assert(t2.skip(0) =~= t2);
            end_occurs(t2, t2);
            assert(occurs(t6, "retained worktree `"@ + path + "` is on branch `"@));
            pieces_occur(t1, "` is on branch `"@, actual, "`, expected `"@, ""@, ""@);
            assert(occurs(t6, "` is on branch `"@ + actual + "`, expected `"@));
            pieces_occur(t3, "`, expected `"@, expected, "`"@, ""@, ""@);
            assert(occurs(t6, "`, expected `"@ + expected + "`"@));
        },
        worktree::ErrorView::CommitOutsideBranch { commit, branch } => {
            let t0 = "reported commit `"@;
            let t1 = t0 + commit;
            let t2 = t1 + "` is not reachable from worker branch `"@;
            let t3 = t2 + branch;
            let t4 = t3 + "`"@;
            assert(t2.skip(0) =~= t2);
            end_occurs(t2, t2);
            assert(occurs(t4, "reported commit `"@ + commit + "` is not reachable from worker branch `"@));
            pieces_occur(t1, "` is not reachable from worker branch `"@, branch, "`"@, ""@, ""@);
            assert(occurs(t4, "` is not reachable from worker branch `"@ + branch + "`"@));
        },
        worktree::ErrorView::MissingArtifact { path } => {
            let t0 = "reported artifact `"@;
            let t1 = t0 + path;
            let t2 = t1 + "` does not exist"@;
            assert(t2.skip(0) =~= t2);
            end_occurs(t2, t2);
            assert(occurs(t2, "reported artifact `"@ + path + "` does not exist"@));
        },
        worktree::ErrorView::Start { executable, operation, source } => {
            let t0 = "cannot start Git executable `"@;
            let t1 = t0 + executable;
            let t2 = t1 + "` while "@;
            let t3 = t2 + operation;
            let t4 = t3 + ": "@;
            let t5 = t4 + source;
            assert(t2.skip(0) =~= t2);
            end_occurs(t2, t2);
            assert(occurs(t5, "cannot start Git executable `"@ + executable + "` while "@));
            pieces_occur(t1, "` while "@, operation, ": "@, ""@, ""@);
            assert(occurs(t5, "` while "@ + operation + ": "@));
            pieces_occur(t3, ": "@, source, ""@, ""@, ""@);
            assert(occurs(t5, ": "@ + source));
        },
        worktree::ErrorView::CommandFailed { operation, status, detail } => {
            let t0 = "Git failed while "@;
            let t1 = t0 + operation;
            let t2 = t1 + " ("@;
            let t3 = t2 + status;
            let t4 = t3 + "): "@;
            let t5 = t4 + detail;
            assert(t2.skip(0) =~= t2);
            end_occurs(t2, t2);
            assert(occurs(t5, "Git failed while "@ + operation + " ("@));
            pieces_occur(t1, " ("@, status, "): "@, ""@, ""@);
            assert(occurs(t5, " ("@ + status + "): "@));
            pieces_occur(t3, "): "@, detail, ""@, ""@, ""@);
            assert(occurs(t5, "): "@ + detail));
        },
        worktree::ErrorView::EmptyOutput { operation } => {
            let t0 = "Git returned empty output while "@;
            let t1 = t0 + operation;
            assert(t1.skip(0) =~= t1);
            end_occurs(t1, t1);
            assert(occurs(t1, "Git returned empty output while "@ + operation));
        },
        worktree::ErrorView::Canonicalize { path, source } => {
            let t0 = "cannot canonicalize `"@;
            let t1 = t0 + path;
            let t2 = t1 + "`: "@;
            let t3 = t2 + source;
            assert(t2.skip(0) =~= t2);
            end_occurs(t2, t2);
            assert(occurs(t3, "cannot canonicalize `"@ + path + "`: "@));
            pieces_occur(t1, "`: "@, source, ""@, ""@, ""@);
            assert(occurs(t3, "`: "@ + source));
        },
        worktree::ErrorView::QueueInsideWorktree { queue, worktree } => {
            let t0 = "canonical queue `"@;
            let t1 = t0 + queue;
            let t2 = t1 + "` must be outside worker worktree `"@;
            let t3 = t2 + worktree;
            let t4 = t3 + "`"@;
            assert(t2.skip(0) =~= t2);
            end_occurs(t2, t2);
            assert(occurs(t4, "canonical queue `"@ + queue + "` must be outside worker worktree `"@));
            pieces_occur(t1, "` must be outside worker worktree `"@, worktree, "`"@, ""@, ""@);
            assert(occurs(t4, "` must be outside worker worktree `"@ + worktree + "`"@));
        },
        worktree::ErrorView::QueueLinkExists { path } => {
            let t0 = "refusing to replace existing worker queue path `"@;
            let t1 = t0 + path;
            let t2 = t1 + "`"@;
            assert(t2.skip(0) =~= t2);
            end_occurs(t2, t2);
            assert(occurs(t2, "refusing to replace existing worker queue path `"@ + path + "`"@));
        },
        worktree::ErrorView::CreateQueueLinkDirectory { path, source } => {
            let t0 = "cannot create worker queue directory `"@;
            let t1 = t0 + path;
            let t2 = t1 + "`: "@;
            let t3 = t2 + source;
            assert(t2.skip(0) =~= t2);
            end_occurs(t2, t2);
            assert(occurs(t3, "cannot create worker queue directory `"@ + path + "`: "@));
            pieces_occur(t1, "`: "@, source, ""@, ""@, ""@);
            assert(occurs(t3, "`: "@ + source));
        },
        worktree::ErrorView::CreateQueueLink { path, target, source } => {
            let t0 = "cannot create queue symlink `"@;
            let t1 = t0 + path;
            let t2 = t1 + "` -> `"@;
            let t3 = t2 + target;
            let t4 = t3 + "`: "@;
            let t5 = t4 + source;
            assert(t2.skip(0) =~= t2);
            end_occurs(t2, t2);
            assert(occurs(t5, "cannot create queue symlink `"@ + path + "` -> `"@));
            pieces_occur(t1, "` -> `"@, target, "`: "@, ""@, ""@);
            assert(occurs(t5, "` -> `"@ + target + "`: "@));
            pieces_occur(t3, "`: "@, source, ""@, ""@, ""@);
            assert(occurs(t5, "`: "@ + source));
        },
        worktree::ErrorView::RemoveQueueCopy { path, source } => {
            let t0 = "cannot replace worker queue copy `"@;
            let t1 = t0 + path;
            let t2 = t1 + "`: "@;
            let t3 = t2 + source;
            assert(t2.skip(0) =~= t2);
            end_occurs(t2, t2);
            assert(occurs(t3, "cannot replace worker queue copy `"@ + path + "`: "@));
            pieces_occur(t1, "`: "@, source, ""@, ""@, ""@);
            assert(occurs(t3, "`: "@ + source));
        },
        worktree::ErrorView::ReadQueueLink { path, source } => {
            let t0 = "cannot read retained queue symlink `"@;
            let t1 = t0 + path;
            let t2 = t1 + "`: "@;
            let t3 = t2 + source;
            assert(t2.skip(0) =~= t2);
            end_occurs(t2, t2);
            assert(occurs(t3, "cannot read retained queue symlink `"@ + path + "`: "@));
            pieces_occur(t1, "`: "@, source, ""@, ""@, ""@);
            assert(occurs(t3, "`: "@ + source));
        },
        worktree::ErrorView::RelativeQueueLink { path, target } => {
            let t0 = "retained queue symlink `"@;
            let t1 = t0 + path;
            let t2 = t1 + "` has relative target `"@;
            let t3 = t2 + target;
            let t4 = t3 + "`"@;
            assert(t2.skip(0) =~= t2);
            end_occurs(t2, t2);
            assert(occurs(t4, "retained queue symlink `"@ + path + "` has relative target `"@));
            pieces_occur(t1, "` has relative target `"@, target, "`"@, ""@, ""@);
            assert(occurs(t4, "` has relative target `"@ + target + "`"@));
        },
        worktree::ErrorView::QueueLinkMismatch { path, expected, actual } => {
            let t0 = "retained queue symlink `"@;
            let t1 = t0 + path;
            let t2 = t1 + "` targets `"@;
            let t3 = t2 + actual;
            let t4 = t3 + "`, expected `"@;
            let t5 = t4 + expected;
            let t6 = t5 + "`"@;
            assert(t2.skip(0) =~= t2);
            end_occurs(t2, t2);
            assert(occurs(t6, "retained queue symlink `"@ + path + "` targets `"@));
            pieces_occur(t1, "` targets `"@, actual, "`, expected `"@, ""@, ""@);
            assert(occurs(t6, "` targets `"@ + actual + "`, expected `"@));
            pieces_occur(t3, "`, expected `"@, expected, "`"@, ""@, ""@);
            assert(occurs(t6, "`, expected `"@ + expected + "`"@));
        },
    }
}

/// The message for an error of a ledger tells each part of it in its place.
pub proof fn errors_of_ledgers_tell_what_happened(e: runtime::ErrorView)
    ensures
        match e {
            runtime::ErrorView::InvalidStateComponent { value } => {
                &&& occurs(
                    e.message(),
                    "root task ID `"@
                        + value
                        + "` is not safe in a ledger path"@,
                )
            },
            runtime::ErrorView::CreateStateDirectory { path, source } => {
                &&& occurs(e.message(), "cannot create runtime state directory `"@ + path + "`: "@)
                &&& occurs(e.message(), "`: "@ + source)
            },
            runtime::ErrorView::OpenLock { path, source } => {
                &&& occurs(e.message(), "cannot open runtime ledger lock `"@ + path + "`: "@)
                &&& occurs(e.message(), "`: "@ + source)
            },
            runtime::ErrorView::LockBusy { path, source } => {
                &&& occurs(
                    e.message(),
                    "runtime ledger `"@
                        + path
                        + "` is locked by another finish process: "@,
                )
                &&& occurs(e.message(), "` is locked by another finish process: "@ + source)
            },
            runtime::ErrorView::ReadLedger { path, source } => {
                &&& occurs(e.message(), "cannot read runtime ledger `"@ + path + "`: "@)
                &&& occurs(e.message(), "`: "@ + source)
            },
            runtime::ErrorView::InvalidLedger { path, source } => {
                &&& occurs(e.message(), "runtime ledger `"@ + path + "` is invalid JSON: "@)
                &&& occurs(e.message(), "` is invalid JSON: "@ + source)
            },
            runtime::ErrorView::SerializeLedger { source } => {
                &&& occurs(e.message(), "cannot serialize runtime ledger: "@ + source)
            },
            runtime::ErrorView::WriteLedger { path, source } => {
                &&& occurs(e.message(), "cannot write runtime ledger `"@ + path + "`: "@)
                &&& occurs(e.message(), "`: "@ + source)
            },
            runtime::ErrorView::UnsupportedVersion { actual, expected } => {
                &&& occurs(
                    e.message(),
                    "runtime ledger version `"@
                        + decimal(actual as nat)
                        + "` is unsupported; expected `"@,
                )
                &&& occurs(
                    e.message(),
                    "` is unsupported; expected `"@
                        + decimal(expected as nat)
                        + "`"@,
                )
            },
            runtime::ErrorView::LedgerMismatch { field, expected, actual } => {
                &&& occurs(e.message(), "runtime ledger "@ + field + " `"@)
                &&& occurs(e.message(), " `"@ + actual + "` does not match requested `"@)
                &&& occurs(e.message(), "` does not match requested `"@ + expected + "`"@)
            },
            runtime::ErrorView::InterruptedProvisioning { task_id, stage } => {
                &&& occurs(
                    e.message(),
                    "task `"@
                        + task_id
                        + "` has interrupted provisioning at stage `"@,
                )
                &&& occurs(
                    e.message(),
                    "` has interrupted provisioning at stage `"@
                        + stage.title()
                        + "`; refusing a silent retry"@,
                )
            },
            runtime::ErrorView::WrongStage { task_id, expected, actual } => {
                &&& occurs(e.message(), "task `"@ + task_id + "` runtime stage is `"@)
                &&& occurs(e.message(), "` runtime stage is `"@ + actual.title() + "`, expected `"@)
                &&& occurs(e.message(), "`, expected `"@ + expected.title() + "`"@)
            },
            runtime::ErrorView::MissingHandle { task_id, field } => {
                &&& occurs(e.message(), "task `"@ + task_id + "` runtime is missing retained `"@)
                &&& occurs(e.message(), "` runtime is missing retained `"@ + field + "`"@)
            },
            runtime::ErrorView::HandleMismatch { task_id, detail } => {
                &&& occurs(e.message(), "task `"@ + task_id + "` retained handles disagree: "@)
                &&& occurs(e.message(), "` retained handles disagree: "@ + detail)
            },
            runtime::ErrorView::Clock { source } => {
                &&& occurs(e.message(), "system clock is before Unix epoch: "@ + source)
            },
        },
{
    broadcast use occurs_in_more;

    match e {
        runtime::ErrorView::InvalidStateComponent { value } => {
            let t0 = "root task ID `"@;
            let t1 = t0 + value;
            let t2 = t1 + "` is not safe in a ledger path"@;
            assert(t2.skip(0) =~= t2);
            end_occurs(t2, t2);
            assert(occurs(t2, "root task ID `"@ + value + "` is not safe in a ledger path"@));
        },
        runtime::ErrorView::CreateStateDirectory { path, source } => {
            let t0 = "cannot create runtime state directory `"@;
            let t1 = t0 + path;
            let t2 = t1 + "`: "@;
            let t3 = t2 + source;
            assert(t2.skip(0) =~= t2);
            end_occurs(t2, t2);
            assert(occurs(t3, "cannot create runtime state directory `"@ + path + "`: "@));
            pieces_occur(t1, "`: "@, source, ""@, ""@, ""@);
            assert(occurs(t3, "`: "@ + source));
        },
        runtime::ErrorView::OpenLock { path, source } => {
            let t0 = "cannot open runtime ledger lock `"@;
            let t1 = t0 + path;
            let t2 = t1 + "`: "@;
            let t3 = t2 + source;
            assert(t2.skip(0) =~= t2);
            end_occurs(t2, t2);
            assert(occurs(t3, "cannot open runtime ledger lock `"@ + path + "`: "@));
            pieces_occur(t1, "`: "@, source, ""@, ""@, ""@);
            assert(occurs(t3, "`: "@ + source));
        },
        runtime::ErrorView::LockBusy { path, source } => {
            let t0 = "runtime ledger `"@;
            let t1 = t0 + path;
            let t2 = t1 + "` is locked by another finish process: "@;
            let t3 = t2 + source;
            assert(t2.skip(0) =~= t2);
            end_occurs(t2, t2);
            assert(occurs(t3, "runtime ledger `"@ + path + "` is locked by another finish process: "@));
            pieces_occur(t1, "` is locked by another finish process: "@, source, ""@, ""@, ""@);
            assert(occurs(t3, "` is locked by another finish process: "@ + source));
        },
        runtime::ErrorView::ReadLedger { path, source } => {
            let t0 = "cannot read runtime ledger `"@;
            let t1 = t0 + path;
            let t2 = t1 + "`: "@;
            let t3 = t2 + source;
            assert(t2.skip(0) =~= t2);
            end_occurs(t2, t2);
            assert(occurs(t3, "cannot read runtime ledger `"@ + path + "`: "@));
            pieces_occur(t1, "`: "@, source, ""@, ""@, ""@);
            assert(occurs(t3, "`: "@ + source));
        },
        runtime::ErrorView::InvalidLedger { path, source } => {
            let t0 = "runtime ledger `"@;
            let t1 = t0 + path;
            let t2 = t1 + "` is invalid JSON: "@;
            let t3 = t2 + source;
            assert(t2.skip(0) =~= t2);
            end_occurs(t2, t2);
            assert(occurs(t3, "runtime ledger `"@ + path + "` is invalid JSON: "@));
            pieces_occur(t1, "` is invalid JSON: "@, source, ""@, ""@, ""@);
            assert(occurs(t3, "` is invalid JSON: "@ + source));
        },
        runtime::ErrorView::SerializeLedger { source } => {
            let t0 = "cannot serialize runtime ledger: "@;
            let t1 = t0 + source;
            assert(t1.skip(0) =~= t1);
            end_occurs(t1, t1);
            assert(occurs(t1, "cannot serialize runtime ledger: "@ + source));
        },
        runtime::ErrorView::WriteLedger { path, source } => {
            let t0 = "cannot write runtime ledger `"@;
            let t1 = t0 + path;
            let t2 = t1 + "`: "@;
            let t3 = t2 + source;
            assert(t2.skip(0) =~= t2);
            end_occurs(t2, t2);
            assert(occurs(t3, "cannot write runtime ledger `"@ + path + "`: "@));
            pieces_occur(t1, "`: "@, source, ""@, ""@, ""@);
            assert(occurs(t3, "`: "@ + source));
        },
        runtime::ErrorView::UnsupportedVersion { actual, expected } => {
            let t0 = "runtime ledger version `"@;
            let t1 = t0 + decimal(actual as nat);
            let t2 = t1 + "` is unsupported; expected `"@;
            let t3 = t2 + decimal(expected as nat);
            let t4 = t3 + "`"@;
            assert(t2.skip(0) =~= t2);
            end_occurs(t2, t2);
            assert(occurs(t4, "runtime ledger version `"@ + decimal(actual as nat) + "` is unsupported; expected `"@));
            pieces_occur(t1, "` is unsupported; expected `"@, decimal(expected as nat), "`"@, ""@, ""@);
            assert(occurs(t4, "` is unsupported; expected `"@ + decimal(expected as nat) + "`"@));
        },
        runtime::ErrorView::LedgerMismatch { field, expected, actual } => {
            let t0 = "runtime ledger "@;
            let t1 = t0 + field;
            let t2 = t1 + " `"@;
            let t3 = t2 + actual;
            let t4 = t3 + "` does not match requested `"@;
            let t5 = t4 + expected;
            let t6 = t5 + "`"@;
            assert(t2.skip(0) =~= t2);
            end_occurs(t2, t2);
            assert(occurs(t6, "runtime ledger "@ + field + " `"@));
            pieces_occur(t1, " `"@, actual, "` does not match requested `"@, ""@, ""@);
            assert(occurs(t6, " `"@ + actual + "` does not match requested `"@));
            pieces_occur(t3, "` does not match requested `"@, expected, "`"@, ""@, ""@);
            assert(occurs(t6, "` does not match requested `"@ + expected + "`"@));
        },
        runtime::ErrorView::InterruptedProvisioning { task_id, stage } => {
            let t0 = "task `"@;
            let t1 = t0 + task_id;
            let t2 = t1 + "` has interrupted provisioning at stage `"@;
            let t3 = t2 + stage.title();
            let t4 = t3 + "`; refusing a silent retry"@;
            assert(t2.skip(0) =~= t2);
            end_occurs(t2, t2);
            assert(occurs(t4, "task `"@ + task_id + "` has interrupted provisioning at stage `"@));
            pieces_occur(t1, "` has interrupted provisioning at stage `"@, stage.title(), "`; refusing a silent retry"@, ""@, ""@);
            assert(occurs(t4, "` has interrupted provisioning at stage `"@ + stage.title() + "`; refusing a silent retry"@));
        },
        runtime::ErrorView::WrongStage { task_id, expected, actual } => {
            let t0 = "task `"@;
            let t1 = t0 + task_id;
            let t2 = t1 + "` runtime stage is `"@;
            let t3 = t2 + actual.title();
            let t4 = t3 + "`, expected `"@;
            let t5 = t4 + expected.title();
            let t6 = t5 + "`"@;
            assert(t2.skip(0) =~= t2);
            end_occurs(t2, t2);
            assert(occurs(t6, "task `"@ + task_id + "` runtime stage is `"@));
            pieces_occur(t1, "` runtime stage is `"@, actual.title(), "`, expected `"@, ""@, ""@);
            assert(occurs(t6, "` runtime stage is `"@ + actual.title() + "`, expected `"@));
            pieces_occur(t3, "`, expected `"@, expected.title(), "`"@, ""@, ""@);
            assert(occurs(t6, "`, expected `"@ + expected.title() + "`"@));
        },
        runtime::ErrorView::MissingHandle { task_id, field } => {
            let t0 = "task `"@;
            let t1 = t0 + task_id;
            let t2 = t1 + "` runtime is missing retained `"@;
            let t3 = t2 + field;
            let t4 = t3 + "`"@;
            assert(t2.skip(0) =~= t2);
            end_occurs(t2, t2);
            assert(occurs(t4, "task `"@ + task_id + "` runtime is missing retained `"@));
            pieces_occur(t1, "` runtime is missing retained `"@, field, "`"@, ""@, ""@);
            assert(occurs(t4, "` runtime is missing retained `"@ + field + "`"@));
        },
        runtime::ErrorView::HandleMismatch { task_id, detail } => {
            let t0 = "task `"@;
            let t1 = t0 + task_id;
            let t2 = t1 + "` retained handles disagree: "@;
            let t3 = t2 + detail;
            assert(t2.skip(0) =~= t2);
            end_occurs(t2, t2);
            assert(occurs(t3, "task `"@ + task_id + "` retained handles disagree: "@));
            pieces_occur(t1, "` retained handles disagree: "@, detail, ""@, ""@, ""@);
            assert(occurs(t3, "` retained handles disagree: "@ + detail));
        },
        runtime::ErrorView::Clock { source } => {
            let t0 = "system clock is before Unix epoch: "@;
            let t1 = t0 + source;
            assert(t1.skip(0) =~= t1);
            end_occurs(t1, t1);
            assert(occurs(t1, "system clock is before Unix epoch: "@ + source));
        },
    }
}

/// The message for an error of a run tells each part of it in its place; one that it has from elsewhere
/// is told as it is there.
pub proof fn errors_of_runs_tell_what_happened(e: finish::ErrorView)
    ensures
        match e {
            finish::ErrorView::Sq(error) => e.message() == error.message(),
            finish::ErrorView::Herdr(error) => e.message() == error.message(),
            finish::ErrorView::Identity(error) => e.message() == error.message(),
            finish::ErrorView::Mail(error) => e.message() == error.message(),
            finish::ErrorView::Runtime(error) => e.message() == error.message(),
            finish::ErrorView::Worktree(error) => e.message() == error.message(),
            finish::ErrorView::InvalidInterval { option } => {
                &&& occurs(e.message(), option + " must be greater than zero"@)
            },
            finish::ErrorView::CurrentDirectory { source } => {
                &&& occurs(e.message(), "cannot determine current directory: "@ + source)
            },
            finish::ErrorView::Canonicalize { kind, path, source } => {
                &&& occurs(e.message(), "cannot canonicalize "@ + kind + " `"@)
                &&& occurs(e.message(), " `"@ + path + "`: "@)
                &&& occurs(e.message(), "`: "@ + source)
            },
            finish::ErrorView::CreateDirectory { kind, path, source } => {
                &&& occurs(e.message(), "cannot create "@ + kind + " `"@)
                &&& occurs(e.message(), " `"@ + path + "`: "@)
                &&& occurs(e.message(), "`: "@ + source)
            },
            finish::ErrorView::OrchestratorMismatch { expected, actual } => {
                &&& occurs(
                    e.message(),
                    "retained run belongs to orchestrator `"@
                        + expected
                        + "`, not `"@,
                )
                &&& occurs(e.message(), "`, not `"@ + actual + "`"@)
            },
            finish::ErrorView::UnownedInProgress { task_id } => {
                &&& occurs(
                    e.message(),
                    "SQ task `"@
                        + task_id
                        + "` is in_progress without agent_orchestrator.run_id ownership; refusing to steal it"@,
                )
            },
            finish::ErrorView::MissingRuntime { task_id, owner } => {
                &&& occurs(e.message(), "SQ task `"@ + task_id + "` is in_progress for run `"@)
                &&& occurs(
                    e.message(),
                    "` is in_progress for run `"@
                        + owner_text(owner)
                        + "` without a retained runtime; refusing interrupted provisioning"@,
                )
            },
            finish::ErrorView::CompletedRuntimeReopened { task_id } => {
                &&& occurs(
                    e.message(),
                    "completed runtime task `"@
                        + task_id
                        + "` is no longer closed in SQ"@,
                )
            },
            finish::ErrorView::RuntimeTaskReset { task_id } => {
                &&& occurs(
                    e.message(),
                    "retained runtime task `"@
                        + task_id
                        + "` was reset to pending; refusing to retry it"@,
                )
            },
            finish::ErrorView::LostWorker { task_id, detail } => {
                &&& occurs(e.message(), "worker for task `"@ + task_id + "` is lost: "@)
                &&& occurs(e.message(), "` is lost: "@ + detail)
            },
            finish::ErrorView::ReplacedWorker { task_id, expected, actual } => {
                &&& occurs(e.message(), "worker for task `"@ + task_id + "` changed from `"@)
                &&& occurs(e.message(), "` changed from `"@ + expected + "` to `"@)
                &&& occurs(e.message(), "` to `"@ + actual + "`; refusing replacement"@)
            },
            finish::ErrorView::LeaseExpired { task_id, deadline } => {
                &&& occurs(
                    e.message(),
                    "worker lease for task `"@
                        + task_id
                        + "` expired at Unix time "@,
                )
                &&& occurs(e.message(), "` expired at Unix time "@ + decimal(deadline as nat))
            },
            finish::ErrorView::SettledWithoutReport { task_id, status } => {
                &&& occurs(
                    e.message(),
                    "worker for task `"@
                        + task_id
                        + "` settled without a structured AgentMail report: its pane is `"@,
                )
                &&& occurs(
                    e.message(),
                    "` settled without a structured AgentMail report: its pane is `"@
                        + status.title()
                        + "`"@,
                )
            },
            finish::ErrorView::WorkerBlocked { task_id } => {
                &&& occurs(
                    e.message(),
                    "worker for task `"@
                        + task_id
                        + "` is blocked without a matching AgentMail report"@,
                )
            },
            finish::ErrorView::WorkerReported { task_id, status, summary } => {
                &&& occurs(e.message(), "worker reported task `"@ + task_id + "` "@)
                &&& occurs(e.message(), "` "@ + status.title() + ": "@)
                &&& occurs(e.message(), ": "@ + summary)
            },
            finish::ErrorView::RetainedTerminalReport { task_id, status } => {
                &&& occurs(e.message(), "retained worker report for task `"@ + task_id + "` is "@)
                &&& occurs(e.message(), "` is "@ + status.title() + "; refusing a silent retry"@)
            },
        },
{
    broadcast use occurs_in_more;

    match e {
        finish::ErrorView::Sq(error) => {},
        finish::ErrorView::Herdr(error) => {},
        finish::ErrorView::Identity(error) => {},
        finish::ErrorView::Mail(error) => {},
        finish::ErrorView::Runtime(error) => {},
        finish::ErrorView::Worktree(error) => {},
        finish::ErrorView::InvalidInterval { option } => {
            let t0 = option;
            let t1 = t0 + " must be greater than zero"@;
            assert(t1.skip(0) =~= t1);
            end_occurs(t1, t1);
            assert(occurs(t1, option + " must be greater than zero"@));
        },
        finish::ErrorView::CurrentDirectory { source } => {
            let t0 = "cannot determine current directory: "@;
            let t1 = t0 + source;
            assert(t1.skip(0) =~= t1);
            end_occurs(t1, t1);
            assert(occurs(t1, "cannot determine current directory: "@ + source));
        },
        finish::ErrorView::Canonicalize { kind, path, source } => {
            let t0 = "cannot canonicalize "@;
            let t1 = t0 + kind;
            let t2 = t1 + " `"@;
            let t3 = t2 + path;
            let t4 = t3 + "`: "@;
            let t5 = t4 + source;
            assert(t2.skip(0) =~= t2);
            end_occurs(t2, t2);
            assert(occurs(t5, "cannot canonicalize "@ + kind + " `"@));
            pieces_occur(t1, " `"@, path, "`: "@, ""@, ""@);
            assert(occurs(t5, " `"@ + path + "`: "@));
            pieces_occur(t3, "`: "@, source, ""@, ""@, ""@);
            assert(occurs(t5, "`: "@ + source));
        },
        finish::ErrorView::CreateDirectory { kind, path, source } => {
            let t0 = "cannot create "@;
            let t1 = t0 + kind;
            let t2 = t1 + " `"@;
            let t3 = t2 + path;
            let t4 = t3 + "`: "@;
            let t5 = t4 + source;
            assert(t2.skip(0) =~= t2);
            end_occurs(t2, t2);
            assert(occurs(t5, "cannot create "@ + kind + " `"@));
            pieces_occur(t1, " `"@, path, "`: "@, ""@, ""@);
            assert(occurs(t5, " `"@ + path + "`: "@));
            pieces_occur(t3, "`: "@, source, ""@, ""@, ""@);
            assert(occurs(t5, "`: "@ + source));
        },
        finish::ErrorView::OrchestratorMismatch { expected, actual } => {
            let t0 = "retained run belongs to orchestrator `"@;
            let t1 = t0 + expected;
            let t2 = t1 + "`, not `"@;
            let t3 = t2 + actual;
            let t4 = t3 + "`"@;
            assert(t2.skip(0) =~= t2);
            end_occurs(t2, t2);
            assert(occurs(t4, "retained run belongs to orchestrator `"@ + expected + "`, not `"@));
            pieces_occur(t1, "`, not `"@, actual, "`"@, ""@, ""@);
            assert(occurs(t4, "`, not `"@ + actual + "`"@));
        },
        finish::ErrorView::UnownedInProgress { task_id } => {
            let t0 = "SQ task `"@;
            let t1 = t0 + task_id;
            let t2 = t1 + "` is in_progress without agent_orchestrator.run_id ownership; refusing to steal it"@;
            assert(t2.skip(0) =~= t2);
            end_occurs(t2, t2);
            assert(occurs(t2, "SQ task `"@ + task_id + "` is in_progress without agent_orchestrator.run_id ownership; refusing to steal it"@));
        },
        finish::ErrorView::MissingRuntime { task_id, owner } => {
            let t0 = "SQ task `"@;
            let t1 = t0 + task_id;
            let t2 = t1 + "` is in_progress for run `"@;
            let t3 = t2 + owner_text(owner);
            let t4 = t3 + "` without a retained runtime; refusing interrupted provisioning"@;
            assert(t2.skip(0) =~= t2);
            end_occurs(t2, t2);
            assert(occurs(t4, "SQ task `"@ + task_id + "` is in_progress for run `"@));
            pieces_occur(t1, "` is in_progress for run `"@, owner_text(owner), "` without a retained runtime; refusing interrupted provisioning"@, ""@, ""@);
            assert(occurs(t4, "` is in_progress for run `"@ + owner_text(owner) + "` without a retained runtime; refusing interrupted provisioning"@));
        },
        finish::ErrorView::CompletedRuntimeReopened { task_id } => {
            let t0 = "completed runtime task `"@;
            let t1 = t0 + task_id;
            let t2 = t1 + "` is no longer closed in SQ"@;
            assert(t2.skip(0) =~= t2);
            end_occurs(t2, t2);
            assert(occurs(t2, "completed runtime task `"@ + task_id + "` is no longer closed in SQ"@));
        },
        finish::ErrorView::RuntimeTaskReset { task_id } => {
            let t0 = "retained runtime task `"@;
            let t1 = t0 + task_id;
            let t2 = t1 + "` was reset to pending; refusing to retry it"@;
            assert(t2.skip(0) =~= t2);
            end_occurs(t2, t2);
            assert(occurs(t2, "retained runtime task `"@ + task_id + "` was reset to pending; refusing to retry it"@));
        },
        finish::ErrorView::LostWorker { task_id, detail } => {
            let t0 = "worker for task `"@;
            let t1 = t0 + task_id;
            let t2 = t1 + "` is lost: "@;
            let t3 = t2 + detail;
            assert(t2.skip(0) =~= t2);
            end_occurs(t2, t2);
            assert(occurs(t3, "worker for task `"@ + task_id + "` is lost: "@));
            pieces_occur(t1, "` is lost: "@, detail, ""@, ""@, ""@);
            assert(occurs(t3, "` is lost: "@ + detail));
        },
        finish::ErrorView::ReplacedWorker { task_id, expected, actual } => {
            let t0 = "worker for task `"@;
            let t1 = t0 + task_id;
            let t2 = t1 + "` changed from `"@;
            let t3 = t2 + expected;
            let t4 = t3 + "` to `"@;
            let t5 = t4 + actual;
            let t6 = t5 + "`; refusing replacement"@;
            assert(t2.skip(0) =~= t2);
            end_occurs(t2, t2);
            assert(occurs(t6, "worker for task `"@ + task_id + "` changed from `"@));
            pieces_occur(t1, "` changed from `"@, expected, "` to `"@, ""@, ""@);
            assert(occurs(t6, "` changed from `"@ + expected + "` to `"@));
            pieces_occur(t3, "` to `"@, actual, "`; refusing replacement"@, ""@, ""@);
            assert(occurs(t6, "` to `"@ + actual + "`; refusing replacement"@));
        },
        finish::ErrorView::LeaseExpired { task_id, deadline } => {
            let t0 = "worker lease for task `"@;
            let t1 = t0 + task_id;
            let t2 = t1 + "` expired at Unix time "@;
            let t3 = t2 + decimal(deadline as nat);
            assert(t2.skip(0) =~= t2);
            end_occurs(t2, t2);
            assert(occurs(t3, "worker lease for task `"@ + task_id + "` expired at Unix time "@));
            pieces_occur(t1, "` expired at Unix time "@, decimal(deadline as nat), ""@, ""@, ""@);
            assert(occurs(t3, "` expired at Unix time "@ + decimal(deadline as nat)));
        },
        finish::ErrorView::SettledWithoutReport { task_id, status } => {
            let t0 = "worker for task `"@;
            let t1 = t0 + task_id;
            let t2 = t1 + "` settled without a structured AgentMail report: its pane is `"@;
            let t3 = t2 + status.title();
            let t4 = t3 + "`"@;
            assert(t2.skip(0) =~= t2);
            end_occurs(t2, t2);
            assert(occurs(t4, "worker for task `"@ + task_id + "` settled without a structured AgentMail report: its pane is `"@));
            pieces_occur(t1, "` settled without a structured AgentMail report: its pane is `"@, status.title(), "`"@, ""@, ""@);
            assert(occurs(t4, "` settled without a structured AgentMail report: its pane is `"@ + status.title() + "`"@));
        },
        finish::ErrorView::WorkerBlocked { task_id } => {
            let t0 = "worker for task `"@;
            let t1 = t0 + task_id;
            let t2 = t1 + "` is blocked without a matching AgentMail report"@;
            assert(t2.skip(0) =~= t2);
            end_occurs(t2, t2);
            assert(occurs(t2, "worker for task `"@ + task_id + "` is blocked without a matching AgentMail report"@));
        },
        finish::ErrorView::WorkerReported { task_id, status, summary } => {
            let t0 = "worker reported task `"@;
            let t1 = t0 + task_id;
            let t2 = t1 + "` "@;
            let t3 = t2 + status.title();
            let t4 = t3 + ": "@;
            let t5 = t4 + summary;
            assert(t2.skip(0) =~= t2);
            end_occurs(t2, t2);
            assert(occurs(t5, "worker reported task `"@ + task_id + "` "@));
            pieces_occur(t1, "` "@, status.title(), ": "@, ""@, ""@);
            assert(occurs(t5, "` "@ + status.title() + ": "@));
            pieces_occur(t3, ": "@, summary, ""@, ""@, ""@);
            assert(occurs(t5, ": "@ + summary));
        },
        finish::ErrorView::RetainedTerminalReport { task_id, status } => {
            let t0 = "retained worker report for task `"@;
            let t1 = t0 + task_id;
            let t2 = t1 + "` is "@;
            let t3 = t2 + status.title();
            let t4 = t3 + "; refusing a silent retry"@;
            assert(t2.skip(0) =~= t2);
            end_occurs(t2, t2);
            assert(occurs(t4, "retained worker report for task `"@ + task_id + "` is "@));
            pieces_occur(t1, "` is "@, status.title(), "; refusing a silent retry"@, ""@, ""@);
            assert(occurs(t4, "` is "@ + status.title() + "; refusing a silent retry"@));
        },
    }
}

} // verus!
