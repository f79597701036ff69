# agent-orchestrator

`agent-orchestrator finish ROOT_TASK_ID` drives one root task of an SQ queue, with everything that
it depends on, to a reported end. Each ready task gets a branch, a Git worktree, a Herdr workspace
with an OMP worker, and an AgentMail handoff. A task is completed only when the queue holds it as
closed and a valid report names a deliverable that was checked.

- `src/` is the library, verified with Verus. It decides: it reads plans, judges replies and
  reports, plans worktrees, and goes from one step of a run to the next. It touches nothing.
- `app/` is the program around it. It runs the commands, reads and writes the files, and hands each
  outcome back.
- `tests/` runs the library, a whole run in memory among other things.

Where to start: `src/run.rs` is a run from its options to its output, `src/pass.rs` one pass over
it, and `src/pass_laws.rs` what holds of every pass. `src/graph.rs` and `src/sq.rs` say what a plan
is, `src/drift.rs` when one has changed, `src/runtime.rs` what is retained of a run,
`src/worktree.rs` what a branch is based on, and `src/mail.rs` which reports count.
