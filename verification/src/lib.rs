//! Drives one root task of an SQ queue, with everything that it depends on, to a reported end: each
//! ready task gets a worktree, a worker and a handoff, and each report is held against the queue.
//!
//! The library decides. What it decides on, the commands, files and clocks, is done by the program
//! around it, which hands the outcomes back.
pub mod text;
pub mod text_laws;
pub mod outcome;
pub mod table;
pub mod json;
pub mod graph;
pub mod paths;
pub mod hash;
pub mod command;
pub mod sq;
pub mod sq_laws;
pub mod drift;
pub mod identity;
pub mod identity_laws;
pub mod herdr;
pub mod herdr_laws;
pub mod mail;
pub mod mail_laws;
pub mod worktree;
pub mod worktree_laws;
pub mod runtime;
pub mod runtime_laws;
pub mod finish;
pub mod pass;
pub mod pass_laws;
pub mod step_laws;
pub mod run;
pub mod run_laws;
pub mod cli;
pub mod prime;
pub mod message_laws;
