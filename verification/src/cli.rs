//! The command line: what can be asked for, and what it comes to.
use vstd::prelude::*;
use crate::finish::{Error, ErrorView, FinishOptions, OptionsView};
use crate::outcome::{seen, shown};

verus! {

/// The seconds between two passes, unless they are given.
pub const DEFAULT_POLL_SECONDS: u64 = 5;

/// The seconds of a lease, unless they are given.
pub const DEFAULT_LEASE_SECONDS: u64 = 900;

/// A command line.
#[derive(Debug)]
pub struct Cli {
    pub command: Command,
}

/// What is asked for.
#[derive(Debug)]
pub enum Command {
    /// Print the manual for agents.
    Prime,
    /// Drive one root task to a reported terminal state.
    Finish(FinishArgs),
}

/// The arguments with which a root task is finished.
#[derive(Debug)]
pub struct FinishArgs {
    pub root_task_id: String,
    pub queue: Option<String>,
    pub model: Option<String>,
    pub repo: Option<String>,
    pub state_dir: Option<String>,
    pub worktree_root: Option<String>,
    pub once: bool,
    pub poll_seconds: u64,
    pub lease_seconds: u64,
}

/// The options that arguments come to: the repository is the current directory unless it is given.
pub open spec fn options_for(
    args: FinishArgs,
    current_directory: Result<Seq<char>, Seq<char>>,
) -> Result<OptionsView, ErrorView> {
    let repo = match shown(args.repo) {
        Some(repo) => Ok(repo),
        None => current_directory,
    };
    match repo {
        Err(source) => Err(ErrorView::CurrentDirectory { source }),
        Ok(repo) => Ok(
            OptionsView {
                root_task_id: args.root_task_id@,
                queue: shown(args.queue),
                model: shown(args.model),
                repo,
                state_dir: shown(args.state_dir),
                worktree_root: shown(args.worktree_root),
                once: args.once,
                poll_seconds: args.poll_seconds,
                lease_seconds: args.lease_seconds,
            },
        ),
    }
}

impl FinishArgs {
    /// The options that the arguments come to.
    pub fn into_options(self, current_directory: Result<String, String>) -> (r: Result<
        FinishOptions,
        Error,
    >)
        ensures
            seen(r) == options_for(self, seen(current_directory)),
    {
        let repo = match self.repo {
            Some(repo) => repo,
            None => match current_directory {
                Ok(directory) => directory,
                Err(source) => {
                    return Err(Error::CurrentDirectory { source });
                },
            },
        };
        Ok(
            FinishOptions {
                root_task_id: self.root_task_id,
                queue: self.queue,
                model: self.model,
                repo,
                state_dir: self.state_dir,
                worktree_root: self.worktree_root,
                once: self.once,
                poll_seconds: self.poll_seconds,
                lease_seconds: self.lease_seconds,
            },
        )
    }
}

} // verus!
