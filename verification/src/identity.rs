//! Who the agents are: the identities that Agent ID knows, and which of them works in a worktree.
use vstd::prelude::*;
use crate::command::{failure_detail, failure_text, Finished};
use crate::json::{find_member, member, members_view, Member, MemberView};
use crate::outcome::{seen, shown};
use crate::text::{blank, is_blank, join, joined, same, texts, trim, trimmed};

verus! {

/// The state of an agent.
#[derive(Debug)]
pub struct IdentityState {
    pub value: String,
}

/// An agent that is registered with Agent ID.
#[derive(Debug)]
pub struct Identity {
    pub session_id: String,
    pub name: String,
    pub slug: String,
    pub cwd: String,
    pub state: Option<IdentityState>,
    pub extensions: Vec<Member>,
}

/// What an identity says.
pub struct IdentityView {
    pub session_id: Seq<char>,
    pub name: Seq<char>,
    pub slug: Seq<char>,
    pub cwd: Seq<char>,
    pub state: Option<Seq<char>>,
    pub extensions: Seq<MemberView>,
}

impl View for IdentityState {
    type V = Seq<char>;

    open spec fn view(&self) -> Seq<char> {
        self.value@
    }
}

impl View for Identity {
    type V = IdentityView;

    open spec fn view(&self) -> IdentityView {
        IdentityView {
            session_id: self.session_id@,
            name: self.name@,
            slug: self.slug@,
            cwd: self.cwd@,
            state: shown(self.state),
            extensions: members_view(self.extensions@),
        }
    }
}

impl Clone for Identity {
    fn clone(&self) -> (r: Self)
        ensures
            r@ == self@,
    {
        let mut extensions: Vec<Member> = Vec::new();
        let ghost all = members_view(self.extensions@);
        let mut i: usize = 0;
        while i < self.extensions.len()
            invariant
                i <= self.extensions.len(),
                all == members_view(self.extensions@),
                members_view(extensions@) == all.take(i as int),
            decreases self.extensions.len() - i,
        {
            let ghost so_far = extensions@;
            let one = &self.extensions[i];
            extensions.push(Member { name: one.name.clone(), value: one.value.clone() });
            assert(members_view(extensions@) =~= members_view(so_far).push(all[i as int]));
            i += 1;
            assert(all.take(i as int) =~= all.take(i - 1).push(all[i - 1]));
        }
        assert(all.take(i as int) =~= all);
        let state = match &self.state {
            Some(state) => Some(IdentityState { value: state.value.clone() }),
            None => None,
        };
        Identity {
            session_id: self.session_id.clone(),
            name: self.name.clone(),
            slug: self.slug.clone(),
            cwd: self.cwd.clone(),
            state,
            extensions,
        }
    }
}

/// Why Agent ID gives no identity.
#[derive(Debug)]
pub enum Error {
    Start { executable: String, source: String },
    CommandFailed { detail: String },
    InvalidJson { output: String, source: String },
    IncompleteIdentity,
    MissingOmpRegistration { name: String },
    WorkerNotFound { worktree: String },
    MultipleWorkers { worktree: String, slugs: Vec<String> },
}

/// What an error says.
pub enum ErrorView {
    Start { executable: Seq<char>, source: Seq<char> },
    CommandFailed { detail: Seq<char> },
    InvalidJson { output: Seq<char>, source: Seq<char> },
    IncompleteIdentity,
    MissingOmpRegistration { name: Seq<char> },
    WorkerNotFound { worktree: Seq<char> },
    MultipleWorkers { worktree: Seq<char>, slugs: Seq<Seq<char>> },
}

impl View for Error {
    type V = ErrorView;

    open spec fn view(&self) -> ErrorView {
        match *self {
            Error::Start { executable, source } => ErrorView::Start {
                executable: executable@,
                source: source@,
            },
            Error::CommandFailed { detail } => ErrorView::CommandFailed { detail: detail@ },
            Error::InvalidJson { output, source } => ErrorView::InvalidJson {
                output: output@,
                source: source@,
            },
            Error::IncompleteIdentity => ErrorView::IncompleteIdentity,
            Error::MissingOmpRegistration { name } => ErrorView::MissingOmpRegistration {
                name: name@,
            },
            Error::WorkerNotFound { worktree } => ErrorView::WorkerNotFound { worktree: worktree@ },
            Error::MultipleWorkers { worktree, slugs } => ErrorView::MultipleWorkers {
                worktree: worktree@,
                slugs: texts(slugs@),
            },
        }
    }
}

impl ErrorView {
    /// The message for an error.
    pub open spec fn message(self) -> Seq<char> {
        match self {
            ErrorView::Start { executable, source } => "cannot start Agent ID executable `"@
                + executable + "`: "@ + source,
            ErrorView::CommandFailed { detail } => "Agent ID command failed: "@ + detail,
            ErrorView::InvalidJson { output, source } => "Agent ID returned invalid identity JSON: "@
                + output + ": "@ + source,
            ErrorView::IncompleteIdentity => "Agent ID returned an incomplete identity"@,
            ErrorView::MissingOmpRegistration { name } => "Agent ID identity "@ + name
                + " was not automatically registered by OMP: missing `extensions.omp`"@,
            ErrorView::WorkerNotFound { worktree } =>
                "Agent ID did not discover an OMP worker registered for "@ + worktree
                + ": found none"@,
            ErrorView::MultipleWorkers { worktree, slugs } =>
                "Agent ID discovered multiple OMP workers for "@ + worktree + ": "@ + joined(
                slugs,
                ", "@,
            ),
        }
    }
}

impl Error {
    /// The message for an error.
    pub fn message(&self) -> (r: String)
        ensures
            r@ == self@.message(),
    {
        match self {
            Error::Start { executable, source } => {
                let mut m = "cannot start Agent ID executable `".to_owned();
                m.append(executable.as_str());
                m.append("`: ");
                m.append(source.as_str());
                m
            },
            Error::CommandFailed { detail } => {
                let mut m = "Agent ID command failed: ".to_owned();
                m.append(detail.as_str());
                m
            },
            Error::InvalidJson { output, source } => {
                let mut m = "Agent ID returned invalid identity JSON: ".to_owned();
                m.append(output.as_str());
                m.append(": ");
                m.append(source.as_str());
                m
            },
            Error::IncompleteIdentity => "Agent ID returned an incomplete identity".to_owned(),
            Error::MissingOmpRegistration { name } => {
                let mut m = "Agent ID identity ".to_owned();
                m.append(name.as_str());
                m.append(" was not automatically registered by OMP: missing `extensions.omp`");
                m
            },
            Error::WorkerNotFound { worktree } => {
                let mut m = "Agent ID did not discover an OMP worker registered for ".to_owned();
                m.append(worktree.as_str());
                m.append(": found none");
                m
            },
            Error::MultipleWorkers { worktree, slugs } => {
                let mut m = "Agent ID discovered multiple OMP workers for ".to_owned();
                m.append(worktree.as_str());
                m.append(": ");
                m.append(join(slugs, ", ").as_str());
                m
            },
        }
    }
}

impl IdentityView {
    /// OMP registered the agent.
    pub open spec fn registered(self) -> bool {
        member(self.extensions, "omp"@) is Some
    }

    /// Why an identity is refused, where it is.
    pub open spec fn fault(self) -> Option<ErrorView> {
        if blank(self.session_id) || blank(self.name) || blank(self.slug) {
            Some(ErrorView::IncompleteIdentity)
        } else if !self.registered() {
            Some(ErrorView::MissingOmpRegistration { name: self.name })
        } else {
            None
        }
    }

    /// The identity, or why it is refused.
    pub open spec fn validated(self) -> Result<IdentityView, ErrorView> {
        match self.fault() {
            Some(error) => Err(error),
            None => Ok(self),
        }
    }

    /// The two are the same session under the same slug.
    pub open spec fn same_agent(self, other: IdentityView) -> bool {
        self.session_id == other.session_id && self.slug == other.slug
    }
}

impl Identity {
    /// Refuses an identity that is incomplete or that OMP did not register.
    pub fn validate_omp_registration(&self) -> (r: Result<(), Error>)
        ensures
            match self@.fault() {
                None => r is Ok,
                Some(error) => r matches Err(e) && e@ == error,
            },
    {
        if is_blank(self.session_id.as_str()) || is_blank(self.name.as_str()) || is_blank(
            self.slug.as_str(),
        ) {
            return Err(Error::IncompleteIdentity);
        }
        if !self.is_registered() {
            return Err(Error::MissingOmpRegistration { name: self.name.clone() });
        }
        Ok(())
    }

    /// Whether OMP registered the agent.
    pub fn is_registered(&self) -> (r: bool)
        ensures
            r == self@.registered(),
    {
        find_member(&self.extensions, "omp").is_some()
    }

    /// Whether two identities are the same session under the same slug.
    pub fn is_same_agent(&self, other: &Identity) -> (r: bool)
        ensures
            r == self@.same_agent(other@),
    {
        same(self.session_id.as_str(), other.session_id.as_str()) && same(
            self.slug.as_str(),
            other.slug.as_str(),
        )
    }
}

/// What a list of identities says.
pub open spec fn identities_view(found: Seq<Identity>) -> Seq<IdentityView> {
    found.map_values(|i: Identity| i@)
}

/// The registered agents among those found that are in the worktree, in their order.
pub open spec fn workers_here(found: Seq<IdentityView>, here: Seq<bool>) -> Seq<IdentityView>
    decreases found.len(),
{
    if found.len() == 0 {
        Seq::empty()
    } else {
        let before = workers_here(found.drop_last(), here.take(found.len() - 1));
        if here[found.len() - 1] && found.last().registered() {
            before.push(found.last())
        } else {
            before
        }
    }
}

/// The slugs of agents.
pub open spec fn slugs(found: Seq<IdentityView>) -> Seq<Seq<char>> {
    found.map_values(|i: IdentityView| i.slug)
}

/// The one agent that works in the worktree, or why there is none.
pub open spec fn worker_in(
    worktree: Seq<char>,
    found: Seq<IdentityView>,
    here: Seq<bool>,
) -> Result<IdentityView, ErrorView> {
    let workers = workers_here(found, here);
    if workers.len() == 1 {
        workers[0].validated()
    } else if workers.len() == 0 {
        Err(ErrorView::WorkerNotFound { worktree })
    } else {
        Err(ErrorView::MultipleWorkers { worktree, slugs: slugs(workers) })
    }
}

/// The arguments that ask for the identity of the current agent.
pub open spec fn current_request() -> Seq<Seq<char>> {
    seq!["current"@, "--json"@]
}

/// The arguments that ask for the agents of the last day.
pub open spec fn discover_request() -> Seq<Seq<char>> {
    seq!["discover"@, "--recent"@, "24"@, "--json"@]
}

/// What an Agent ID command wrote, or why it is refused.
pub open spec fn output_of(executable: Seq<char>, ran: Result<Finished, String>) -> Result<
    Seq<u8>,
    ErrorView,
> {
    match ran {
        Err(source) => Err(ErrorView::Start { executable, source: source@ }),
        Ok(output) => if output.success {
            Ok(output.stdout@)
        } else {
            Err(ErrorView::CommandFailed { detail: failure_text(output, "exit status "@) })
        },
    }
}

/// The Agent ID command.
#[derive(Debug)]
pub struct AgentId {
    executable: String,
}

/// The Agent ID command.
pub type AgentIdClient = AgentId;

impl AgentId {
    pub closed spec fn executable_name(self) -> Seq<char> {
        self.executable@
    }

    /// A client for the executable that the environment names, which is `agent-id` where it names
    /// none.
    pub fn from_environment(executable: Option<String>) -> (r: AgentId)
        ensures
            r.executable_name() == (match shown(executable) {
                Some(name) => name,
                None => "agent-id"@,
            }),
    {
        match executable {
            Some(executable) => AgentId { executable },
            None => AgentId { executable: "agent-id".to_owned() },
        }
    }

    pub fn with_executable(executable: String) -> (r: AgentId)
        ensures
            r.executable_name() == executable@,
    {
        AgentId { executable }
    }

    pub fn executable(&self) -> (r: &str)
        ensures
            r@ == self.executable_name(),
    {
        self.executable.as_str()
    }

    /// The arguments that ask for the identity of this session.
    pub fn current_arguments(&self) -> (r: Vec<String>)
        ensures
            texts(r@) == current_request(),
    {
        let r = vec!["current".to_owned(), "--json".to_owned()];
        assert(texts(r@) =~= current_request());
        r
    }

    /// The arguments that ask for the identities of a day.
    pub fn discover_arguments(&self) -> (r: Vec<String>)
        ensures
            texts(r@) == discover_request(),
    {
        let r = vec![
            "discover".to_owned(),
            "--recent".to_owned(),
            "24".to_owned(),
            "--json".to_owned(),
        ];
        assert(texts(r@) =~= discover_request());
        r
    }

    /// Refuses the outcome of a command that could not be started or did not succeed.
    pub fn check(&self, ran: Result<Finished, String>) -> (r: Result<Vec<u8>, Error>)
        ensures
            match output_of(self.executable_name(), ran) {
                Ok(written) => r matches Ok(bytes) && bytes@ == written,
                Err(error) => r matches Err(e) && e@ == error,
            },
            r matches Ok(bytes) ==> ran matches Ok(output) && bytes == output.stdout,
    {
        match ran {
            Err(source) => Err(Error::Start { executable: self.executable.clone(), source }),
            Ok(output) => if output.success {
                Ok(output.stdout)
            } else {
                Err(Error::CommandFailed { detail: failure_detail(&output, "exit status ") })
            },
        }
    }

    /// The error for output that does not hold identities.
    pub fn invalid_json(&self, output: &str, source: String) -> (r: Error)
        ensures
            r@ == (ErrorView::InvalidJson { output: trim(output@), source: source@ }),
    {
        Error::InvalidJson { output: trimmed(output), source }
    }

    /// The identity of this session, where OMP registered it.
    pub fn current(&self, identity: Identity) -> (r: Result<Identity, Error>)
        ensures
            seen(r) == identity@.validated(),
    {
        identity.validate_omp_registration()?;
        Ok(identity)
    }

    /// The one agent that works in a worktree. `here` tells of each identity that was found
    /// whether its working directory is the worktree.
    pub fn discover_worker(&self, worktree: &str, found: &Vec<Identity>, here: &Vec<bool>) -> (r:
        Result<Identity, Error>)
        requires
            here@.len() == found@.len(),
        ensures
            seen(r) == worker_in(worktree@, identities_view(found@), here@),
    {
        let ghost all = identities_view(found@);
        let mut workers: Vec<usize> = Vec::new();
        let mut slug_list: Vec<String> = Vec::new();
        let mut i: usize = 0;
        assert(all.take(0) =~= Seq::<IdentityView>::empty());
        while i < found.len()
            invariant
                i <= found.len(),
                here@.len() == found@.len(),
                all == identities_view(found@),
                workers@.len() == workers_here(all.take(i as int), here@.take(i as int)).len(),
                forall|k: int|
                    0 <= k < workers@.len() ==> #[trigger] workers@[k] < found@.len()
                        && all[workers@[k] as int] == workers_here(
                        all.take(i as int),
                        here@.take(i as int),
                    )[k],
                texts(slug_list@) == slugs(workers_here(all.take(i as int), here@.take(i as int))),
            decreases found.len() - i,
        {
            let ghost so_far = texts(slug_list@);
            proof {
                let now = all.take(i + 1);
                assert(now.drop_last() =~= all.take(i as int));
                assert(here@.take(i + 1).take(i as int) =~= here@.take(i as int));
                assert(now.last() == found@[i as int]@);
            }
            if here[i] && found[i].is_registered() {
                workers.push(i);
                slug_list.push(found[i].slug.clone());
                assert(texts(slug_list@) =~= so_far.push(all[i as int].slug));
                assert(slugs(workers_here(all.take(i + 1), here@.take(i + 1))) =~= so_far.push(
                    all[i as int].slug,
                ));
            }
            i += 1;
        }
        assert(all.take(i as int) =~= all);
        assert(here@.take(i as int) =~= here@);
        if workers.len() == 1 {
            let worker = &found[workers[0]];
            worker.validate_omp_registration()?;
            Ok(worker.clone())
        } else if workers.len() == 0 {
            Err(Error::WorkerNotFound { worktree: worktree.to_owned() })
        } else {
            Err(Error::MultipleWorkers { worktree: worktree.to_owned(), slugs: slug_list })
        }
    }
}

/// A discovered worker is one of the identities found in the worktree, OMP registered it, and no
/// other registered agent is there.
pub proof fn discovered_worker_is_the_only_one(
    worktree: Seq<char>,
    found: Seq<IdentityView>,
    here: Seq<bool>,
    i: int,
    j: int,
)
    requires
        here.len() == found.len(),
        worker_in(worktree, found, here) is Ok,
        0 <= i < found.len() && here[i] && found[i].registered(),
        0 <= j < found.len() && here[j] && found[j].registered(),
    ensures
        i == j,
        worker_in(worktree, found, here)->Ok_0 == found[i],
        found[i].fault() is None,
{
    workers_are_counted(found, here, i, j);
}

/// Each registered agent in the worktree counts once.
proof fn workers_are_counted(found: Seq<IdentityView>, here: Seq<bool>, i: int, j: int)
    requires
        here.len() == found.len(),
        0 <= i < found.len() && here[i] && found[i].registered(),
        0 <= j < found.len() && here[j] && found[j].registered(),
    ensures
        workers_here(found, here).contains(found[i]),
        i != j ==> workers_here(found, here).len() >= 2,
        workers_here(found, here).len() == 1 ==> workers_here(found, here)[0] == found[i],
    decreases found.len(),
{
    let n = found.len() - 1;
    let rest = found.drop_last();
    let rest_here = here.take(n);
    let before = workers_here(rest, rest_here);
    if i < n {
        workers_are_counted(rest, rest_here, i, if j < n { j } else { i });
        let k = choose|k: int| 0 <= k < before.len() && before[k] == found[i];
        assert(workers_here(found, here)[k] == found[i]);
    } else {
        if j < n {
            workers_are_counted(rest, rest_here, j, j);
            let k = choose|k: int| 0 <= k < before.len() && before[k] == found[j];
        }
        assert(workers_here(found, here)[before.len() as int] == found[i]);
    }
}

} // verus!
