//! What the identities of agents must satisfy.
use vstd::prelude::*;
use crate::command::{failure_text, Finished};
use crate::identity::{
    current_request, discover_request, output_of, slugs, worker_in, workers_here, ErrorView,
    IdentityView,
};
use crate::json::member;
use crate::text::blank;
use crate::text_laws::{gives, says_something};

verus! {

/// An identity is complete exactly when its session, its name and its slug say something and OMP
/// registered it; otherwise the error tells which of the two is missing.
pub proof fn identities_are_complete_and_registered(identity: IdentityView)
    ensures
        ({
            let complete = says_something(identity.session_id) && says_something(identity.name)
                && says_something(identity.slug);
            let registered = member(identity.extensions, "omp"@) is Some;
            &&& identity.fault() is None <==> complete && registered
            &&& !complete ==> identity.fault() == Some(ErrorView::IncompleteIdentity)
            &&& complete && !registered ==> identity.fault() == Some(
                ErrorView::MissingOmpRegistration { name: identity.name },
            )
            &&& identity.validated() is Ok <==> complete && registered
            &&& identity.validated() matches Ok(same) ==> same == identity
            &&& identity.validated() matches Err(e) ==> identity.fault() == Some(e)
        }),
{
    assert(says_something(identity.session_id) <==> !blank(identity.session_id));
    assert(says_something(identity.name) <==> !blank(identity.name));
    assert(says_something(identity.slug) <==> !blank(identity.slug));
}

/// Two identities are those of one agent exactly when the session and the slug are the same, whatever
/// the agent is called and wherever it is.
pub proof fn agents_are_told_by_session_and_slug(a: IdentityView, b: IdentityView)
    ensures
        a.same_agent(b) <==> a.session_id == b.session_id && a.slug == b.slug,
        a.same_agent(b) <==> b.same_agent(a),
        a.same_agent(a),
{
}

/// The current agent is asked for as such, and agents are looked for among those of the last 24 hours;
/// both answers come as JSON, and count where the command succeeded.
pub proof fn agents_are_asked_for(executable: Seq<char>, ran: Result<Finished, String>)
    ensures
        current_request().first() == "current"@,
        current_request().last() == "--json"@,
        current_request().len() == 2,
        discover_request().first() == "discover"@,
        gives(discover_request(), "--recent"@, "24"@),
        discover_request().last() == "--json"@,
        discover_request().len() == 4,
        output_of(executable, ran) is Ok <==> (ran matches Ok(o) && o.success),
        output_of(executable, ran) matches Ok(bytes) ==> (ran matches Ok(o) && bytes == o.stdout@),
        ran matches Err(source) ==> output_of(executable, ran) == Err::<Seq<u8>, ErrorView>(
            ErrorView::Start { executable, source: source@ },
        ),
        ran matches Ok(o) ==> !o.success ==> (output_of(executable, ran) matches Err(
            ErrorView::CommandFailed { detail },
        ) && detail == failure_text(o, "exit status "@)),
{
    let a = discover_request();
    assert(a[1] == "--recent"@ && a[2] == "24"@);
}

/// The agent at a position is here and registered by OMP.
pub open spec fn works_here(found: Seq<IdentityView>, here: Seq<bool>, i: int) -> bool {
    0 <= i < found.len() && here[i] && member(found[i].extensions, "omp"@) is Some
}

/// Where exactly one registered agent is in the worktree, it is the worker, wherever among those found
/// it stands, if it is complete.
pub proof fn the_only_agent_here_is_the_worker(
    worktree: Seq<char>,
    found: Seq<IdentityView>,
    here: Seq<bool>,
    i: int,
)
    requires
        here.len() == found.len(),
        works_here(found, here, i),
        forall|j: int| j != i ==> !#[trigger] works_here(found, here, j),
    ensures
        worker_in(worktree, found, here) == found[i].validated(),
        says_something(found[i].session_id) && says_something(found[i].name) && says_something(
            found[i].slug,
        ) ==> worker_in(worktree, found, here) == Ok::<IdentityView, ErrorView>(found[i]),
{
    workers_are_those_here(found, here);
    identities_are_complete_and_registered(found[i]);
}

/// Where no registered agent is in the worktree there is no worker.
pub proof fn without_an_agent_here_there_is_no_worker(
    worktree: Seq<char>,
    found: Seq<IdentityView>,
    here: Seq<bool>,
)
    requires
        here.len() == found.len(),
    ensures
        (forall|j: int| !#[trigger] works_here(found, here, j)) <==> worker_in(worktree, found, here)
            == Err::<IdentityView, ErrorView>(ErrorView::WorkerNotFound { worktree }),
{
    workers_are_those_here(found, here);
}

/// Where more than one registered agent is in the worktree, the error names them all and no others.
pub proof fn several_agents_here_are_named(
    worktree: Seq<char>,
    found: Seq<IdentityView>,
    here: Seq<bool>,
    i: int,
    j: int,
)
    requires
        here.len() == found.len(),
        i < j,
        works_here(found, here, i),
        works_here(found, here, j),
    ensures
        worker_in(worktree, found, here) matches Err(
            ErrorView::MultipleWorkers { worktree: w, slugs: named },
        ) && w == worktree && (forall|k: int| #[trigger]
            works_here(found, here, k) ==> named.contains(found[k].slug)) && (forall|n: int|
            0 <= n < named.len() ==> exists|k: int| #[trigger]
                works_here(found, here, k) && found[k].slug == #[trigger] named[n]),
{
    workers_are_those_here(found, here);
    let workers = workers_here(found, here);
    assert forall|k: int| #[trigger] works_here(found, here, k) implies slugs(workers).contains(
        found[k].slug,
    ) by {
        assert(workers.contains(found[k]));
        let n = choose|n: int| 0 <= n < workers.len() && workers[n] == found[k];
        assert(slugs(workers)[n] == found[k].slug);
    }
    assert forall|n: int| 0 <= n < slugs(workers).len() implies exists|k: int| #[trigger]
        works_here(found, here, k) && found[k].slug == #[trigger] slugs(workers)[n] by {
        let k = choose|k: int| #[trigger] works_here(found, here, k) && found[k] == workers[n];
        assert(works_here(found, here, k) && found[k].slug == slugs(workers)[n]);
    }
}

/// The workers are the registered agents that are here: none, the only one, or several.
proof fn workers_are_those_here(found: Seq<IdentityView>, here: Seq<bool>)
    requires
        here.len() == found.len(),
    ensures
        ({
            let workers = workers_here(found, here);
            &&& workers.len() == 0 <==> forall|j: int| !#[trigger] works_here(found, here, j)
            &&& forall|i: int| #[trigger]
                works_here(found, here, i) && (forall|j: int|
                    j != i ==> !#[trigger] works_here(found, here, j)) ==> workers == seq![found[i]]
            &&& forall|i: int, j: int|
                i < j && #[trigger] works_here(found, here, i) && #[trigger] works_here(
                    found,
                    here,
                    j,
                ) ==> workers.len() >= 2
            &&& forall|i: int| #[trigger] works_here(found, here, i) ==> workers.contains(found[i])
            &&& forall|n: int|
                0 <= n < workers.len() ==> exists|i: int| #[trigger]
                    works_here(found, here, i) && found[i] == #[trigger] workers[n]
        }),
    decreases found.len(),
{
    if found.len() > 0 {
        let last = found.len() - 1;
        let rest = found.drop_last();
        let rest_here = here.take(last);
        workers_are_those_here(rest, rest_here);
        let before = workers_here(rest, rest_here);
        let workers = workers_here(found, here);
        assert forall|j: int| #[trigger] works_here(rest, rest_here, j) implies works_here(
            found,
            here,
            j,
        ) && found[j] == rest[j] by {}
        assert forall|j: int| #[trigger] works_here(found, here, j) && j < last implies works_here(
            rest,
            rest_here,
            j,
        ) && found[j] == rest[j] by {}
        if works_here(found, here, last) {
            assert(workers == before.push(found[last]));
            assert forall|i: int| #[trigger] works_here(found, here, i) implies workers.contains(
                found[i],
            ) by {
                if i < last {
                    assert(before.contains(rest[i]));
                    let n = choose|n: int| 0 <= n < before.len() && before[n] == rest[i];
                    assert(workers[n] == found[i]);
                } else {
                    assert(workers[before.len() as int] == found[last]);
                }
            }
            assert forall|n: int| 0 <= n < workers.len() implies exists|i: int| #[trigger]
                works_here(found, here, i) && found[i] == #[trigger] workers[n] by {
                if n < before.len() {
                    let i = choose|i: int| #[trigger]
                        works_here(rest, rest_here, i) && rest[i] == before[n];
                    assert(works_here(found, here, i) && found[i] == workers[n]);
                } else {
                    assert(works_here(found, here, last) && found[last] == workers[n]);
                }
            }
            assert forall|i: int| #[trigger]
                works_here(found, here, i) && (forall|j: int|
                    j != i ==> !#[trigger] works_here(found, here, j)) implies workers
                == seq![found[i]] by {
                assert(i == last);
                assert forall|j: int| !#[trigger] works_here(rest, rest_here, j) by {
                    if works_here(rest, rest_here, j) {
                        assert(works_here(found, here, j));
                    }
                }
                assert(workers =~= seq![found[i]]);
            }
        } else {
            assert(workers == before);
            assert forall|i: int| #[trigger] works_here(found, here, i) implies workers.contains(
                found[i],
            ) by {
                assert(works_here(rest, rest_here, i));
            }
            assert forall|n: int| 0 <= n < workers.len() implies exists|i: int| #[trigger]
                works_here(found, here, i) && found[i] == #[trigger] workers[n] by {
                let i = choose|i: int| #[trigger]
                    works_here(rest, rest_here, i) && rest[i] == before[n];
                assert(works_here(found, here, i) && found[i] == workers[n]);
            }
            assert forall|i: int| #[trigger]
                works_here(found, here, i) && (forall|j: int|
                    j != i ==> !#[trigger] works_here(found, here, j)) implies workers
                == seq![found[i]] by {
                assert(works_here(rest, rest_here, i));
                assert forall|j: int| j != i implies !#[trigger] works_here(
                    rest,
                    rest_here,
                    j,
                ) by {
                    if works_here(rest, rest_here, j) {
                        assert(works_here(found, here, j));
                    }
                }
            }
        }
    }
}

} // verus!
