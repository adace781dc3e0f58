//! The dispatcher: turns an ordered list of (source, target) pairs into
//! filtered, submitted link jobs, and blocks until every submitted job has
//! completed.
//!
//! The link operation itself, and the progress reporting around it, are the
//! collaborators' side and come in as closures: `link` performs the external
//! link operation, `on_queued` announces an accepted pair and yields its
//! per-pair token, and `on_started`, `on_success` and `on_failure` report the
//! job's progress against that token.  A pair's failure is reported through
//! `on_failure` and stays local to that pair: sibling jobs and the dispatch
//! as a whole run on.

use vstd::prelude::*;

use crate::checker::check_path;
use crate::checker::spec_check_path;
use crate::checker::PathAction;
use crate::checker::PathFacts;
use crate::config::Config;
use crate::thread_pool::ThreadPool;

verus! {

/// The dispatch record for pair `i`: the filter was consulted on exactly that
/// pair, with its own index and the true total, and `verdict` is what the
/// filter returned for it.
pub open spec fn filter_decided<FilterFn: Fn(&str, &str, usize, usize) -> bool>(
    filter: FilterFn,
    links: Seq<(String, String)>,
    verdict: bool,
    i: int,
) -> bool {
    exists|s: &str, t: &str|
        {
            &&& s@ == links[i].0@
            &&& t@ == links[i].1@
            &&& #[trigger] call_ensures(filter, (s, t, i as usize, links.len() as usize), verdict)
        }
}

/// Dispatches one link job per accepted pair, then waits for all of them.
///
/// Each pair is put to `filter` with its index and the total count; a pair
/// failing the filter is skipped entirely — no job, no progress entry.  For
/// each accepted pair, `on_queued` runs before the job is submitted, and the
/// job then reports its start and its outcome itself.  The call returns only
/// once every submitted job has completed.
///
/// The returned ghost sequence records the dispatch decisions: every pair was
/// consulted exactly once, with its own index and the true total, and entry
/// `i` is the filter's verdict on pair `i` — no pair is skipped or dispatched
/// except as the filter decided.  The runtime effects themselves flow through
/// the collaborators and the pool and are theirs to observe.
#[verifier::loop_isolation(false)]
pub fn link_all_with_filter<FilterFn, LinkFn, Token, QueuedFn, StartedFn, SuccessFn, FailureFn>(
    pool: &ThreadPool,
    links: &Vec<(String, String)>,
    filter: FilterFn,
    link: LinkFn,
    on_queued: QueuedFn,
    on_started: StartedFn,
    on_success: SuccessFn,
    on_failure: FailureFn,
) -> (accepted: Ghost<Seq<bool>>) where
    FilterFn: Fn(&str, &str, usize, usize) -> bool,
    LinkFn: Fn(&str, &str) -> Result<(), String> + Copy + Send + 'static,
    Token: Send + 'static,
    QueuedFn: Fn(&str, &str, usize, usize) -> Token,
    StartedFn: Fn(&Token, &str, &str, usize, usize) + Copy + Send + 'static,
    SuccessFn: Fn(Token, &str, &str, usize, usize) + Copy + Send + 'static,
    FailureFn: Fn(Token, &str, &str, usize, usize, String) + Copy + Send + 'static,

    requires
        forall|s: &str, t: &str, i: usize, l: usize| call_requires(filter, (s, t, i, l)),
        forall|s: &str, t: &str| call_requires(link, (s, t)),
        forall|s: &str, t: &str, i: usize, l: usize| call_requires(on_queued, (s, t, i, l)),
        forall|p: &Token, s: &str, t: &str, i: usize, l: usize|
            call_requires(on_started, (p, s, t, i, l)),
        forall|p: Token, s: &str, t: &str, i: usize, l: usize|
            call_requires(on_success, (p, s, t, i, l)),
        forall|p: Token, s: &str, t: &str, i: usize, l: usize, e: String|
            call_requires(on_failure, (p, s, t, i, l, e)),
    ensures
        accepted@.len() == links@.len(),
        forall|i: int| 0 <= i < links@.len() ==> #[trigger] filter_decided(
            filter,
            links@,
            accepted@[i],
            i,
        ),
{
    let len = links.len();
    let mut idx: usize = 0;
    let ghost mut accepted: Seq<bool> = Seq::empty();
    while idx < len
        invariant
            idx <= len,
            accepted.len() == idx,
            forall|i: int| 0 <= i < idx ==> #[trigger] filter_decided(
                filter,
                links@,
                accepted[i],
                i,
            ),
        decreases len - idx,
    {
        let source = links[idx].0.as_str();
        let target = links[idx].1.as_str();
        let ok = filter(source, target, idx, len);
        proof {
            accepted = accepted.push(ok);
            assert(filter_decided(filter, links@, ok, idx as int)) by {
                assert(source@ == links@[idx as int].0@);
                assert(target@ == links@[idx as int].1@);
                assert(len == links@.len() as usize);
                assert(call_ensures(filter, (source, target, idx, links@.len() as usize), ok));
            }
        }
        if ok {
            let source = links[idx].0.clone();
            let target = links[idx].1.clone();
            let token = on_queued(source.as_str(), target.as_str(), idx, len);
            pool.execute(
                move ||
                    {
                        on_started(&token, source.as_str(), target.as_str(), idx, len);
                        match link(source.as_str(), target.as_str()) {
                            Ok(()) => on_success(token, source.as_str(), target.as_str(), idx, len),
                            Err(e) => on_failure(
                                token,
                                source.as_str(),
                                target.as_str(),
                                idx,
                                len,
                                e,
                            ),
                        }
                    },
            );
        }
        idx = idx + 1;
    }
    pool.join();
    Ghost(accepted)
}

/// Dispatches every pair: [`link_all_with_filter`] with a filter that accepts
/// all of them, so the recorded verdicts are all acceptances.
pub fn link_all<LinkFn, Token, QueuedFn, StartedFn, SuccessFn, FailureFn>(
    pool: &ThreadPool,
    links: &Vec<(String, String)>,
    link: LinkFn,
    on_queued: QueuedFn,
    on_started: StartedFn,
    on_success: SuccessFn,
    on_failure: FailureFn,
) -> (accepted: Ghost<Seq<bool>>) where
    LinkFn: Fn(&str, &str) -> Result<(), String> + Copy + Send + 'static,
    Token: Send + 'static,
    QueuedFn: Fn(&str, &str, usize, usize) -> Token,
    StartedFn: Fn(&Token, &str, &str, usize, usize) + Copy + Send + 'static,
    SuccessFn: Fn(Token, &str, &str, usize, usize) + Copy + Send + 'static,
    FailureFn: Fn(Token, &str, &str, usize, usize, String) + Copy + Send + 'static,

    requires
        forall|s: &str, t: &str| call_requires(link, (s, t)),
        forall|s: &str, t: &str, i: usize, l: usize| call_requires(on_queued, (s, t, i, l)),
        forall|p: &Token, s: &str, t: &str, i: usize, l: usize|
            call_requires(on_started, (p, s, t, i, l)),
        forall|p: Token, s: &str, t: &str, i: usize, l: usize|
            call_requires(on_success, (p, s, t, i, l)),
        forall|p: Token, s: &str, t: &str, i: usize, l: usize, e: String|
            call_requires(on_failure, (p, s, t, i, l, e)),
    ensures
        accepted@.len() == links@.len(),
        forall|i: int| 0 <= i < links@.len() ==> accepted@[i],
{
    let filter = |_source: &str, _target: &str, _idx: usize, _len: usize| -> (ok: bool)
        ensures
            ok,
        { true };
    let accepted = link_all_with_filter(
        pool,
        links,
        filter,
        link,
        on_queued,
        on_started,
        on_success,
        on_failure,
    );
    proof {
        assert forall|i: int| 0 <= i < links@.len() implies accepted@[i] by {
            assert(filter_decided(filter, links@, accepted@[i], i));
        }
    }
    accepted
}

/// The policy record for pair `i`: the probe was asked about exactly that
/// pair, and `verdict` is the rewrite-policy decision on what it reported —
/// accepted exactly when [`spec_check_path`] allows the link.
pub open spec fn policy_decided<ProbeFn: Fn(&str, &str) -> PathFacts>(
    probe: ProbeFn,
    rewrite: bool,
    links: Seq<(String, String)>,
    verdict: bool,
    i: int,
) -> bool {
    exists|s: &str, t: &str, facts: PathFacts|
        {
            &&& s@ == links[i].0@
            &&& t@ == links[i].1@
            &&& #[trigger] call_ensures(probe, (s, t), facts)
            &&& verdict == (spec_check_path(rewrite, facts) is Ok)
        }
}

/// Dispatches a configuration's pairs under its rewrite policy.
///
/// The filter for each pair asks `probe` what the filesystem says about it
/// and puts the answer to [`check_path`]: a rejected pair is skipped; an
/// accepted pair whose target must first be removed has `remove_file` or
/// `remove_dir` run on the target, as the decision says, before its job is
/// submitted.  The returned ghost sequence holds one verdict per pair, and
/// each is exactly the policy's decision on facts the probe reported for that
/// pair.
pub fn link_all_with_config<
    ProbeFn,
    RemoveFileFn,
    RemoveDirFn,
    LinkFn,
    Token,
    QueuedFn,
    StartedFn,
    SuccessFn,
    FailureFn,
>(
    config: &Config,
    pool: &ThreadPool,
    probe: ProbeFn,
    remove_file: RemoveFileFn,
    remove_dir: RemoveDirFn,
    link: LinkFn,
    on_queued: QueuedFn,
    on_started: StartedFn,
    on_success: SuccessFn,
    on_failure: FailureFn,
) -> (accepted: Ghost<Seq<bool>>) where
    ProbeFn: Fn(&str, &str) -> PathFacts + Copy,
    RemoveFileFn: Fn(&str),
    RemoveDirFn: Fn(&str),
    LinkFn: Fn(&str, &str) -> Result<(), String> + Copy + Send + 'static,
    Token: Send + 'static,
    QueuedFn: Fn(&str, &str, usize, usize) -> Token,
    StartedFn: Fn(&Token, &str, &str, usize, usize) + Copy + Send + 'static,
    SuccessFn: Fn(Token, &str, &str, usize, usize) + Copy + Send + 'static,
    FailureFn: Fn(Token, &str, &str, usize, usize, String) + Copy + Send + 'static,

    requires
        forall|s: &str, t: &str| call_requires(probe, (s, t)),
        forall|t: &str| call_requires(remove_file, (t,)),
        forall|t: &str| call_requires(remove_dir, (t,)),
        forall|s: &str, t: &str| call_requires(link, (s, t)),
        forall|s: &str, t: &str, i: usize, l: usize| call_requires(on_queued, (s, t, i, l)),
        forall|p: &Token, s: &str, t: &str, i: usize, l: usize|
            call_requires(on_started, (p, s, t, i, l)),
        forall|p: Token, s: &str, t: &str, i: usize, l: usize|
            call_requires(on_success, (p, s, t, i, l)),
        forall|p: Token, s: &str, t: &str, i: usize, l: usize, e: String|
            call_requires(on_failure, (p, s, t, i, l, e)),
    ensures
        accepted@.len() == config.links@.len(),
        forall|i: int| 0 <= i < config.links@.len() ==> #[trigger] policy_decided(
            probe,
            config.rewrite,
            config.links@,
            accepted@[i],
            i,
        ),
{
    let rewrite: bool = config.rewrite;
    let filter = |source: &str, target: &str, _idx: usize, _len: usize| -> (ok: bool)
        ensures
            exists|facts: PathFacts|
                {
                    &&& #[trigger] call_ensures(probe, (source, target), facts)
                    &&& ok == (spec_check_path(rewrite, facts) is Ok)
                },
        {
            let facts = probe(source, target);
            match check_path(config, facts) {
                Ok(PathAction::LinkOnly) => true,
                Ok(PathAction::RemoveFileFirst) => {
                    remove_file(target);
                    true
                },
                Ok(PathAction::RemoveDirFirst) => {
                    remove_dir(target);
                    true
                },
                Err(()) => false,
            }
        };
    let accepted = link_all_with_filter(
        pool,
        &config.links,
        filter,
        link,
        on_queued,
        on_started,
        on_success,
        on_failure,
    );
    proof {
        assert forall|i: int|
            0 <= i < config.links@.len() implies #[trigger] policy_decided(
            probe,
            config.rewrite,
            config.links@,
            accepted@[i],
            i,
        ) by {
            assert(filter_decided(filter, config.links@, accepted@[i], i));
            let (s, t): (&str, &str) = choose|s: &str, t: &str|
                {
                    &&& s@ == config.links@[i].0@
                    &&& t@ == config.links@[i].1@
                    &&& #[trigger] call_ensures(
                        filter,
                        (s, t, i as usize, config.links@.len() as usize),
                        accepted@[i],
                    )
                };
            let facts = choose|facts: PathFacts|
                {
                    &&& #[trigger] call_ensures(probe, (s, t), facts)
                    &&& accepted@[i] == (spec_check_path(rewrite, facts) is Ok)
                };
            assert(call_ensures(probe, (s, t), facts));
        }
    }
    accepted
}

} // verus!
