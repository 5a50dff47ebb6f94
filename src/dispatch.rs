//! Fan-out and fan-in of the probes of one page: which resources are
//! probed, and the tally of their outcomes as they complete in any order.

use vstd::prelude::*;
use crate::probe::ProbeOutcome;
use crate::resolve::{has_host, join_url, url_parts, Origin, OriginParseError};
use crate::tokens::texts;

verus! {

/// The references that are not empty, in order.
pub open spec fn nonempty_refs(refs: Seq<Seq<char>>) -> Seq<Seq<char>>
    decreases refs.len(),
{
    if refs.len() == 0 {
        Seq::empty()
    } else {
        let prev = nonempty_refs(refs.drop_last());
        if refs.last().len() > 0 {
            prev.push(refs.last())
        } else {
            prev
        }
    }
}

/// The resource URLs probed for `refs`: one per non-empty reference, in
/// document order.
pub open spec fn planned_urls(scheme: Seq<char>, host: Seq<char>, refs: Seq<Seq<char>>) -> Seq<
    Seq<char>,
> {
    nonempty_refs(refs).map_values(|r: Seq<char>| join_url(scheme, host, r))
}

/// The URLs to probe for the references of the page at `origin`: empty
/// references are skipped, every other one is resolved. Fails, before any
/// probe, where the origin does not parse or has no host.
pub fn plan_probes(origin: &str, references: &Vec<String>) -> (r: Result<
    Vec<String>,
    OriginParseError,
>)
    ensures
        match r {
            Ok(urls) => match url_parts(origin@) {
                Some((scheme, Some(host))) => texts(urls@) == planned_urls(
                    scheme,
                    host,
                    texts(references@),
                ),
                _ => false,
            },
            Err(_) => !has_host(origin@),
        },
{
    let o = Origin::parse(origin)?;
    let ghost scheme = o.scheme@;
    let ghost host = o.host.unwrap()@;
    let mut urls: Vec<String> = Vec::new();
    let mut i: usize = 0;
    let ghost rv = texts(references@);
    proof {
        assert(rv.take(0) =~= Seq::<Seq<char>>::empty());
        assert(texts(urls@) =~= planned_urls(scheme, host, rv.take(0)));
    }
    while i < references.len()
        invariant
            i <= references.len(),
            rv == texts(references@),
            o.host matches Some(h) && h@ == host && o.scheme@ == scheme,
            texts(urls@) == planned_urls(scheme, host, rv.take(i as int)),
        decreases references.len() - i,
    {
        let reference = &references[i];
        proof {
            assert(rv.take(i as int + 1).drop_last() =~= rv.take(i as int));
            assert(rv.take(i as int + 1).last() == reference@);
        }
        if reference.as_str().unicode_len() > 0 {
            let u = o.resolve_ref(reference.as_str());
            match u {
                Ok(u) => {
                    let ghost before = urls@;
                    urls.push(u);
                    proof {
                        assert(texts(urls@) =~= texts(before).push(u@));
                        assert(planned_urls(scheme, host, rv.take(i as int + 1)) =~= planned_urls(
                            scheme,
                            host,
                            rv.take(i as int),
                        ).push(join_url(scheme, host, reference@)));
                    }
                },
                // A reference that fails to resolve is skipped, not fatal.
                Err(_) => {},
            }
        }
        i = i + 1;
    }
    proof {
        assert(rv.take(references.len() as int) =~= rv);
    }
    Ok(urls)
}

/// Counts of the probes of one batch: how many were dispatched, and how
/// many of them have completed with success and with failure.
#[derive(Debug)]
pub struct Tally {
    pub dispatched: usize,
    pub succeeded: usize,
    pub failed: usize,
}

impl Tally {
    pub open spec fn completed(&self) -> int {
        self.succeeded + self.failed
    }

    /// No more probes have completed than were dispatched.
    pub open spec fn wf(&self) -> bool {
        self.completed() <= self.dispatched
    }

    /// The tally once one more probe has completed.
    pub open spec fn after_record(self, success: bool) -> Tally {
        if success {
            Tally { succeeded: (self.succeeded + 1) as usize, ..self }
        } else {
            Tally { failed: (self.failed + 1) as usize, ..self }
        }
    }

    /// The tally once probes with these successes have completed, in order.
    pub open spec fn after_all(self, results: Seq<bool>) -> Tally
        decreases results.len(),
    {
        if results.len() == 0 {
            self
        } else {
            self.after_all(results.drop_last()).after_record(results.last())
        }
    }

    /// A batch of `dispatched` probes, none completed yet.
    pub open spec fn started(dispatched: usize) -> Tally {
        Tally { dispatched, succeeded: 0, failed: 0 }
    }

    /// A batch of `dispatched` probes, none completed yet.
    pub fn new(dispatched: usize) -> (r: Tally)
        ensures
            r == Tally::started(dispatched),
            r.wf(),
    {
        Tally { dispatched, succeeded: 0, failed: 0 }
    }

    /// Records the completion of one dispatched probe.
    pub fn record(&mut self, outcome: &ProbeOutcome)
        requires
            old(self).wf(),
            old(self).completed() < old(self).dispatched,
        ensures
            *final(self) == old(self).after_record(outcome.success),
            final(self).wf(),
    {
        if outcome.success {
            self.succeeded = self.succeeded + 1;
        } else {
            self.failed = self.failed + 1;
        }
    }

    /// How many dispatched probes have not completed.
    pub fn pending(&self) -> (r: usize)
        requires
            self.wf(),
        ensures
            r == self.dispatched - self.completed(),
    {
        self.dispatched - self.succeeded - self.failed
    }

    /// Whether every dispatched probe has completed.
    pub fn is_done(&self) -> (r: bool)
        requires
            self.wf(),
        ensures
            r == (self.completed() == self.dispatched),
    {
        self.pending() == 0
    }
}

proof fn lemma_after_all_counts(n: usize, results: Seq<bool>)
    requires
        results.len() <= n,
    ensures
        Tally::started(n).after_all(results).dispatched == n,
        Tally::started(n).after_all(results).succeeded == results.to_multiset().count(true),
        Tally::started(n).after_all(results).failed == results.to_multiset().count(false),
    decreases results.len(),
{
    broadcast use vstd::seq_lib::group_to_multiset_ensures;
    if results.len() > 0 {
        let prev = results.drop_last();
        lemma_after_all_counts(n, prev);
        assert(results =~= prev.push(results.last()));
        assert(prev.to_multiset().count(true) + prev.to_multiset().count(false) == prev.len()) by {
            lemma_multiset_bool_counts(prev);
        }
    }
}

proof fn lemma_multiset_bool_counts(s: Seq<bool>)
    ensures
        s.to_multiset().count(true) + s.to_multiset().count(false) == s.len(),
    decreases s.len(),
{
    broadcast use vstd::seq_lib::group_to_multiset_ensures;
    if s.len() > 0 {
        let prev = s.drop_last();
        lemma_multiset_bool_counts(prev);
        assert(s =~= prev.push(s.last()));
    }
}

proof fn lemma_all_nonempty_kept(refs: Seq<Seq<char>>)
    requires
        forall|i: int| 0 <= i < refs.len() ==> refs[i].len() > 0,
    ensures
        nonempty_refs(refs) == refs,
    decreases refs.len(),
{
    if refs.len() > 0 {
        lemma_all_nonempty_kept(refs.drop_last());
        assert(refs.drop_last().push(refs.last()) =~= refs);
    }
}

/// Fan-in completeness: `n` non-empty references give `n` probes, and once
/// each of them has completed, whether it succeeded or failed, the tally
/// counts exactly `n` completions and is done; how many succeeded and
/// failed depends only on the outcomes, not on the order in which they
/// completed.
pub proof fn lemma_fan_in_complete(
    scheme: Seq<char>,
    host: Seq<char>,
    refs: Seq<Seq<char>>,
    results: Seq<bool>,
    reordered: Seq<bool>,
)
    requires
        forall|i: int| 0 <= i < refs.len() ==> refs[i].len() > 0,
        refs.len() <= usize::MAX,
        results.len() == refs.len(),
        reordered.to_multiset() == results.to_multiset(),
    ensures
        planned_urls(scheme, host, refs).len() == refs.len(),
        Tally::started(refs.len() as usize).after_all(results).completed() == refs.len(),
        Tally::started(refs.len() as usize).after_all(results).wf(),
        Tally::started(refs.len() as usize).after_all(reordered) == Tally::started(
            refs.len() as usize,
        ).after_all(results),
{
    broadcast use vstd::seq_lib::group_to_multiset_ensures;
    let n = refs.len() as usize;
    lemma_all_nonempty_kept(refs);
    lemma_after_all_counts(n, results);
    lemma_multiset_bool_counts(results);
    assert(reordered.len() == results.len()) by {
        assert(reordered.to_multiset().len() == reordered.len());
        assert(results.to_multiset().len() == results.len());
    }
    lemma_after_all_counts(n, reordered);
}

} // verus!
