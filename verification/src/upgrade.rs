//! The enrichment pipeline: upgrade a batch of summary-stage articles to
//! full-text articles by fetching each candidate's page under a fixed
//! concurrency ceiling.
//!
//! The pipeline is a state machine. `UpgradeBatch::new` partitions the input:
//! articles with a resolvable URL become keyed fetch candidates, the rest are
//! excluded for good. The caller's event loop repeatedly asks `next_fetch`
//! for work — admission is gated by a counting permit of capacity
//! `fetchLimit` — performs the fetch, and hands the keyed outcome back
//! through `complete_fetch`, in whatever order the fetches finish. Once every
//! candidate completed, `into_results` reassociates each outcome with its
//! originating article by key and assembles the final batch.

use vstd::prelude::*;
use vstd::pervasive::VecAdditionalExecFns;

use crate::article::Article;
use crate::article::ArticleV;
use crate::article::FullTextArticle;
use crate::article::FullTextArticleV;
use crate::article::upgraded;
use crate::content::HttpContent;

verus! {

/// A per-article failure during enrichment; it never aborts the batch.
#[derive(Clone, Copy, Debug, PartialEq, Eq, Structural)]
pub enum UpgradeError {
    /// The page could not be fetched: network failure or non-success status.
    Fetch,
    /// The extraction collaborator derived no readable content from the page.
    Extraction,
}

/// One unit of work the pipeline hands out: fetch `url`, then report the
/// outcome back under `key`.
#[derive(Debug)]
pub struct FetchRequest {
    pub key: usize,
    pub url: String,
}

/// The view of one delivered outcome.
pub open spec fn outcome_view(o: Result<HttpContent, UpgradeError>) -> Result<
    Seq<char>,
    UpgradeError,
> {
    match o {
        Ok(c) => Ok(c@),
        Err(e) => Err(e),
    }
}

/// The view of one outcome slot.
pub open spec fn slot_view(o: Option<Result<HttpContent, UpgradeError>>) -> Option<
    Result<Seq<char>, UpgradeError>,
> {
    match o {
        Some(r) => Some(outcome_view(r)),
        None => None,
    }
}

/// The view of one assembled result row.
pub open spec fn result_view(r: Result<FullTextArticle, UpgradeError>) -> Result<
    FullTextArticleV,
    UpgradeError,
> {
    match r {
        Ok(a) => Ok(a@),
        Err(e) => Err(e),
    }
}

/// How many slots hold a delivered outcome.
pub open spec fn count_some<T>(s: Seq<Option<T>>) -> int
    decreases s.len(),
{
    if s.len() == 0 {
        0
    } else {
        count_some(s.drop_last()) + (if s.last() is Some {
            1int
        } else {
            0int
        })
    }
}

proof fn lemma_count_some_le_len<T>(s: Seq<Option<T>>)
    ensures
        0 <= count_some(s) <= s.len(),
    decreases s.len(),
{
    if s.len() > 0 {
        lemma_count_some_le_len(s.drop_last());
    }
}

proof fn lemma_count_some_update<T>(s: Seq<Option<T>>, k: int, v: T)
    requires
        0 <= k < s.len(),
        s[k] is None,
    ensures
        count_some(s.update(k, Some(v))) == count_some(s) + 1,
    decreases s.len(),
{
    if k == s.len() - 1 {
        assert(s.update(k, Some(v)).drop_last() =~= s.drop_last());
        assert(s.update(k, Some(v)).last() == Some(v));
    } else {
        lemma_count_some_update(s.drop_last(), k, v);
        assert(s.update(k, Some(v)).drop_last() =~= s.drop_last().update(k, Some(v)));
        assert(s.update(k, Some(v)).last() == s.last());
    }
}

proof fn lemma_count_some_prefix<T>(s: Seq<Option<T>>, m: int)
    requires
        0 <= m <= s.len(),
        forall|k: int| m <= k < s.len() ==> s[k] is None,
    ensures
        count_some(s) == count_some(s.subrange(0, m)),
    decreases s.len(),
{
    if s.len() > m {
        lemma_count_some_prefix(s.drop_last(), m);
        assert(s.drop_last().subrange(0, m) =~= s.subrange(0, m));
    } else {
        assert(s.subrange(0, m) =~= s);
    }
}

proof fn lemma_count_some_missing<T>(s: Seq<Option<T>>, k: int)
    requires
        0 <= k < s.len(),
        s[k] is None,
    ensures
        count_some(s) <= s.len() - 1,
    decreases s.len(),
{
    if k == s.len() - 1 {
        lemma_count_some_le_len(s.drop_last());
    } else {
        lemma_count_some_missing(s.drop_last(), k);
    }
}

proof fn lemma_count_some_full<T>(s: Seq<Option<T>>)
    requires
        count_some(s) == s.len(),
    ensures
        forall|i: int| 0 <= i < s.len() ==> s[i] is Some,
    decreases s.len(),
{
    if s.len() > 0 {
        lemma_count_some_le_len(s.drop_last());
        lemma_count_some_full(s.drop_last());
        assert forall|i: int| 0 <= i < s.len() implies s[i] is Some by {
            if i < s.len() - 1 {
                assert(s.drop_last()[i] == s[i]);
            }
        }
    }
}

/// The upgrade candidates among a batch: the articles whose URL resolved,
/// in source order. Articles without a URL are excluded for good.
pub open spec fn candidates_of(s: Seq<ArticleV>) -> Seq<ArticleV>
    decreases s.len(),
{
    if s.len() == 0 {
        Seq::empty()
    } else if s.last().url is Some {
        candidates_of(s.drop_last()).push(s.last())
    } else {
        candidates_of(s.drop_last())
    }
}

/// How many articles of a batch carry a resolvable URL.
pub open spec fn count_with_url(s: Seq<ArticleV>) -> int
    decreases s.len(),
{
    if s.len() == 0 {
        0
    } else {
        count_with_url(s.drop_last()) + (if s.last().url is Some {
            1int
        } else {
            0int
        })
    }
}

/// There is exactly one candidate per URL-bearing article.
pub proof fn lemma_candidates_count(s: Seq<ArticleV>)
    ensures
        candidates_of(s).len() == count_with_url(s),
        count_with_url(s) <= s.len(),
    decreases s.len(),
{
    if s.len() > 0 {
        lemma_candidates_count(s.drop_last());
    }
}

/// Every candidate carries a resolvable URL.
pub proof fn lemma_candidates_have_urls(s: Seq<ArticleV>)
    ensures
        forall|k: int| 0 <= k < candidates_of(s).len() ==> candidates_of(s)[k].url is Some,
    decreases s.len(),
{
    if s.len() > 0 {
        lemma_candidates_have_urls(s.drop_last());
    }
}

/// The assembled result batch: one row per candidate, in candidate order; a
/// delivered body upgrades the candidate, a delivered error is recorded for
/// it. (Slots still empty assemble to a fetch error; `into_results` requires
/// that none are.)
pub open spec fn assemble(
    cands: Seq<ArticleV>,
    outs: Seq<Option<Result<Seq<char>, UpgradeError>>>,
) -> Seq<Result<FullTextArticleV, UpgradeError>> {
    Seq::new(
        cands.len(),
        |i: int|
            match outs[i] {
                Some(Ok(body)) => Ok(upgraded(cands[i], body)),
                Some(Err(e)) => Err(e),
                None => Err(UpgradeError::Fetch),
            },
    )
}

/// How many rows of an assembled batch upgraded successfully.
pub open spec fn count_ok(s: Seq<Result<FullTextArticleV, UpgradeError>>) -> int
    decreases s.len(),
{
    if s.len() == 0 {
        0
    } else {
        count_ok(s.drop_last()) + (if s.last() is Ok {
            1int
        } else {
            0int
        })
    }
}

proof fn lemma_count_ok_le_len(s: Seq<Result<FullTextArticleV, UpgradeError>>)
    ensures
        0 <= count_ok(s) <= s.len(),
    decreases s.len(),
{
    if s.len() > 0 {
        lemma_count_ok_le_len(s.drop_last());
    }
}

/// One `upgrade` run over a batch of summary-stage articles, from partition
/// to assembly.
pub struct UpgradeBatch {
    limit: usize,
    candidates: Vec<Article>,
    outcomes: Vec<Option<Result<HttpContent, UpgradeError>>>,
    started: usize,
    completed: usize,
}

impl UpgradeBatch {
    /// The concurrency ceiling this run was created with.
    pub closed spec fn fetch_limit(&self) -> int {
        self.limit as int
    }

    /// The keyed candidates, in source order.
    pub closed spec fn candidate_views(&self) -> Seq<ArticleV> {
        self.candidates@.map_values(|a: Article| a@)
    }

    /// The outcome slot of each candidate.
    pub closed spec fn outcome_views(&self) -> Seq<Option<Result<Seq<char>, UpgradeError>>> {
        self.outcomes@.map_values(|o: Option<Result<HttpContent, UpgradeError>>| slot_view(o))
    }

    /// How many fetch tasks were handed out so far.
    pub closed spec fn started_count(&self) -> int {
        self.started as int
    }

    /// How many outcomes were delivered so far.
    pub closed spec fn completed_count(&self) -> int {
        self.completed as int
    }

    /// How many fetch tasks hold a permit right now: handed out and not yet
    /// completed.
    pub open spec fn in_flight(&self) -> int {
        self.started_count() - self.completed_count()
    }

    /// The state invariant every reachable batch state satisfies. In
    /// particular, tasks holding a permit never exceed the fetch limit.
    pub closed spec fn wf(&self) -> bool {
        &&& self.limit >= 1
        &&& self.outcomes@.len() == self.candidates@.len()
        &&& self.started <= self.candidates@.len()
        &&& self.completed == count_some(self.outcomes@)
        &&& self.completed <= self.started
        &&& self.started - self.completed <= self.limit
        &&& forall|k: int|
            0 <= k < self.outcomes@.len() && self.outcomes@[k] is Some ==> k < self.started
        &&& forall|k: int|
            0 <= k < self.candidates@.len() ==> (#[trigger] self.candidates@[k])@.url is Some
    }

    /// Start an upgrade run: partition the input into keyed candidates
    /// (articles with a resolvable URL, in source order) and set the permit
    /// capacity. Articles without a URL never appear in this run's output.
    pub fn new(articles: Vec<Article>, limit: usize) -> (b: UpgradeBatch)
        requires
            limit >= 1,
        ensures
            b.wf(),
            b.fetch_limit() == limit,
            b.candidate_views() == candidates_of(articles@.map_values(|a: Article| a@)),
            b.started_count() == 0,
            b.completed_count() == 0,
            b.outcome_views() == Seq::new(
                b.candidate_views().len(),
                |i: int| None::<Result<Seq<char>, UpgradeError>>,
            ),
    {
        let ghost orig = articles@;
        let mut rest = articles;
        let mut candidates: Vec<Article> = Vec::new();
        let mut outcomes: Vec<Option<Result<HttpContent, UpgradeError>>> = Vec::new();
        let ghost mut i: int = 0;
        while rest.len() > 0
            invariant
                0 <= i <= orig.len(),
                rest@ =~= orig.subrange(i, orig.len() as int),
                candidates@.map_values(|a: Article| a@) =~= candidates_of(
                    orig.subrange(0, i).map_values(|a: Article| a@),
                ),
                outcomes@.len() == candidates@.len(),
                forall|k: int| 0 <= k < outcomes@.len() ==> outcomes@[k] is None,
                forall|k: int|
                    0 <= k < candidates@.len() ==> (#[trigger] candidates@[k])@.url is Some,
            decreases rest@.len(),
        {
            let a = rest.remove(0);
            proof {
                assert(a == orig[i]);
                let prefix = orig.subrange(0, i).map_values(|x: Article| x@);
                let next = orig.subrange(0, i + 1).map_values(|x: Article| x@);
                assert(next.drop_last() =~= prefix);
                assert(next.last() == orig[i]@);
            }
            match &a.url {
                Some(_) => {
                    candidates.push(a);
                    outcomes.push(None);
                },
                None => {},
            }
            proof {
                i = i + 1;
            }
        }
        proof {
            assert(orig.subrange(0, orig.len() as int) =~= orig);
        }
        let b = UpgradeBatch { limit, candidates, outcomes, started: 0, completed: 0 };
        proof {
            assert(count_some(b.outcomes@) == 0) by {
                lemma_count_some_none(b.outcomes@);
            }
            assert(b.outcome_views() =~= Seq::new(
                b.candidate_views().len(),
                |i: int| None::<Result<Seq<char>, UpgradeError>>,
            ));
        }
        b
    }

    /// Hand out the next fetch task, if any is pending and a permit is free.
    /// The task carries its candidate's key and that candidate's URL; the
    /// permit it acquires is released by `complete_fetch` under the same key.
    pub fn next_fetch(&mut self) -> (r: Option<FetchRequest>)
        requires
            old(self).wf(),
        ensures
            final(self).wf(),
            final(self).fetch_limit() == old(self).fetch_limit(),
            final(self).candidate_views() == old(self).candidate_views(),
            final(self).outcome_views() == old(self).outcome_views(),
            final(self).completed_count() == old(self).completed_count(),
            r is Some <==> (old(self).started_count() < old(self).candidate_views().len()
                && old(self).in_flight() < old(self).fetch_limit()),
            r matches Some(req) ==> {
                &&& req.key == old(self).started_count()
                &&& final(self).started_count() == old(self).started_count() + 1
                &&& Some(req.url@) == old(self).candidate_views()[req.key as int].url
            },
            r is None ==> final(self).started_count() == old(self).started_count(),
    {
        if self.started < self.candidates.len() && self.started - self.completed < self.limit {
            let k = self.started;
            self.started = self.started + 1;
            let url = self.candidates[k].url.as_ref().unwrap().clone();
            Some(FetchRequest { key: k, url })
        } else {
            None
        }
    }

    /// Deliver the outcome of the fetch task keyed `key`, releasing its
    /// permit. Outcomes may arrive in any order; each key is accepted once,
    /// and an unknown or repeated key is refused.
    pub fn complete_fetch(&mut self, key: usize, outcome: Result<HttpContent, UpgradeError>) -> (accepted:
        bool)
        requires
            old(self).wf(),
        ensures
            final(self).wf(),
            final(self).fetch_limit() == old(self).fetch_limit(),
            final(self).candidate_views() == old(self).candidate_views(),
            final(self).started_count() == old(self).started_count(),
            accepted <==> (key < old(self).started_count() && old(self).outcome_views()[key as int]
                is None),
            accepted ==> {
                &&& final(self).outcome_views() == old(self).outcome_views().update(
                    key as int,
                    Some(outcome_view(outcome)),
                )
                &&& final(self).completed_count() == old(self).completed_count() + 1
            },
            !accepted ==> {
                &&& final(self).outcome_views() == old(self).outcome_views()
                &&& final(self).completed_count() == old(self).completed_count()
            },
    {
        if key < self.started && self.outcomes[key].is_none() {
            let n = self.outcomes.len();
            proof {
                lemma_count_some_update(self.outcomes@, key as int, outcome);
                lemma_count_some_le_len(self.outcomes@.update(key as int, Some(outcome)));
                assert(self.completed + 1 <= n);
                lemma_count_some_prefix(self.outcomes@, self.started as int);
                lemma_count_some_missing(
                    self.outcomes@.subrange(0, self.started as int),
                    key as int,
                );
                assert(self.completed < self.started);
            }
            self.outcomes.set(key, Some(outcome));
            self.completed = self.completed + 1;
            proof {
                assert(final(self).outcome_views() =~= old(self).outcome_views().update(
                    key as int,
                    Some(outcome_view(outcome)),
                ));
            }
            true
        } else {
            false
        }
    }

    /// Whether every candidate's outcome was delivered.
    pub fn is_done(&self) -> (r: bool)
        requires
            self.wf(),
        ensures
            r <==> self.completed_count() == self.candidate_views().len(),
    {
        self.completed == self.candidates.len()
    }

    /// Assemble the run's output once every outcome was delivered: one row
    /// per candidate, in candidate order; a delivered body upgrades the
    /// candidate into its full-text stage, a delivered error is recorded as
    /// that candidate's per-article failure.
    pub fn into_results(self) -> (rs: Vec<Result<FullTextArticle, UpgradeError>>)
        requires
            self.wf(),
            self.completed_count() == self.candidate_views().len(),
        ensures
            rs@.map_values(|r: Result<FullTextArticle, UpgradeError>| result_view(r)) == assemble(
                self.candidate_views(),
                self.outcome_views(),
            ),
    {
        proof {
            lemma_count_some_full(self.outcomes@);
        }
        let ghost gcands = self.candidate_views();
        let ghost gouts = self.outcome_views();
        let UpgradeBatch { limit: _, candidates: mut cands, outcomes: mut outs, started: _, completed: _ } =
            self;
        let mut rs: Vec<Result<FullTextArticle, UpgradeError>> = Vec::new();
        while cands.len() > 0
            invariant
                outs@.len() == cands@.len(),
                rs@.len() + cands@.len() == gcands.len(),
                gouts.len() == gcands.len(),
                forall|j: int|
                    0 <= j < cands@.len() ==> (#[trigger] cands@[j])@ == gcands[rs@.len() + j],
                forall|j: int|
                    0 <= j < outs@.len() ==> slot_view(#[trigger] outs@[j]) == gouts[rs@.len()
                        + j],
                forall|k: int| 0 <= k < gouts.len() ==> gouts[k] is Some,
                forall|k: int| 0 <= k < gcands.len() ==> (#[trigger] gcands[k]).url is Some,
                forall|k: int|
                    0 <= k < rs@.len() ==> result_view(#[trigger] rs@[k]) == assemble(
                        gcands,
                        gouts,
                    )[k],
            decreases cands@.len(),
        {
            let ghost i = rs@.len() as int;
            let ghost pre_cands = cands@;
            let ghost pre_outs = outs@;
            let a = cands.remove(0);
            let o = outs.remove(0);
            proof {
                assert(a@ == gcands[i]);
                assert(slot_view(o) == gouts[i]);
                assert(cands@ =~= pre_cands.subrange(1, pre_cands.len() as int));
                assert(outs@ =~= pre_outs.subrange(1, pre_outs.len() as int));
                assert(forall|j: int|
                    0 <= j < cands@.len() ==> #[trigger] cands@[j] == pre_cands[j + 1]);
                assert(forall|j: int|
                    0 <= j < outs@.len() ==> #[trigger] outs@[j] == pre_outs[j + 1]);
            }
            match o.unwrap() {
                Ok(body) => {
                    rs.push(Ok(a.into_full_text(body.into_string())));
                },
                Err(e) => {
                    rs.push(Err(e));
                },
            }
            proof {
                assert(result_view(rs@[i]) == assemble(gcands, gouts)[i]);
            }
        }
        proof {
            assert(rs@.map_values(|r: Result<FullTextArticle, UpgradeError>| result_view(r))
                =~= assemble(gcands, gouts));
        }
        rs
    }
}

proof fn lemma_count_some_none<T>(s: Seq<Option<T>>)
    requires
        forall|k: int| 0 <= k < s.len() ==> s[k] is None,
    ensures
        count_some(s) == 0,
    decreases s.len(),
{
    if s.len() > 0 {
        lemma_count_some_none(s.drop_last());
    }
}

/// The enrichment pipeline never produces more full-text articles than the
/// input held articles with a resolvable URL: every row of the assembled
/// output answers one URL-bearing candidate.
pub proof fn lemma_upgrade_bounded(
    articles: Seq<ArticleV>,
    outs: Seq<Option<Result<Seq<char>, UpgradeError>>>,
)
    ensures
        count_ok(assemble(candidates_of(articles), outs)) <= count_with_url(articles),
{
    lemma_candidates_count(articles);
    lemma_count_ok_le_len(assemble(candidates_of(articles), outs));
}

/// The fetch limit bounds scheduling, not correctness. The candidates and
/// their keys are fixed by the input articles alone (see `UpgradeBatch::new`),
/// so with deterministic responses the outcome delivered under a key is the
/// same whatever the limit; two completed runs over the same input whose
/// per-key outcomes agree assemble to the same results, whatever their
/// limits were.
pub proof fn lemma_limit_independent(b1: UpgradeBatch, b2: UpgradeBatch)
    requires
        b1.wf(),
        b2.wf(),
        b1.candidate_views() == b2.candidate_views(),
        b1.completed_count() == b1.candidate_views().len(),
        b2.completed_count() == b2.candidate_views().len(),
        forall|k: int|
            0 <= k < b1.outcome_views().len() ==> b1.outcome_views()[k] == b2.outcome_views()[k],
    ensures
        assemble(b1.candidate_views(), b1.outcome_views()) == assemble(
            b2.candidate_views(),
            b2.outcome_views(),
        ),
{
    assert(b1.outcome_views() =~= b2.outcome_views());
}

/// At no point does the number of fetch tasks holding a permit exceed the
/// fetch limit: it is an invariant of every reachable batch state.
pub proof fn lemma_permits_bounded(b: UpgradeBatch)
    requires
        b.wf(),
    ensures
        0 <= b.in_flight() <= b.fetch_limit(),
{
}

/// Enrichment outcomes never touch identifiers: every successfully upgraded
/// row of an assembled batch keeps the identifier its candidate was assigned
/// at normalization time.
pub proof fn lemma_upgrade_preserves_ids(
    cands: Seq<ArticleV>,
    outs: Seq<Option<Result<Seq<char>, UpgradeError>>>,
    k: int,
)
    requires
        0 <= k < cands.len(),
    ensures
        assemble(cands, outs)[k] matches Ok(a) ==> a.id == cands[k].id,
{
}

} // verus!
