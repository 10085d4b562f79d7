//! The Aggregator: one audit run end to end.
//!
//! A run drains the repository listing once, asks for each repository's
//! enrichment, builds the two reports, and renders them. A listing failure
//! is fatal and emits no report at all; a per-repository enrichment failure
//! is folded into the reports and the run continues.

use vstd::prelude::*;
use crate::pager::Listing;
use crate::pager::ListingIncomplete;
use crate::pager::PageResponse;
use crate::pager::drain_listing;
use crate::pager::listing_malformed_at;
use crate::pager::lemma_malformed_listing_fails;
use crate::pager::walk;
use crate::records::RepositoryV;
use crate::render::collab_section_lines;
use crate::render::key_section_lines;
use crate::render::render_collab_section;
use crate::render::render_key_section;
use crate::report::EnrichError;
use crate::report::EnrichOutcome;
use crate::report::EnrichOutcomeV;
use crate::report::build_reports;
use crate::report::clone_outcome;
use crate::report::collab_report_spec;
use crate::report::key_report_spec;

verus! {

/// How the platform answers each repository's enrichment: one outcome per
/// repository name. A name without an entry answers as a repository that is
/// no longer there, as the platform does for one deleted between the
/// listing and the sub-queries.
pub struct EnrichmentPlan {
    pub entries: Vec<(String, EnrichOutcome)>,
}

/// The outcome a plan holds for one repository name: the first entry
/// carrying that name, or a not-found failure when none does.
pub open spec fn plan_outcome(
    entries: Seq<(Seq<char>, EnrichOutcomeV)>,
    name: Seq<char>,
) -> EnrichOutcomeV
    decreases entries.len(),
{
    if entries.len() == 0 {
        EnrichOutcomeV::Failed(EnrichError::NotFound)
    } else if entries.first().0 == name {
        entries.first().1
    } else {
        plan_outcome(entries.drop_first(), name)
    }
}

/// The outcomes a plan answers for a repository sequence, position by
/// position.
pub open spec fn plan_outcomes(
    entries: Seq<(Seq<char>, EnrichOutcomeV)>,
    repos: Seq<RepositoryV>,
) -> Seq<EnrichOutcomeV> {
    Seq::new(repos.len(), |i: int| plan_outcome(entries, repos[i].name))
}

impl EnrichmentPlan {
    /// Looks one repository's enrichment outcome up by name.
    pub fn outcome_for(&self, name: &String) -> (r: EnrichOutcome)
        ensures
            r.deep_view() == plan_outcome(self.entries.deep_view(), name@),
    {
        let ghost es = self.entries.deep_view();
        let mut i: usize = 0;
        proof {
            assert(es.skip(0) =~= es);
        }
        while i < self.entries.len()
            invariant
                es == self.entries.deep_view(),
                i <= self.entries@.len(),
                plan_outcome(es, name@) == plan_outcome(es.skip(i as int), name@),
            decreases self.entries@.len() - i,
        {
            proof {
                assert(es.skip(i as int).len() > 0);
                assert(es.skip(i as int).first() == es[i as int]);
                assert(es[i as int] == self.entries@[i as int].deep_view());
            }
            if self.entries[i].0 == *name {
                let r = clone_outcome(&self.entries[i].1);
                proof {
                    assert(es.skip(i as int).first().0 == name@);
                }
                return r;
            }
            proof {
                assert(es.skip(i as int).first().0 != name@);
                assert(es.skip(i as int).drop_first() =~= es.skip(i + 1 as int));
            }
            i = i + 1;
        }
        proof {
            assert(es.skip(es.len() as int) =~= Seq::<(Seq<char>, EnrichOutcomeV)>::empty());
        }
        EnrichOutcome::Failed(EnrichError::NotFound)
    }
}

/// The meaning of one audit run over a listing and an enrichment plan: the
/// rendered deploy-keys and collaborators sections when the listing drains
/// completely, and the distinct listing error — with no report at all —
/// when it does not.
pub open spec fn audit_spec(
    pages: Seq<PageResponse>,
    entries: Seq<(Seq<char>, EnrichOutcomeV)>,
) -> Result<(Seq<Seq<char>>, Seq<Seq<char>>), ListingIncomplete> {
    match walk(pages, 0, pages.len() as nat) {
        Ok(rs) => Ok(
            (
                key_section_lines(key_report_spec(rs, plan_outcomes(entries, rs))),
                collab_section_lines(collab_report_spec(rs, plan_outcomes(entries, rs))),
            ),
        ),
        Err(e) => Err(e),
    }
}

/// The result of a run, seen mathematically.
pub open spec fn audited(r: Result<(Vec<String>, Vec<String>), ListingIncomplete>) -> Result<
    (Seq<Seq<char>>, Seq<Seq<char>>),
    ListingIncomplete,
> {
    match r {
        Ok(p) => Ok((p.0.deep_view(), p.1.deep_view())),
        Err(e) => Err(e),
    }
}

/// One complete audit run: drain the listing, enrich every repository from
/// the plan, build both reports, and render their output lines.
pub fn run_audit(listing: &Listing, plan: &EnrichmentPlan) -> (r: Result<
    (Vec<String>, Vec<String>),
    ListingIncomplete,
>)
    ensures
        audited(r) == audit_spec(listing.pages@, plan.entries.deep_view()),
{
    let ghost pes = plan.entries.deep_view();
    let repos = match drain_listing(listing) {
        Ok(v) => v,
        Err(e) => {
            return Err(e);
        },
    };
    let ghost rs = repos.deep_view();
    let mut outcomes: Vec<EnrichOutcome> = Vec::new();
    let mut i: usize = 0;
    while i < repos.len()
        invariant
            pes == plan.entries.deep_view(),
            rs == repos.deep_view(),
            i <= repos@.len(),
            outcomes@.len() == i,
            forall|j: int|
                0 <= j < i ==> outcomes@[j].deep_view() == plan_outcome(pes, rs[j].name),
        decreases repos@.len() - i,
    {
        let o = plan.outcome_for(&repos[i].name);
        proof {
            assert(rs[i as int].name == repos@[i as int].name@);
        }
        outcomes.push(o);
        i = i + 1;
    }
    proof {
        assert(outcomes.deep_view() =~= plan_outcomes(pes, rs));
    }
    let reports = build_reports(&repos, &outcomes);
    let key_lines = render_key_section(&reports.0);
    let collab_lines = render_collab_section(&reports.1);
    Ok((key_lines, collab_lines))
}

/// A listing that goes malformed at any point emits no report: the whole
/// run answers with the distinct listing error alone.
pub proof fn lemma_malformed_listing_emits_no_reports(
    pages: Seq<PageResponse>,
    entries: Seq<(Seq<char>, EnrichOutcomeV)>,
    k: int,
)
    requires
        listing_malformed_at(pages, k),
        pages.len() <= usize::MAX,
    ensures
        audit_spec(pages, entries) == Err::<(Seq<Seq<char>>, Seq<Seq<char>>), ListingIncomplete>(
            ListingIncomplete,
        ),
{
    lemma_malformed_listing_fails(pages, k);
}

} // verus!
