//! The Enricher's results and the two reports built from them.
//!
//! After the listing is drained, each repository is enriched with two
//! independent sub-queries: its deploy keys and its direct collaborators. A
//! per-repository failure is recoverable: it is recorded against that
//! repository in both reports and the run continues. A repository with
//! nothing to show is omitted from a report, because the report exists to
//! highlight items needing action.

use vstd::prelude::*;
use vstd::string::StringExecFns;
use crate::records::Key;
use crate::records::KeyV;
use crate::records::RepoCollaborator;
use crate::records::RepoCollaboratorV;
use crate::records::Repository;
use crate::records::RepositoryV;
use crate::records::clone_keys;
use crate::records::clone_collaborators;

verus! {

/// Why one repository's enrichment failed: the repository no longer exists,
/// the authenticated identity lacks access, or the transport failed.
#[derive(Clone, Copy, PartialEq, Eq, Structural, Debug)]
pub enum EnrichError {
    NotFound,
    Forbidden,
    Transport,
}

/// The text of one enrichment failure, as the reports annotate it.
pub open spec fn error_text(e: EnrichError) -> Seq<char> {
    match e {
        EnrichError::NotFound => "not found"@,
        EnrichError::Forbidden => "forbidden"@,
        EnrichError::Transport => "transport error"@,
    }
}

impl EnrichError {
    /// A short diagnostic for the operator.
    pub fn message(&self) -> (r: String)
        ensures
            r@ == error_text(*self),
    {
        match self {
            EnrichError::NotFound => String::from_str("not found"),
            EnrichError::Forbidden => String::from_str("forbidden"),
            EnrichError::Transport => String::from_str("transport error"),
        }
    }
}

/// What the two sub-queries for one repository produced: its deploy keys
/// and its direct collaborators, each possibly empty.
#[derive(Debug, PartialEq)]
pub struct Enrichment {
    pub keys: Vec<Key>,
    pub collaborators: Vec<RepoCollaborator>,
}

/// Mathematical view of an `Enrichment`.
pub struct EnrichmentV {
    pub keys: Seq<KeyV>,
    pub collaborators: Seq<RepoCollaboratorV>,
}

impl DeepView for Enrichment {
    type V = EnrichmentV;

    open spec fn deep_view(&self) -> EnrichmentV {
        EnrichmentV { keys: self.keys.deep_view(), collaborators: self.collaborators.deep_view() }
    }
}

/// How enriching one repository went: both sub-queries answered, or the
/// repository's enrichment failed as a whole.
#[derive(Debug, PartialEq)]
pub enum EnrichOutcome {
    Fetched(Enrichment),
    Failed(EnrichError),
}

/// Mathematical view of an `EnrichOutcome`.
pub enum EnrichOutcomeV {
    Fetched(EnrichmentV),
    Failed(EnrichError),
}

impl DeepView for EnrichOutcome {
    type V = EnrichOutcomeV;

    open spec fn deep_view(&self) -> EnrichOutcomeV {
        match self {
            EnrichOutcome::Fetched(e) => EnrichOutcomeV::Fetched(e.deep_view()),
            EnrichOutcome::Failed(err) => EnrichOutcomeV::Failed(*err),
        }
    }
}

/// Copies one enrichment outcome, preserving its deep view.
pub fn clone_outcome(o: &EnrichOutcome) -> (r: EnrichOutcome)
    ensures
        r.deep_view() == o.deep_view(),
{
    match o {
        EnrichOutcome::Fetched(e) => EnrichOutcome::Fetched(
            Enrichment {
                keys: clone_keys(&e.keys),
                collaborators: clone_collaborators(&e.collaborators),
            },
        ),
        EnrichOutcome::Failed(err) => EnrichOutcome::Failed(*err),
    }
}

/// One block of the deploy-keys report: a repository with at least one
/// key, or a repository whose enrichment failed.
#[derive(Debug, PartialEq)]
pub enum KeyReportEntry {
    Keys { repo: String, keys: Vec<Key> },
    Failure { repo: String, error: EnrichError },
}

/// Mathematical view of a `KeyReportEntry`.
pub enum KeyReportEntryV {
    Keys { repo: Seq<char>, keys: Seq<KeyV> },
    Failure { repo: Seq<char>, error: EnrichError },
}

impl DeepView for KeyReportEntry {
    type V = KeyReportEntryV;

    open spec fn deep_view(&self) -> KeyReportEntryV {
        match self {
            KeyReportEntry::Keys { repo, keys } => KeyReportEntryV::Keys {
                repo: repo@,
                keys: keys.deep_view(),
            },
            KeyReportEntry::Failure { repo, error } => KeyReportEntryV::Failure {
                repo: repo@,
                error: *error,
            },
        }
    }
}

/// One block of the collaborators report: a repository with at least one
/// direct collaborator, or a repository whose enrichment failed.
#[derive(Debug, PartialEq)]
pub enum CollabReportEntry {
    Collaborators { repo: String, collaborators: Vec<RepoCollaborator> },
    Failure { repo: String, error: EnrichError },
}

/// Mathematical view of a `CollabReportEntry`.
pub enum CollabReportEntryV {
    Collaborators { repo: Seq<char>, collaborators: Seq<RepoCollaboratorV> },
    Failure { repo: Seq<char>, error: EnrichError },
}

impl DeepView for CollabReportEntry {
    type V = CollabReportEntryV;

    open spec fn deep_view(&self) -> CollabReportEntryV {
        match self {
            CollabReportEntry::Collaborators { repo, collaborators } => {
                CollabReportEntryV::Collaborators {
                    repo: repo@,
                    collaborators: collaborators.deep_view(),
                }
            },
            CollabReportEntry::Failure { repo, error } => CollabReportEntryV::Failure {
                repo: repo@,
                error: *error,
            },
        }
    }
}

/// What one repository contributes to the deploy-keys report: its block
/// when it has keys, its failure annotation when enrichment failed, and
/// nothing when it has no keys.
pub open spec fn key_entries_of(repo: RepositoryV, outcome: EnrichOutcomeV) -> Seq<
    KeyReportEntryV,
> {
    match outcome {
        EnrichOutcomeV::Fetched(e) => if e.keys.len() > 0 {
            seq![KeyReportEntryV::Keys { repo: repo.name, keys: e.keys }]
        } else {
            Seq::empty()
        },
        EnrichOutcomeV::Failed(err) => seq![
            KeyReportEntryV::Failure { repo: repo.name, error: err },
        ],
    }
}

/// What one repository contributes to the collaborators report.
pub open spec fn collab_entries_of(repo: RepositoryV, outcome: EnrichOutcomeV) -> Seq<
    CollabReportEntryV,
> {
    match outcome {
        EnrichOutcomeV::Fetched(e) => if e.collaborators.len() > 0 {
            seq![
                CollabReportEntryV::Collaborators {
                    repo: repo.name,
                    collaborators: e.collaborators,
                },
            ]
        } else {
            Seq::empty()
        },
        EnrichOutcomeV::Failed(err) => seq![
            CollabReportEntryV::Failure { repo: repo.name, error: err },
        ],
    }
}

/// The deploy-keys report for repositories `repos` with enrichment
/// outcomes `outcomes`, in listing order.
pub open spec fn key_report_spec(repos: Seq<RepositoryV>, outcomes: Seq<EnrichOutcomeV>) -> Seq<
    KeyReportEntryV,
>
    decreases repos.len(),
{
    if repos.len() == 0 {
        Seq::empty()
    } else {
        key_report_spec(repos.drop_last(), outcomes.drop_last()) + key_entries_of(
            repos.last(),
            outcomes.last(),
        )
    }
}

/// The collaborators report for repositories `repos` with enrichment
/// outcomes `outcomes`, in listing order.
pub open spec fn collab_report_spec(repos: Seq<RepositoryV>, outcomes: Seq<EnrichOutcomeV>) -> Seq<
    CollabReportEntryV,
>
    decreases repos.len(),
{
    if repos.len() == 0 {
        Seq::empty()
    } else {
        collab_report_spec(repos.drop_last(), outcomes.drop_last()) + collab_entries_of(
            repos.last(),
            outcomes.last(),
        )
    }
}

/// Builds both reports from the drained listing and the per-repository
/// enrichment outcomes, pairing them position by position.
pub fn build_reports(repos: &Vec<Repository>, outcomes: &Vec<EnrichOutcome>) -> (r: (
    Vec<KeyReportEntry>,
    Vec<CollabReportEntry>,
))
    requires
        repos@.len() == outcomes@.len(),
    ensures
        r.0.deep_view() == key_report_spec(repos.deep_view(), outcomes.deep_view()),
        r.1.deep_view() == collab_report_spec(repos.deep_view(), outcomes.deep_view()),
{
    let ghost rs = repos.deep_view();
    let ghost os = outcomes.deep_view();
    let mut key_report: Vec<KeyReportEntry> = Vec::new();
    let mut collab_report: Vec<CollabReportEntry> = Vec::new();
    let mut i: usize = 0;
    proof {
        assert(key_report.deep_view() =~= key_report_spec(rs.take(0), os.take(0)));
        assert(collab_report.deep_view() =~= collab_report_spec(rs.take(0), os.take(0)));
    }
    while i < repos.len()
        invariant
            repos@.len() == outcomes@.len(),
            rs == repos.deep_view(),
            os == outcomes.deep_view(),
            i <= repos@.len(),
            key_report.deep_view() == key_report_spec(rs.take(i as int), os.take(i as int)),
            collab_report.deep_view() == collab_report_spec(rs.take(i as int), os.take(i as int)),
        decreases repos@.len() - i,
    {
        let ghost k0 = key_report.deep_view();
        let ghost c0 = collab_report.deep_view();
        match &outcomes[i] {
            EnrichOutcome::Fetched(e) => {
                if e.keys.len() > 0 {
                    key_report.push(
                        KeyReportEntry::Keys {
                            repo: repos[i].name.clone(),
                            keys: clone_keys(&e.keys),
                        },
                    );
                }
                if e.collaborators.len() > 0 {
                    collab_report.push(
                        CollabReportEntry::Collaborators {
                            repo: repos[i].name.clone(),
                            collaborators: clone_collaborators(&e.collaborators),
                        },
                    );
                }
            },
            EnrichOutcome::Failed(err) => {
                key_report.push(
                    KeyReportEntry::Failure { repo: repos[i].name.clone(), error: *err },
                );
                collab_report.push(
                    CollabReportEntry::Failure { repo: repos[i].name.clone(), error: *err },
                );
            },
        }
        proof {
            let i1 = i + 1 as int;
            assert(rs.take(i1).drop_last() =~= rs.take(i as int));
            assert(os.take(i1).drop_last() =~= os.take(i as int));
            assert(rs.take(i1).last() == rs[i as int]);
            assert(os.take(i1).last() == os[i as int]);
            assert(key_report.deep_view() =~= k0 + key_entries_of(rs[i as int], os[i as int]));
            assert(collab_report.deep_view() =~= c0 + collab_entries_of(
                rs[i as int],
                os[i as int],
            ));
        }
        i = i + 1;
    }
    proof {
        assert(rs.take(rs.len() as int) =~= rs);
        assert(os.take(os.len() as int) =~= os);
    }
    (key_report, collab_report)
}

/// Reports distribute over splitting the repository sequence anywhere: the
/// report of a concatenation is the concatenation of the reports.
pub proof fn lemma_report_concat(
    r1: Seq<RepositoryV>,
    o1: Seq<EnrichOutcomeV>,
    r2: Seq<RepositoryV>,
    o2: Seq<EnrichOutcomeV>,
)
    requires
        r1.len() == o1.len(),
        r2.len() == o2.len(),
    ensures
        key_report_spec(r1 + r2, o1 + o2) == key_report_spec(r1, o1) + key_report_spec(r2, o2),
        collab_report_spec(r1 + r2, o1 + o2) == collab_report_spec(r1, o1) + collab_report_spec(
            r2,
            o2,
        ),
    decreases r2.len(),
{
    if r2.len() == 0 {
        assert(r1 + r2 =~= r1);
        assert(o1 + o2 =~= o1);
        assert(key_report_spec(r2, o2) == Seq::<KeyReportEntryV>::empty());
        assert(key_report_spec(r1, o1) + Seq::<KeyReportEntryV>::empty() =~= key_report_spec(
            r1,
            o1,
        ));
        assert(collab_report_spec(r2, o2) == Seq::<CollabReportEntryV>::empty());
        assert(collab_report_spec(r1, o1) + Seq::<CollabReportEntryV>::empty()
            =~= collab_report_spec(r1, o1));
    } else {
        lemma_report_concat(r1, o1, r2.drop_last(), o2.drop_last());
        assert((r1 + r2).drop_last() =~= r1 + r2.drop_last());
        assert((o1 + o2).drop_last() =~= o1 + o2.drop_last());
        assert((r1 + r2).last() == r2.last());
        assert((o1 + o2).last() == o2.last());
        assert((key_report_spec(r1, o1) + key_report_spec(r2.drop_last(), o2.drop_last()))
            + key_entries_of(r2.last(), o2.last()) =~= key_report_spec(r1, o1) + (key_report_spec(
            r2.drop_last(),
            o2.drop_last(),
        ) + key_entries_of(r2.last(), o2.last())));
        assert((collab_report_spec(r1, o1) + collab_report_spec(r2.drop_last(), o2.drop_last()))
            + collab_entries_of(r2.last(), o2.last()) =~= collab_report_spec(r1, o1) + (
        collab_report_spec(r2.drop_last(), o2.drop_last()) + collab_entries_of(
            r2.last(),
            o2.last(),
        )));
    }
}

/// What one repository contributes stands alone: the reports split into
/// the part before position `i`, that repository's own contribution, and
/// the part after it — the parts before and after do not depend on the
/// outcome at `i`.
pub proof fn lemma_report_locality(repos: Seq<RepositoryV>, outcomes: Seq<EnrichOutcomeV>, i: int)
    requires
        repos.len() == outcomes.len(),
        0 <= i < repos.len(),
    ensures
        key_report_spec(repos, outcomes) == key_report_spec(repos.take(i), outcomes.take(i))
            + key_entries_of(repos[i], outcomes[i]) + key_report_spec(
            repos.skip(i + 1),
            outcomes.skip(i + 1),
        ),
        collab_report_spec(repos, outcomes) == collab_report_spec(
            repos.take(i),
            outcomes.take(i),
        ) + collab_entries_of(repos[i], outcomes[i]) + collab_report_spec(
            repos.skip(i + 1),
            outcomes.skip(i + 1),
        ),
{
    let mid_r = seq![repos[i]];
    let mid_o = seq![outcomes[i]];
    assert(repos =~= (repos.take(i) + mid_r) + repos.skip(i + 1));
    assert(outcomes =~= (outcomes.take(i) + mid_o) + outcomes.skip(i + 1));
    lemma_report_concat(repos.take(i) + mid_r, outcomes.take(i) + mid_o, repos.skip(i + 1), outcomes.skip(i + 1));
    lemma_report_concat(repos.take(i), outcomes.take(i), mid_r, mid_o);
    assert(key_report_spec(mid_r, mid_o) == key_report_spec(mid_r.drop_last(), mid_o.drop_last())
        + key_entries_of(mid_r.last(), mid_o.last()));
    assert(mid_r.drop_last() =~= Seq::<RepositoryV>::empty());
    assert(mid_o.drop_last() =~= Seq::<EnrichOutcomeV>::empty());
    assert(key_report_spec(Seq::empty(), Seq::empty()) == Seq::<KeyReportEntryV>::empty());
    assert(Seq::<KeyReportEntryV>::empty() + key_entries_of(repos[i], outcomes[i])
        =~= key_entries_of(repos[i], outcomes[i]));
    assert(collab_report_spec(mid_r, mid_o) == collab_report_spec(
        mid_r.drop_last(),
        mid_o.drop_last(),
    ) + collab_entries_of(mid_r.last(), mid_o.last()));
    assert(collab_report_spec(Seq::empty(), Seq::empty()) == Seq::<CollabReportEntryV>::empty());
    assert(Seq::<CollabReportEntryV>::empty() + collab_entries_of(repos[i], outcomes[i])
        =~= collab_entries_of(repos[i], outcomes[i]));
}

/// An outcome that fetched no deploy key and no collaborator.
pub open spec fn clean_outcome(o: EnrichOutcomeV) -> bool {
    o matches EnrichOutcomeV::Fetched(e) && e.keys.len() == 0 && e.collaborators.len() == 0
}

/// A repository with zero deploy keys and zero collaborators produces no
/// entry in either report: both reports read as if it were not listed.
pub proof fn lemma_clean_repo_omitted(repos: Seq<RepositoryV>, outcomes: Seq<EnrichOutcomeV>, i: int)
    requires
        repos.len() == outcomes.len(),
        0 <= i < repos.len(),
        clean_outcome(outcomes[i]),
    ensures
        key_report_spec(repos, outcomes) == key_report_spec(repos.remove(i), outcomes.remove(i)),
        collab_report_spec(repos, outcomes) == collab_report_spec(
            repos.remove(i),
            outcomes.remove(i),
        ),
{
    lemma_report_locality(repos, outcomes, i);
    assert(key_entries_of(repos[i], outcomes[i]) =~= Seq::<KeyReportEntryV>::empty());
    assert(collab_entries_of(repos[i], outcomes[i]) =~= Seq::<CollabReportEntryV>::empty());
    assert(repos.remove(i) =~= repos.take(i) + repos.skip(i + 1));
    assert(outcomes.remove(i) =~= outcomes.take(i) + outcomes.skip(i + 1));
    lemma_report_concat(repos.take(i), outcomes.take(i), repos.skip(i + 1), outcomes.skip(i + 1));
    assert(key_report_spec(repos.take(i), outcomes.take(i)) + Seq::<KeyReportEntryV>::empty()
        + key_report_spec(repos.skip(i + 1), outcomes.skip(i + 1)) =~= key_report_spec(
        repos.take(i),
        outcomes.take(i),
    ) + key_report_spec(repos.skip(i + 1), outcomes.skip(i + 1)));
    assert(collab_report_spec(repos.take(i), outcomes.take(i))
        + Seq::<CollabReportEntryV>::empty() + collab_report_spec(
        repos.skip(i + 1),
        outcomes.skip(i + 1),
    ) =~= collab_report_spec(repos.take(i), outcomes.take(i)) + collab_report_spec(
        repos.skip(i + 1),
        outcomes.skip(i + 1),
    ));
}

/// A failure at position `i` surfaces as exactly one annotated entry in
/// each report, and leaves the entries of the repositories before and
/// after it untouched.
pub proof fn lemma_failure_is_local(
    repos: Seq<RepositoryV>,
    outcomes: Seq<EnrichOutcomeV>,
    i: int,
    err: EnrichError,
)
    requires
        repos.len() == outcomes.len(),
        0 <= i < repos.len(),
        outcomes[i] == EnrichOutcomeV::Failed(err),
    ensures
        key_report_spec(repos, outcomes) == key_report_spec(repos.take(i), outcomes.take(i))
            + seq![KeyReportEntryV::Failure { repo: repos[i].name, error: err }]
            + key_report_spec(repos.skip(i + 1), outcomes.skip(i + 1)),
        collab_report_spec(repos, outcomes) == collab_report_spec(
            repos.take(i),
            outcomes.take(i),
        ) + seq![CollabReportEntryV::Failure { repo: repos[i].name, error: err }]
            + collab_report_spec(repos.skip(i + 1), outcomes.skip(i + 1)),
{
    lemma_report_locality(repos, outcomes, i);
}

} // verus!
