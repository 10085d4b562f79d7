//! Renders the two reports into their output lines.
//!
//! Each section opens with its header; every repository block gives the
//! repository name, one line per item, and a separating blank line. A
//! repository whose enrichment failed is annotated with the failure text
//! instead of items.

use vstd::prelude::*;
use vstd::string::StringExecFns;
use crate::records::KeyV;
use crate::records::RepoCollaboratorV;
use crate::report::CollabReportEntry;
use crate::report::CollabReportEntryV;
use crate::report::KeyReportEntry;
use crate::report::KeyReportEntryV;
use crate::report::error_text;

verus! {

/// The two lines one deploy key contributes: its title and its URL.
pub open spec fn key_pair_lines(keys: Seq<KeyV>) -> Seq<Seq<char>>
    decreases keys.len(),
{
    if keys.len() == 0 {
        Seq::empty()
    } else {
        key_pair_lines(keys.drop_last()) + seq![
            "Key: "@ + keys.last().title,
            "Url: "@ + keys.last().url,
        ]
    }
}

/// The line one collaborator contributes: the account to consider revoking.
pub open spec fn collab_lines(cs: Seq<RepoCollaboratorV>) -> Seq<Seq<char>>
    decreases cs.len(),
{
    if cs.len() == 0 {
        Seq::empty()
    } else {
        collab_lines(cs.drop_last()) + seq!["Username: "@ + cs.last().login]
    }
}

/// The block of lines one deploy-keys report entry renders to.
pub open spec fn key_block_lines(e: KeyReportEntryV) -> Seq<Seq<char>> {
    match e {
        KeyReportEntryV::Keys { repo, keys } => seq![repo] + key_pair_lines(keys) + seq![
            Seq::<char>::empty(),
        ],
        KeyReportEntryV::Failure { repo, error } => seq![
            repo,
            "Error: "@ + error_text(error),
            Seq::<char>::empty(),
        ],
    }
}

/// The block of lines one collaborators report entry renders to.
pub open spec fn collab_block_lines(e: CollabReportEntryV) -> Seq<Seq<char>> {
    match e {
        CollabReportEntryV::Collaborators { repo, collaborators } => seq![repo] + collab_lines(
            collaborators,
        ) + seq![Seq::<char>::empty()],
        CollabReportEntryV::Failure { repo, error } => seq![
            repo,
            "Error: "@ + error_text(error),
            Seq::<char>::empty(),
        ],
    }
}

/// The deploy-keys report's blocks, in report order.
pub open spec fn key_report_lines(entries: Seq<KeyReportEntryV>) -> Seq<Seq<char>>
    decreases entries.len(),
{
    if entries.len() == 0 {
        Seq::empty()
    } else {
        key_report_lines(entries.drop_last()) + key_block_lines(entries.last())
    }
}

/// The collaborators report's blocks, in report order.
pub open spec fn collab_report_lines(entries: Seq<CollabReportEntryV>) -> Seq<Seq<char>>
    decreases entries.len(),
{
    if entries.len() == 0 {
        Seq::empty()
    } else {
        collab_report_lines(entries.drop_last()) + collab_block_lines(entries.last())
    }
}

/// The whole deploy-keys section: its header, then the blocks.
pub open spec fn key_section_lines(entries: Seq<KeyReportEntryV>) -> Seq<Seq<char>> {
    seq![":: DEPLOY KEYS ::"@] + key_report_lines(entries)
}

/// The whole collaborators section: its header, then the blocks.
pub open spec fn collab_section_lines(entries: Seq<CollabReportEntryV>) -> Seq<Seq<char>> {
    seq![":: Repository users ::"@] + collab_report_lines(entries)
}

/// Renders the deploy-keys report into its output lines.
pub fn render_key_section(entries: &Vec<KeyReportEntry>) -> (lines: Vec<String>)
    ensures
        lines.deep_view() == key_section_lines(entries.deep_view()),
{
    let ghost es = entries.deep_view();
    let mut out: Vec<String> = Vec::new();
    out.push(String::from_str(":: DEPLOY KEYS ::"));
    proof {
        assert(out.deep_view() =~= seq![":: DEPLOY KEYS ::"@] + key_report_lines(es.take(0)));
    }
    let mut i: usize = 0;
    while i < entries.len()
        invariant
            es == entries.deep_view(),
            i <= entries@.len(),
            out.deep_view() == seq![":: DEPLOY KEYS ::"@] + key_report_lines(es.take(i as int)),
        decreases entries@.len() - i,
    {
        let ghost base = out.deep_view();
        match &entries[i] {
            KeyReportEntry::Keys { repo, keys } => {
                out.push(repo.clone());
                let ghost ks = keys.deep_view();
                let mut j: usize = 0;
                proof {
                    assert(out.deep_view() =~= base + seq![repo@] + key_pair_lines(ks.take(0)));
                }
                while j < keys.len()
                    invariant
                        ks == keys.deep_view(),
                        j <= keys@.len(),
                        out.deep_view() == base + seq![repo@] + key_pair_lines(ks.take(j as int)),
                    decreases keys@.len() - j,
                {
                    let ghost o0 = out.deep_view();
                    let mut line = String::from_str("Key: ");
                    line.append(keys[j].title.as_str());
                    out.push(line);
                    let mut line2 = String::from_str("Url: ");
                    line2.append(keys[j].url.as_str());
                    out.push(line2);
                    proof {
                        let j1 = j + 1 as int;
                        assert(ks.take(j1).drop_last() =~= ks.take(j as int));
                        assert(ks.take(j1).last() == ks[j as int]);
                        assert(out.deep_view() =~= o0 + seq![
                            "Key: "@ + ks[j as int].title,
                            "Url: "@ + ks[j as int].url,
                        ]);
                        assert(out.deep_view() =~= base + seq![repo@] + key_pair_lines(
                            ks.take(j1),
                        ));
                    }
                    j = j + 1;
                }
                let ghost o1 = out.deep_view();
                out.push(String::new());
                proof {
                    assert(ks.take(ks.len() as int) =~= ks);
                    assert(o1 == base + seq![repo@] + key_pair_lines(ks));
                    assert(out.deep_view() =~= o1 + seq![Seq::<char>::empty()]);
                    assert(es[i as int] == entries@[i as int].deep_view());
                    assert(es[i as int] == (KeyReportEntryV::Keys { repo: repo@, keys: ks }));
                    assert(key_block_lines(es[i as int]) == seq![repo@] + key_pair_lines(ks)
                        + seq![Seq::<char>::empty()]);
                    assert((base + seq![repo@] + key_pair_lines(ks)) + seq![Seq::<char>::empty()]
                        =~= base + (seq![repo@] + key_pair_lines(ks) + seq![Seq::<char>::empty()]));
                    assert(out.deep_view() =~= base + key_block_lines(es[i as int]));
                }
            },
            KeyReportEntry::Failure { repo, error } => {
                out.push(repo.clone());
                let mut line = String::from_str("Error: ");
                let m = error.message();
                line.append(m.as_str());
                out.push(line);
                out.push(String::new());
                proof {
                    assert(out.deep_view() =~= base + key_block_lines(es[i as int]));
                }
            },
        }
        proof {
            let i1 = i + 1 as int;
            assert(es.take(i1).drop_last() =~= es.take(i as int));
            assert(es.take(i1).last() == es[i as int]);
            assert(out.deep_view() =~= seq![":: DEPLOY KEYS ::"@] + key_report_lines(
                es.take(i1),
            ));
        }
        i = i + 1;
    }
    proof {
        assert(es.take(es.len() as int) =~= es);
    }
    out
}

/// Renders the collaborators report into its output lines.
pub fn render_collab_section(entries: &Vec<CollabReportEntry>) -> (lines: Vec<String>)
    ensures
        lines.deep_view() == collab_section_lines(entries.deep_view()),
{
    let ghost es = entries.deep_view();
    let mut out: Vec<String> = Vec::new();
    out.push(String::from_str(":: Repository users ::"));
    proof {
        assert(out.deep_view() =~= seq![":: Repository users ::"@] + collab_report_lines(
            es.take(0),
        ));
    }
    let mut i: usize = 0;
    while i < entries.len()
        invariant
            es == entries.deep_view(),
            i <= entries@.len(),
            out.deep_view() == seq![":: Repository users ::"@] + collab_report_lines(
                es.take(i as int),
            ),
        decreases entries@.len() - i,
    {
        let ghost base = out.deep_view();
        match &entries[i] {
            CollabReportEntry::Collaborators { repo, collaborators } => {
                out.push(repo.clone());
                let ghost cs = collaborators.deep_view();
                let mut j: usize = 0;
                proof {
                    assert(out.deep_view() =~= base + seq![repo@] + collab_lines(cs.take(0)));
                }
                while j < collaborators.len()
                    invariant
                        cs == collaborators.deep_view(),
                        j <= collaborators@.len(),
                        out.deep_view() == base + seq![repo@] + collab_lines(cs.take(j as int)),
                    decreases collaborators@.len() - j,
                {
                    let ghost o0 = out.deep_view();
                    let mut line = String::from_str("Username: ");
                    line.append(collaborators[j].login.as_str());
                    out.push(line);
                    proof {
                        let j1 = j + 1 as int;
                        assert(cs.take(j1).drop_last() =~= cs.take(j as int));
                        assert(cs.take(j1).last() == cs[j as int]);
                        assert(out.deep_view() =~= o0 + seq!["Username: "@ + cs[j as int].login]);
                        assert(out.deep_view() =~= base + seq![repo@] + collab_lines(cs.take(j1)));
                    }
                    j = j + 1;
                }
                let ghost o1 = out.deep_view();
                out.push(String::new());
                proof {
                    assert(cs.take(cs.len() as int) =~= cs);
                    assert(o1 == base + seq![repo@] + collab_lines(cs));
                    assert(out.deep_view() =~= o1 + seq![Seq::<char>::empty()]);
                    assert(es[i as int] == entries@[i as int].deep_view());
                    assert(es[i as int] == (CollabReportEntryV::Collaborators {
                        repo: repo@,
                        collaborators: cs,
                    }));
                    assert(collab_block_lines(es[i as int]) == seq![repo@] + collab_lines(cs)
                        + seq![Seq::<char>::empty()]);
                    assert((base + seq![repo@] + collab_lines(cs)) + seq![Seq::<char>::empty()]
                        =~= base + (seq![repo@] + collab_lines(cs) + seq![Seq::<char>::empty()]));
                    assert(out.deep_view() =~= base + collab_block_lines(es[i as int]));
                }
            },
            CollabReportEntry::Failure { repo, error } => {
                out.push(repo.clone());
                let mut line = String::from_str("Error: ");
                let m = error.message();
                line.append(m.as_str());
                out.push(line);
                out.push(String::new());
                proof {
                    assert(out.deep_view() =~= base + collab_block_lines(es[i as int]));
                }
            },
        }
        proof {
            let i1 = i + 1 as int;
            assert(es.take(i1).drop_last() =~= es.take(i as int));
            assert(es.take(i1).last() == es[i as int]);
            assert(out.deep_view() =~= seq![":: Repository users ::"@] + collab_report_lines(
                es.take(i1),
            ));
        }
        i = i + 1;
    }
    proof {
        assert(es.take(es.len() as int) =~= es);
    }
    out
}

} // verus!
