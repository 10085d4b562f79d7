use repo_audit::Key;
use repo_audit::Permissions;
use repo_audit::RepoCollaborator;
use repo_audit::Repository;
use repo_audit::audit::EnrichmentPlan;
use repo_audit::audit::run_audit;
use repo_audit::pager::Listing;
use repo_audit::pager::Page;
use repo_audit::pager::PageResponse;
use repo_audit::pager::paginate;
use repo_audit::report::EnrichError;
use repo_audit::report::EnrichOutcome;
use repo_audit::report::Enrichment;

fn repo(name: &str) -> Repository {
    Repository { name: name.to_string() }
}

fn fetched(keys: Vec<Key>, collaborators: Vec<RepoCollaborator>) -> EnrichOutcome {
    EnrichOutcome::Fetched(Enrichment { keys, collaborators })
}

fn ci_bot_key() -> Key {
    Key {
        id: 1,
        key: "ssh-rsa AAAA".to_string(),
        url: "https://example.test/repos/a/keys/1".to_string(),
        title: "ci-bot".to_string(),
        verified: true,
        created_at: "2020-01-01T00:00:00Z".to_string(),
        read_only: true,
    }
}

fn alice() -> RepoCollaborator {
    RepoCollaborator {
        login: "alice".to_string(),
        id: 42,
        extras: vec![],
        permissions: Permissions { admin: true, push: true, pull: true },
    }
}

#[test]
fn three_repository_scenario() {
    let listing = paginate(vec![repo("a"), repo("b"), repo("c")], 2);
    let plan = EnrichmentPlan {
        entries: vec![
            ("a".to_string(), fetched(vec![ci_bot_key()], vec![])),
            ("b".to_string(), fetched(vec![], vec![alice()])),
            ("c".to_string(), fetched(vec![], vec![])),
        ],
    };
    let (key_lines, collab_lines) = run_audit(&listing, &plan).expect("listing drains");
    assert_eq!(
        key_lines,
        vec![
            ":: DEPLOY KEYS ::".to_string(),
            "a".to_string(),
            "Key: ci-bot".to_string(),
            "Url: https://example.test/repos/a/keys/1".to_string(),
            "".to_string(),
        ]
    );
    assert_eq!(
        collab_lines,
        vec![
            ":: Repository users ::".to_string(),
            "b".to_string(),
            "Username: alice".to_string(),
            "".to_string(),
        ]
    );
}

#[test]
fn malformed_listing_emits_no_report_at_all() {
    let listing = Listing {
        pages: vec![
            PageResponse::Page(Page { items: vec![repo("a")], next: Some(1) }),
            PageResponse::Malformed,
        ],
    };
    let plan = EnrichmentPlan { entries: vec![] };
    assert!(run_audit(&listing, &plan).is_err());
}

#[test]
fn repository_unknown_to_the_platform_is_annotated_not_found() {
    let listing = paginate(vec![repo("vanished")], 100);
    let plan = EnrichmentPlan { entries: vec![] };
    let (key_lines, collab_lines) = run_audit(&listing, &plan).expect("listing drains");
    assert_eq!(
        key_lines,
        vec![
            ":: DEPLOY KEYS ::".to_string(),
            "vanished".to_string(),
            "Error: not found".to_string(),
            "".to_string(),
        ]
    );
    assert_eq!(
        collab_lines,
        vec![
            ":: Repository users ::".to_string(),
            "vanished".to_string(),
            "Error: not found".to_string(),
            "".to_string(),
        ]
    );
}

#[test]
fn failed_enrichment_keeps_neighbours_in_the_run() {
    let listing = paginate(vec![repo("a"), repo("b"), repo("c")], 1);
    let plan = EnrichmentPlan {
        entries: vec![
            ("a".to_string(), fetched(vec![ci_bot_key()], vec![])),
            ("b".to_string(), EnrichOutcome::Failed(EnrichError::Transport)),
            ("c".to_string(), fetched(vec![], vec![alice()])),
        ],
    };
    let (key_lines, collab_lines) = run_audit(&listing, &plan).expect("listing drains");
    assert_eq!(
        key_lines,
        vec![
            ":: DEPLOY KEYS ::".to_string(),
            "a".to_string(),
            "Key: ci-bot".to_string(),
            "Url: https://example.test/repos/a/keys/1".to_string(),
            "".to_string(),
            "b".to_string(),
            "Error: transport error".to_string(),
            "".to_string(),
        ]
    );
    assert_eq!(
        collab_lines,
        vec![
            ":: Repository users ::".to_string(),
            "b".to_string(),
            "Error: transport error".to_string(),
            "".to_string(),
            "c".to_string(),
            "Username: alice".to_string(),
            "".to_string(),
        ]
    );
}
