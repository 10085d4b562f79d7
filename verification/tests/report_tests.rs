use repo_audit::Key;
use repo_audit::Permissions;
use repo_audit::RepoCollaborator;
use repo_audit::Repository;
use repo_audit::report::CollabReportEntry;
use repo_audit::report::EnrichError;
use repo_audit::report::EnrichOutcome;
use repo_audit::report::Enrichment;
use repo_audit::report::KeyReportEntry;
use repo_audit::report::build_reports;
use repo_audit::render::render_collab_section;
use repo_audit::render::render_key_section;

fn repo(name: &str) -> Repository {
    Repository { name: name.to_string() }
}

fn key(title: &str, url: &str) -> Key {
    Key {
        id: 1,
        key: "ssh-rsa AAAA".to_string(),
        url: url.to_string(),
        title: title.to_string(),
        verified: true,
        created_at: "2020-01-01T00:00:00Z".to_string(),
        read_only: true,
    }
}

fn collaborator(login: &str) -> RepoCollaborator {
    RepoCollaborator {
        login: login.to_string(),
        id: 7,
        extras: vec![],
        permissions: Permissions { admin: false, push: true, pull: true },
    }
}

fn fetched(keys: Vec<Key>, collaborators: Vec<RepoCollaborator>) -> EnrichOutcome {
    EnrichOutcome::Fetched(Enrichment { keys, collaborators })
}

#[test]
fn clean_repository_is_omitted_from_both_reports() {
    let rs = vec![repo("quiet")];
    let os = vec![fetched(vec![], vec![])];
    let (keys_report, collabs_report) = build_reports(&rs, &os);
    assert!(keys_report.is_empty());
    assert!(collabs_report.is_empty());
}

#[test]
fn failure_does_not_disturb_neighbouring_repositories() {
    let rs = vec![repo("before"), repo("broken"), repo("after")];
    let os = vec![
        fetched(vec![key("k1", "u1")], vec![]),
        EnrichOutcome::Failed(EnrichError::NotFound),
        fetched(vec![], vec![collaborator("carol")]),
    ];
    let (keys_report, collabs_report) = build_reports(&rs, &os);
    assert_eq!(keys_report.len(), 2);
    assert_eq!(
        keys_report[0],
        KeyReportEntry::Keys { repo: "before".to_string(), keys: vec![key("k1", "u1")] }
    );
    assert_eq!(
        keys_report[1],
        KeyReportEntry::Failure { repo: "broken".to_string(), error: EnrichError::NotFound }
    );
    assert_eq!(collabs_report.len(), 2);
    assert_eq!(
        collabs_report[0],
        CollabReportEntry::Failure { repo: "broken".to_string(), error: EnrichError::NotFound }
    );
    assert_eq!(
        collabs_report[1],
        CollabReportEntry::Collaborators {
            repo: "after".to_string(),
            collaborators: vec![collaborator("carol")],
        }
    );
}

#[test]
fn reports_keep_listing_order() {
    let rs = vec![repo("z"), repo("a")];
    let os = vec![
        fetched(vec![key("zk", "zu")], vec![]),
        fetched(vec![key("ak", "au")], vec![]),
    ];
    let (keys_report, _) = build_reports(&rs, &os);
    assert_eq!(keys_report.len(), 2);
    assert!(matches!(&keys_report[0], KeyReportEntry::Keys { repo, .. } if repo == "z"));
    assert!(matches!(&keys_report[1], KeyReportEntry::Keys { repo, .. } if repo == "a"));
}

#[test]
fn error_messages_name_each_failure() {
    assert_eq!(EnrichError::NotFound.message(), "not found".to_string());
    assert_eq!(EnrichError::Forbidden.message(), "forbidden".to_string());
    assert_eq!(EnrichError::Transport.message(), "transport error".to_string());
}

#[test]
fn key_section_renders_title_and_url_lines() {
    let entries = vec![KeyReportEntry::Keys {
        repo: "infra".to_string(),
        keys: vec![key("ci-bot", "https://example.test/keys/1")],
    }];
    let lines = render_key_section(&entries);
    assert_eq!(
        lines,
        vec![
            ":: DEPLOY KEYS ::".to_string(),
            "infra".to_string(),
            "Key: ci-bot".to_string(),
            "Url: https://example.test/keys/1".to_string(),
            "".to_string(),
        ]
    );
}

#[test]
fn collab_section_renders_username_lines() {
    let entries = vec![CollabReportEntry::Collaborators {
        repo: "infra".to_string(),
        collaborators: vec![collaborator("alice"), collaborator("bob")],
    }];
    let lines = render_collab_section(&entries);
    assert_eq!(
        lines,
        vec![
            ":: Repository users ::".to_string(),
            "infra".to_string(),
            "Username: alice".to_string(),
            "Username: bob".to_string(),
            "".to_string(),
        ]
    );
}

#[test]
fn failure_renders_as_an_annotated_line() {
    let entries = vec![KeyReportEntry::Failure {
        repo: "gone".to_string(),
        error: EnrichError::Forbidden,
    }];
    let lines = render_key_section(&entries);
    assert_eq!(
        lines,
        vec![
            ":: DEPLOY KEYS ::".to_string(),
            "gone".to_string(),
            "Error: forbidden".to_string(),
            "".to_string(),
        ]
    );
}

#[test]
fn empty_reports_render_headers_only() {
    let lines = render_key_section(&vec![]);
    assert_eq!(lines, vec![":: DEPLOY KEYS ::".to_string()]);
    let lines = render_collab_section(&vec![]);
    assert_eq!(lines, vec![":: Repository users ::".to_string()]);
}
