use repo_audit::Repository;
use repo_audit::pager::Listing;
use repo_audit::pager::Page;
use repo_audit::pager::PageResponse;
use repo_audit::pager::Pager;
use repo_audit::pager::drain_listing;
use repo_audit::pager::paginate;

fn repos(names: &[&str]) -> Vec<Repository> {
    names.iter().map(|n| Repository { name: n.to_string() }).collect()
}

fn names_of(v: &[Repository]) -> Vec<String> {
    v.iter().map(|r| r.name.clone()).collect()
}

#[test]
fn paging_result_is_independent_of_page_size() {
    let listing_names = ["one", "two", "three", "four", "five"];
    for page_size in [1usize, 2, 3, 4, 5, 7, 100] {
        let l = paginate(repos(&listing_names), page_size);
        let drained = drain_listing(&l).expect("well-formed listing must drain");
        assert_eq!(names_of(&drained), listing_names.to_vec());
    }
}

#[test]
fn empty_repository_set_pages_to_one_empty_page() {
    let l = paginate(repos(&[]), 100);
    assert_eq!(l.pages.len(), 1);
    let drained = drain_listing(&l).expect("well-formed listing must drain");
    assert!(drained.is_empty());
}

#[test]
fn drain_stops_when_final_page_has_no_cursor() {
    let l = Listing {
        pages: vec![
            PageResponse::Page(Page { items: repos(&["a"]), next: Some(1) }),
            PageResponse::Page(Page { items: repos(&["b"]), next: None }),
        ],
    };
    let drained = drain_listing(&l).expect("chained listing must drain");
    assert_eq!(names_of(&drained), vec!["a".to_string(), "b".to_string()]);
}

#[test]
fn malformed_page_aborts_the_listing() {
    let l = Listing {
        pages: vec![
            PageResponse::Page(Page { items: repos(&["a"]), next: Some(1) }),
            PageResponse::Malformed,
        ],
    };
    assert!(drain_listing(&l).is_err());
}

#[test]
fn missing_first_page_aborts_the_listing() {
    let l = Listing { pages: vec![] };
    assert!(drain_listing(&l).is_err());
}

#[test]
fn dangling_cursor_aborts_the_listing() {
    let l = Listing {
        pages: vec![PageResponse::Page(Page { items: repos(&["a"]), next: Some(7) })],
    };
    assert!(drain_listing(&l).is_err());
}

#[test]
fn cyclic_cursor_chain_terminates_with_an_error() {
    let l = Listing {
        pages: vec![PageResponse::Page(Page { items: repos(&["a"]), next: Some(0) })],
    };
    assert!(drain_listing(&l).is_err());
}

#[test]
fn pager_accumulates_pages_in_order() {
    let mut pager = Pager::new();
    assert!(!pager.finished);
    pager.absorb(repos(&["a", "b"]), true);
    assert!(!pager.finished);
    pager.absorb(repos(&["c"]), false);
    assert!(pager.finished);
    let all = pager.into_repos();
    assert_eq!(names_of(&all), vec!["a".to_string(), "b".to_string(), "c".to_string()]);
}

#[test]
fn listing_incomplete_has_a_distinct_message() {
    let e = repo_audit::pager::ListingIncomplete;
    assert_eq!(e.message(), "repository listing incomplete".to_string());
}
