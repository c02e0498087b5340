use ai_client::locator::{candidate_paths, first_existing, locate, BuildMode, NotFound};
use ai_client::paths::BackendPath;

fn path(base: &str, segments: &[&str]) -> BackendPath {
    BackendPath {
        base_dir: base.to_string(),
        segments: segments.iter().map(|s| s.to_string()).collect(),
    }
}

fn packaged(base: &str) -> Vec<BackendPath> {
    vec![
        path(base, &["binaries", "api-server", "api-server.exe"]),
        path(base, &["binaries", "api-server.exe"]),
        path(base, &["api-server", "api-server.exe"]),
        path(base, &["api-server.exe"]),
    ]
}

#[test]
fn development_candidates_in_order() {
    let candidates = candidate_paths(BuildMode::Development, "/work");
    assert_eq!(
        candidates,
        vec![
            path("/work", &["backend", "dist", "api-server", "api-server.exe"]),
            path("/work", &["backend", "dist", "api-server.exe"]),
            path("/work", &["src-tauri", "binaries", "api-server", "api-server.exe"]),
            path("/work", &["src-tauri", "binaries", "api-server.exe"]),
        ]
    );
}

#[test]
fn packaged_candidates_in_order() {
    assert_eq!(candidate_paths(BuildMode::Packaged, "C:\\app\\res"), packaged("C:\\app\\res"));
}

#[test]
fn candidates_keep_an_empty_base() {
    let candidates = candidate_paths(BuildMode::Packaged, "");
    assert_eq!(candidates.len(), 4);
    assert!(candidates.iter().all(|c| c.base_dir.is_empty()));
}

#[test]
fn path_join_and_parent() {
    let exe = BackendPath::new("/r").join("binaries").join("api-server.exe");
    assert_eq!(exe, path("/r", &["binaries", "api-server.exe"]));
    assert_eq!(exe.parent(), Some(path("/r", &["binaries"])));
    assert_eq!(path("/r", &["binaries"]).parent(), Some(path("/r", &[])));
    assert_eq!(BackendPath::new("/r").parent(), None);
    assert_eq!(exe.clone(), exe);
}

#[test]
fn locate_returns_the_first_that_exists() {
    let found = locate(BuildMode::Packaged, "/r", &vec![false, true, true, false]);
    assert_eq!(found, Ok(path("/r", &["binaries", "api-server.exe"])));
}

#[test]
fn locate_prefers_the_earliest_candidate() {
    let found = locate(BuildMode::Development, "/w", &vec![true, true, true, true]);
    assert_eq!(found, Ok(path("/w", &["backend", "dist", "api-server", "api-server.exe"])));
}

#[test]
fn locate_finds_the_last_candidate() {
    let found = locate(BuildMode::Packaged, "/r", &vec![false, false, false, true]);
    assert_eq!(found, Ok(path("/r", &["api-server.exe"])));
}

#[test]
fn locate_fails_with_every_candidate_when_none_exists() {
    let found = locate(BuildMode::Packaged, "/r", &vec![false, false, false, false]);
    assert_eq!(found, Err(NotFound { candidates: packaged("/r") }));
}

#[test]
fn a_candidate_without_a_report_counts_as_absent() {
    assert_eq!(
        locate(BuildMode::Packaged, "/r", &vec![]),
        Err(NotFound { candidates: packaged("/r") })
    );
    assert_eq!(
        locate(BuildMode::Packaged, "/r", &vec![false, false]),
        Err(NotFound { candidates: packaged("/r") })
    );
}

#[test]
fn reports_beyond_the_candidates_are_ignored() {
    let found = locate(BuildMode::Packaged, "/r", &vec![false, false, false, false, true]);
    assert_eq!(found, Err(NotFound { candidates: packaged("/r") }));
}

#[test]
fn first_existing_follows_the_order_of_the_list() {
    let a = path("/x", &["a"]);
    let b = path("/x", &["b"]);
    let c = path("/x", &["c"]);
    // b and c exist, in every ordering the earlier of them in the list wins
    let found = first_existing(vec![a.clone(), b.clone(), c.clone()], &vec![false, true, true]);
    assert_eq!(found, Ok(b.clone()));
    let found = first_existing(vec![c.clone(), a.clone(), b.clone()], &vec![true, false, true]);
    assert_eq!(found, Ok(c.clone()));
    let found = first_existing(vec![a.clone(), c.clone(), b.clone()], &vec![false, true, true]);
    assert_eq!(found, Ok(c.clone()));
    let found = first_existing(vec![b.clone(), c.clone(), a.clone()], &vec![true, true, false]);
    assert_eq!(found, Ok(b));
}

#[test]
fn first_existing_on_an_empty_list() {
    assert_eq!(first_existing(vec![], &vec![true]), Err(NotFound { candidates: vec![] }));
}

#[test]
fn first_existing_keeps_the_order_in_not_found() {
    let list = vec![path("/x", &["b"]), path("/x", &["a"])];
    let found = first_existing(list.clone(), &vec![false, false]);
    assert_eq!(found, Err(NotFound { candidates: list }));
}
