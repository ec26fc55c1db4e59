use glimmerkit_build::manifest::ManifestError;
use glimmerkit_build::package::PathError;
use glimmerkit_build::workspace::{workspace, Answer, Progress, Query, Resolver, Unresolved};

fn read(root: &str, manifest: &str) -> (Resolver, Query) {
    let (resolver, query) = workspace(root);
    assert!(matches!(query, Query::Read { .. }));
    resolver.advance(Answer::Content(Some(manifest.to_string())))
}

fn matches(dirs: &[&str]) -> Answer {
    Answer::Matches(dirs.iter().map(|dir| dir.to_string()).collect())
}

#[test]
fn workspace_begins_by_reading_the_manifest() {
    let (resolver, query) = workspace("/repo");
    assert_eq!(query, Query::Read { path: "/repo/pnpm-workspace.yaml".to_string() });
    assert_eq!(resolver.progress(), Progress::Reading);
}

#[test]
fn workspace_expands_the_patterns_in_the_order_of_the_manifest() {
    let (resolver, query) = read("/repo", "packages:\n  - 'packages/*'\n  - 'tools/cli'\n");
    assert_eq!(query, Query::Expand { pattern: "/repo/packages/*".to_string() });
    assert_eq!(resolver.progress(), Progress::Expanding);
    let (resolver, query) = resolver.advance(matches(&["/repo/packages/a", "/repo/packages/b"]));
    assert_eq!(query, Query::Expand { pattern: "/repo/tools/cli".to_string() });
    let (resolver, query) = resolver.advance(matches(&["/repo/tools/cli"]));
    assert_eq!(query, Query::Finish);
    assert_eq!(resolver.progress(), Progress::Finished);
    let packages = resolver.into_packages();
    let roots: Vec<&str> = packages.iter().map(|package| package.pkg_root()).collect();
    assert_eq!(roots, vec!["packages/a", "packages/b", "tools/cli"]);
    assert!(packages.iter().all(|package| package.repo_root() == "/repo"));
}

#[test]
fn workspace_does_not_expand_a_skipped_pattern() {
    let manifest = "packages:\n  - 'a/*'\n  - 'b/*'\nskip-ts:\n  - 'a/*'\n";
    let (resolver, query) = read("/repo", manifest);
    assert_eq!(query, Query::Expand { pattern: "/repo/b/*".to_string() });
    let (resolver, query) = resolver.advance(matches(&["/repo/b/x"]));
    assert_eq!(query, Query::Finish);
    let packages = resolver.into_packages();
    assert_eq!(packages.len(), 1);
    assert_eq!(packages[0].pkg_root(), "b/x");
}

#[test]
fn workspace_expands_the_pattern_again_once_it_is_off_the_skip_list() {
    let manifest = "packages:\n  - 'a/*'\n  - 'b/*'\nskip-ts: []\n";
    let (resolver, query) = read("/repo", manifest);
    assert_eq!(query, Query::Expand { pattern: "/repo/a/*".to_string() });
    let (_, query) = resolver.advance(matches(&["/repo/a/x"]));
    assert_eq!(query, Query::Expand { pattern: "/repo/b/*".to_string() });
}

#[test]
fn workspace_without_patterns_finishes_at_once() {
    let (resolver, query) = read("/repo", "packages: []\n");
    assert_eq!(query, Query::Finish);
    assert_eq!(resolver.progress(), Progress::Finished);
    assert_eq!(resolver.into_packages().len(), 0);
}

#[test]
fn workspace_takes_a_pattern_without_matches() {
    let (resolver, _) = read("/repo", "packages:\n  - 'a/*'\n  - 'b'\n");
    let (resolver, query) = resolver.advance(matches(&[]));
    assert_eq!(query, Query::Expand { pattern: "/repo/b".to_string() });
    let (resolver, query) = resolver.advance(matches(&["/repo/b"]));
    assert_eq!(query, Query::Finish);
    assert_eq!(resolver.into_packages().len(), 1);
}

#[test]
fn workspace_takes_an_absolute_pattern_as_it_is() {
    let (_, query) = read("/repo", "packages:\n  - '/elsewhere/*'\n");
    assert_eq!(query, Query::Expand { pattern: "/elsewhere/*".to_string() });
}

#[test]
fn workspace_refuses_a_missing_manifest() {
    let (resolver, _) = workspace("/repo");
    let (resolver, query) = resolver.advance(Answer::Content(None));
    assert_eq!(query, Query::Refuse { reason: Unresolved::Manifest(ManifestError::Missing) });
    assert_eq!(resolver.progress(), Progress::Refused);
    assert_eq!(resolver.into_packages().len(), 0);
}

#[test]
fn workspace_refuses_a_manifest_of_the_wrong_shape() {
    let (_, query) = read("/repo", "packages: 1\n");
    assert_eq!(
        query,
        Query::Refuse { reason: Unresolved::Manifest(ManifestError::MissingPackages) }
    );
    let (_, query) = read("/repo", "packages:\n  - a\nskip-ts:\n  - 1\n");
    assert_eq!(query, Query::Refuse { reason: Unresolved::Manifest(ManifestError::InvalidSkip) });
    let (_, query) = read("/repo", "packages: [a");
    assert_eq!(query, Query::Refuse { reason: Unresolved::Manifest(ManifestError::Malformed) });
}

#[test]
fn workspace_refuses_a_match_that_no_relative_path_reaches() {
    let (resolver, _) = read("/repo", "packages:\n  - 'a/*'\n");
    let (resolver, query) = resolver.advance(matches(&["/repo/a/x", "a/y"]));
    assert_eq!(query, Query::Refuse { reason: Unresolved::Path(PathError::Unrelated) });
    assert_eq!(resolver.progress(), Progress::Refused);
    assert_eq!(resolver.into_packages().len(), 0);
}

#[test]
fn workspace_refuses_an_answer_out_of_turn() {
    let (resolver, _) = workspace("/repo");
    let (resolver, query) = resolver.advance(matches(&["/repo/a"]));
    assert_eq!(query, Query::Refuse { reason: Unresolved::OutOfTurn });
    let (_, query) = resolver.advance(Answer::Content(Some("packages: []\n".to_string())));
    assert_eq!(query, Query::Refuse { reason: Unresolved::OutOfTurn });

    let (resolver, _) = read("/repo", "packages:\n  - a\n");
    let (_, query) = resolver.advance(Answer::Content(None));
    assert_eq!(query, Query::Refuse { reason: Unresolved::OutOfTurn });

    let (resolver, query) = read("/repo", "packages: []\n");
    assert_eq!(query, Query::Finish);
    let (_, query) = resolver.advance(matches(&[]));
    assert_eq!(query, Query::Refuse { reason: Unresolved::OutOfTurn });
}
