use glimmerkit_build::root::{git_root, Trail};

#[test]
fn search_begins_in_the_directory_itself() {
    let (_, trail) = git_root("/home/me/repo/packages/a");
    assert_eq!(trail, Trail::Probe { path: "/home/me/repo/packages/a/.git".to_string() });
}

#[test]
fn search_finds_the_directory_that_holds_the_marker() {
    let (search, _) = git_root("/home/me/repo");
    let (_, trail) = search.advance(true);
    assert_eq!(trail, Trail::Found { root: "/home/me/repo".to_string() });
}

#[test]
fn search_finds_the_nearest_directory_that_holds_the_marker() {
    let (search, _) = git_root("/home/me/repo/packages/a");
    let (search, trail) = search.advance(false);
    assert_eq!(trail, Trail::Probe { path: "/home/me/repo/packages/.git".to_string() });
    let (search, trail) = search.advance(false);
    assert_eq!(trail, Trail::Probe { path: "/home/me/repo/.git".to_string() });
    let (search, trail) = search.advance(true);
    assert_eq!(trail, Trail::Found { root: "/home/me/repo".to_string() });
    let (_, trail) = search.advance(true);
    assert_eq!(trail, Trail::Lost);
}

#[test]
fn search_is_lost_above_the_top() {
    let (search, _) = git_root("/home");
    let (search, trail) = search.advance(false);
    assert_eq!(trail, Trail::Probe { path: "/.git".to_string() });
    let (search, trail) = search.advance(false);
    assert_eq!(trail, Trail::Lost);
    let (_, trail) = search.advance(false);
    assert_eq!(trail, Trail::Lost);
}

#[test]
fn search_from_a_relative_directory_ends_at_the_current_one() {
    let (search, trail) = git_root("a");
    assert_eq!(trail, Trail::Probe { path: "a/.git".to_string() });
    let (search, trail) = search.advance(false);
    assert_eq!(trail, Trail::Probe { path: ".git".to_string() });
    let (_, trail) = search.advance(false);
    assert_eq!(trail, Trail::Lost);
}
