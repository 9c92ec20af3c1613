use git_summary::paths::deep_filter;
use git_summary::paths::is_git_dir;
use git_summary::paths::is_hidden;
use git_summary::paths::shorten;
use git_summary::refname::parse_remote_from_ref;
use git_summary::render::pad_equals;

#[test]
fn shorten_keeps_base_name_as_prefix() {
    assert_eq!(
        shorten("/home/u/projects", "/home/u/projects/tool"),
        "projects/tool"
    );
    assert_eq!(shorten("/home/u/projects", "/home/u/projects"), "projects");
}

#[test]
fn shorten_without_parent_keeps_path() {
    assert_eq!(shorten("projects", "projects/tool"), "projects/tool");
}

#[test]
fn shorten_under_the_root_strips_the_leading_separator() {
    assert_eq!(shorten("/srv", "/srv/repo"), "srv/repo");
    assert_eq!(shorten("/a", "/a/b"), "a/b");
    assert_eq!(shorten("/", "/x/y"), "x/y");
    assert_eq!(shorten("/a", "x/y"), "x/y");
    assert_eq!(shorten("/a", "/"), "");
}

#[test]
fn shorten_does_not_split_components() {
    assert_eq!(shorten("/a/b/c", "/a/bc/x"), "/a/bc/x");
    assert_eq!(shorten("/a/b", "/a/bc/x"), "bc/x");
    assert_eq!(shorten("/a/b", "/a"), "");
    assert_eq!(shorten("/a/b", "/x/y"), "/x/y");
}

#[test]
fn git_dir_and_hidden_names() {
    assert!(is_git_dir(".git"));
    assert!(!is_git_dir(".gitignore"));
    assert!(!is_git_dir("git"));
    assert!(is_hidden(".config"));
    assert!(!is_hidden(".git"));
    assert!(!is_hidden("src"));
    assert!(!is_hidden(""));
}

#[test]
fn walk_filter_depth_and_hiding() {
    assert!(deep_filter(false, ".cache", 1));
    assert!(deep_filter(true, ".cache", 1));
    assert!(deep_filter(false, "src", 3));
    assert!(!deep_filter(true, "src", 3));
    assert!(!deep_filter(false, "src", 2));
    assert!(!deep_filter(false, ".git", 1));
}

#[test]
fn header_padding() {
    assert_eq!(pad_equals(5), "=====");
    assert_eq!(pad_equals(0), "");
}

#[test]
fn parses_remote_tracking_names() {
    assert_eq!(
        parse_remote_from_ref(true, "refs/remotes/origin/main"),
        Some(("origin".to_string(), "main".to_string()))
    );
    // Only the fourth segment names the branch; deeper segments are dropped.
    assert_eq!(
        parse_remote_from_ref(true, "refs/remotes/origin/feature/x"),
        Some(("origin".to_string(), "feature".to_string()))
    );
    assert_eq!(
        parse_remote_from_ref(true, "refs/remotes/upstream/"),
        Some(("upstream".to_string(), "".to_string()))
    );
}

#[test]
fn rejects_non_remote_names() {
    assert_eq!(parse_remote_from_ref(false, "refs/remotes/origin/main"), None);
    assert_eq!(parse_remote_from_ref(true, "refs/heads/main"), None);
    assert_eq!(parse_remote_from_ref(true, "refs/remotes/origin"), None);
    assert_eq!(parse_remote_from_ref(true, "refs/remotes"), None);
    assert_eq!(parse_remote_from_ref(true, ""), None);
}
