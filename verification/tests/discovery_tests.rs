use git_pilot::discovery::{
    is_git_metadata_dir, relative_or_dot, sort_repositories, to_repository_summary,
    DiscoveredRepositories,
};

#[test]
fn summary_is_relative_to_the_searched_directory() {
    let s = to_repository_summary("/work", "/work/nested/two".to_string());
    assert_eq!(s.relative_path, "nested/two");
    assert_eq!(s.name, "two");
    assert_eq!(s.path, "/work/nested/two");
    assert_eq!(s.id.0, "/work/nested/two");
    let root = to_repository_summary("/work", "/work".to_string());
    assert_eq!(root.relative_path, ".");
    let outside = to_repository_summary("/work", "/elsewhere/repo".to_string());
    assert_eq!(outside.relative_path, "/elsewhere/repo");
    assert_eq!(relative_or_dot(""), ".");
    assert_eq!(relative_or_dot("a"), "a");
}

#[test]
fn root_repository_first_then_by_path_without_duplicates() {
    let mut found = DiscoveredRepositories::new();
    assert!(found.record("/w", "/w/one".to_string()));
    assert!(found.record("/w", "/w/nested/two".to_string()));
    assert!(found.record("/w", "/w".to_string()));
    assert!(!found.record("/w", "/w/one".to_string()));
    let repos = found.into_sorted();
    let rel: Vec<&str> = repos.iter().map(|r| r.relative_path.as_str()).collect();
    assert_eq!(rel, vec![".", "nested/two", "one"]);
}

#[test]
fn path_order_is_by_component() {
    let repos = vec![
        to_repository_summary("/w", "/w/a-b".to_string()),
        to_repository_summary("/w", "/w/a/b".to_string()),
    ];
    let sorted = sort_repositories(repos);
    let rel: Vec<&str> = sorted.iter().map(|r| r.relative_path.as_str()).collect();
    assert_eq!(rel, vec!["a/b", "a-b"]);
    assert!(is_git_metadata_dir(".git"));
    assert!(!is_git_metadata_dir("git"));
}

#[test]
fn path_order_follows_path_components() {
    let paths = ["b", "a/./c", "a/b", "..", "./z", "/abs", "a//b/", "."];
    let repos = paths
        .iter()
        .map(|p| {
            let mut s = to_repository_summary("/w", "/w/x".to_string());
            s.relative_path = p.to_string();
            s
        })
        .collect();
    let sorted = sort_repositories(repos);
    let rel: Vec<&str> = sorted.iter().map(|r| r.relative_path.as_str()).collect();
    assert_eq!(rel, vec![".", "/abs", "./z", "..", "a/b", "a//b/", "a/./c", "b"]);

    // The same order as std's own comparison of paths, with `.` first.
    let mut expected: Vec<&str> = paths.to_vec();
    expected.sort_by(|l, r| {
        let (ld, rd) = (std::path::Path::new(l) == std::path::Path::new("."), std::path::Path::new(r) == std::path::Path::new("."));
        rd.cmp(&ld).then_with(|| std::path::Path::new(l).cmp(std::path::Path::new(r)))
    });
    assert_eq!(rel, expected);
}
