use r2::filter::IgnoreFilter;
use r2::scanner::{PathKind, RootOutcome, Scanner};

/// Drive the scanner over an in-memory tree: each entry maps a directory
/// path to its entries (path, kind), the way a directory read reports them.
fn scan(filter: &IgnoreFilter, roots: &[(&str, PathKind)], dirs: &[(&str, Vec<(&str, PathKind)>)]) -> Vec<String> {
    let mut scanner = Scanner::new();
    for (path, kind) in roots {
        scanner.add_root(filter, path.to_string(), *kind);
    }
    while let Some(dir) = scanner.next_dir() {
        let entries = dirs
            .iter()
            .find(|(d, _)| *d == dir)
            .map(|(_, es)| es.as_slice())
            .unwrap_or(&[]);
        for (path, kind) in entries {
            scanner.add_entry(filter, path.to_string(), *kind);
        }
    }
    scanner.into_files()
}

#[test]
fn scan_filters_ignored_files() {
    // A directory holding a.py, a.pyc and a.png yields exactly a.py.
    let filter = IgnoreFilter::new();
    let files = scan(
        &filter,
        &[("d", PathKind::Directory)],
        &[(
            "d",
            vec![
                ("d/a.py", PathKind::File),
                ("d/a.pyc", PathKind::File),
                ("d/a.png", PathKind::File),
            ],
        )],
    );
    assert_eq!(files, vec!["d/a.py".to_string()]);
}

#[test]
fn scan_collects_whole_nested_tree() {
    // Root file plus subdirectory and nested-subdirectory files, nothing
    // ignored: all three are collected, whatever order they come back in.
    let filter = IgnoreFilter::new();
    let mut files = scan(
        &filter,
        &[("d", PathKind::Directory)],
        &[
            (
                "d",
                vec![("d/root.txt", PathKind::File), ("d/sub", PathKind::Directory)],
            ),
            (
                "d/sub",
                vec![("d/sub/sub.txt", PathKind::File), ("d/sub/nested", PathKind::Directory)],
            ),
            ("d/sub/nested", vec![("d/sub/nested/nested.txt", PathKind::File)]),
        ],
    );
    files.sort();
    assert_eq!(
        files,
        vec![
            "d/root.txt".to_string(),
            "d/sub/nested/nested.txt".to_string(),
            "d/sub/sub.txt".to_string(),
        ]
    );
}

#[test]
fn scan_missing_path_is_skipped() {
    // A missing path yields nothing and is no fatal error; a mix of one
    // missing and one valid path yields only the valid path's contents.
    let filter = IgnoreFilter::new();
    let files = scan(&filter, &[("/nonexistent/path", PathKind::Missing)], &[]);
    assert!(files.is_empty());

    let files = scan(
        &filter,
        &[
            ("/nonexistent/path", PathKind::Missing),
            ("d", PathKind::Directory),
        ],
        &[("d", vec![("d/data.txt", PathKind::File)])],
    );
    assert_eq!(files, vec!["d/data.txt".to_string()]);
}

#[test]
fn scan_single_file_root() {
    let filter = IgnoreFilter::new();
    let mut scanner = Scanner::new();
    let outcome = scanner.add_root(&filter, "single.txt".to_string(), PathKind::File);
    assert_eq!(outcome, RootOutcome::Included);
    assert_eq!(scanner.file_count(), 1);
    assert_eq!(scanner.into_files(), vec!["single.txt".to_string()]);
}

#[test]
fn scan_root_outcomes() {
    let filter = IgnoreFilter::new();
    let mut scanner = Scanner::new();
    assert_eq!(
        scanner.add_root(&filter, "gone".to_string(), PathKind::Missing),
        RootOutcome::MissingSkipped
    );
    assert_eq!(
        scanner.add_root(&filter, "pic.png".to_string(), PathKind::File),
        RootOutcome::Ignored
    );
    assert_eq!(
        scanner.add_root(&filter, "src".to_string(), PathKind::Directory),
        RootOutcome::Queued
    );
    assert_eq!(scanner.file_count(), 0);
    assert_eq!(scanner.next_dir(), Some("src".to_string()));
    assert_eq!(scanner.next_dir(), None);
}

#[test]
fn scan_directories_are_never_collected() {
    let filter = IgnoreFilter::new();
    let files = scan(
        &filter,
        &[("d", PathKind::Directory)],
        &[("d", vec![("d/sub", PathKind::Directory)]), ("d/sub", vec![])],
    );
    assert!(files.is_empty());
}
