use gitwrapped::{GitError, Phase, Repo, Search, Step};
use std::io;
use std::path::Path;

// Drives a search to its end, answering each probe with `probe`.
fn locate<F: Fn(&str) -> Result<bool, io::Error>>(path: &str, probe: F) -> Result<Repo, GitError> {
    let mut search = Search::start(path);
    loop {
        let target = search.probe_path();
        match search.advance(probe(&target)) {
            Step::Probe(next) => search = next,
            Step::Done(result) => return result,
        }
    }
}

// Probes a made-up filesystem: each entry is a path and whether it is a directory.
fn in_tree(entries: &[(&str, bool)], p: &str) -> Result<bool, io::Error> {
    for (path, is_dir) in entries {
        if *path == p {
            return Ok(*is_dir);
        }
    }
    Err(io::Error::new(io::ErrorKind::NotFound, "no such entry"))
}

const TREE: [(&str, bool); 7] = [
    ("/", true),
    ("/root", true),
    ("/root/.git", true),
    ("/root/sub1", true),
    ("/root/sub1/sub2", true),
    ("/root/sub1/sub2/sub3", true),
    ("/root/sub1/sub2/sub3/file", false),
];

#[test]
fn at() {
    assert_eq!(Repo::at("/git/path").workdir(), "/git/path")
}

#[test]
fn at_does_not_touch_the_filesystem() {
    let repo = Repo::at("/no/such/place/anywhere");
    assert_eq!(repo.workdir(), "/no/such/place/anywhere");
    assert_eq!(repo.clone().workdir(), "/no/such/place/anywhere");
}

#[test]
fn containing_file() {
    let probe = |p: &str| in_tree(&TREE, p);
    assert_eq!(locate("/root", probe).unwrap().workdir(), "/root");
    assert_eq!(locate("/root/sub1", probe).unwrap().workdir(), "/root");
    assert_eq!(locate("/root/sub1/sub2", probe).unwrap().workdir(), "/root");
    assert_eq!(locate("/root/sub1/sub2/sub3/file", probe).unwrap().workdir(), "/root");
    assert!(locate("/root/sub1/sub2/nonexistent", probe).is_err());
}

#[test]
fn root_itself_needs_no_step_up() {
    let s = Search::start("/root");
    assert_eq!(s.probe_path(), "/root");
    let s = match s.advance(Ok(true)) {
        Step::Probe(next) => next,
        Step::Done(_) => panic!("the cursor existed"),
    };
    assert_eq!(s.probe_path(), "/root/.git");
    match s.advance(Ok(true)) {
        Step::Done(Ok(repo)) => assert_eq!(repo.workdir(), "/root"),
        _ => panic!("the marker was a directory"),
    }
}

#[test]
fn missing_start_fails_with_its_error() {
    let s = Search::start("/root/missing");
    match s.advance(Err(io::Error::new(io::ErrorKind::PermissionDenied, "denied"))) {
        Step::Done(Err(GitError::IoError(e))) => assert_eq!(e.kind(), io::ErrorKind::PermissionDenied),
        _ => panic!("a failed cursor probe ends the search"),
    }
}

#[test]
fn no_marker_anywhere_fails() {
    let entries = [("/", true), ("/a", true), ("/a/b", true)];
    let result = locate("/a/b", |p: &str| in_tree(&entries, p));
    match result {
        Err(GitError::IoError(e)) => assert_eq!(e.kind(), io::ErrorKind::NotFound),
        Ok(_) => panic!("no ancestor holds a marker"),
    }
}

#[test]
fn marker_file_is_skipped() {
    let entries = [
        ("/", true),
        ("/top", true),
        ("/top/.git", true),
        ("/top/wt", true),
        ("/top/wt/.git", false),
    ];
    let probe = |p: &str| in_tree(&entries, p);
    assert_eq!(locate("/top/wt", probe).unwrap().workdir(), "/top");

    let only_file = [("/", true), ("/wt", true), ("/wt/.git", false)];
    assert!(locate("/wt", |p: &str| in_tree(&only_file, p)).is_err());
}

#[test]
fn marker_probe_failure_moves_up() {
    let s = Search::start("/a/b/c");
    let s = match s.advance(Ok(true)) {
        Step::Probe(next) => next,
        Step::Done(_) => panic!("the cursor existed"),
    };
    match s.advance(Err(io::Error::new(io::ErrorKind::NotFound, "absent"))) {
        Step::Probe(up) => assert_eq!(up.probe_path(), "/a/b"),
        Step::Done(_) => panic!("the search goes on upward"),
    }
}

#[test]
fn climb_stops_below_the_root() {
    let s = Search::start("/a");
    let s = match s.advance(Ok(true)) {
        Step::Probe(next) => next,
        Step::Done(_) => panic!("the cursor existed"),
    };
    assert!(matches!(s.advance(Ok(false)), Step::Done(Err(_))));
}

#[test]
fn relative_path_ends_at_its_first_component() {
    let entries = [("a", true), ("a/.git", true), ("a/b", true)];
    assert_eq!(locate("a/b", |p: &str| in_tree(&entries, p)).unwrap().workdir(), "a");
    let none = [("a", true), ("a/b", true)];
    assert!(locate("a/b", |p: &str| in_tree(&none, p)).is_err());
}

#[test]
fn empty_path_fails() {
    assert!(locate("", |p: &str| in_tree(&TREE, p)).is_err());
}

#[test]
fn git_error_from_io_error() {
    let e = GitError::from(io::Error::new(io::ErrorKind::Other, "boom"));
    match e {
        GitError::IoError(inner) => assert_eq!(inner.kind(), io::ErrorKind::Other),
    }
}

#[test]
fn phase_follows_the_probes() {
    let s = Search::start("/x/y");
    let s = match s.advance(Ok(true)) {
        Step::Probe(next) => next,
        Step::Done(_) => panic!("the cursor existed"),
    };
    assert_eq!(s.probe_path(), "/x/y/.git");
    assert_eq!(Path::new(&s.probe_path()), Path::new("/x/y").join(".git"));
    assert_eq!(Phase::Cursor, Phase::Cursor);
    assert_ne!(Phase::Cursor, Phase::Marker);
}
