use rfs::server::{compute_fib, contains_backdir, join_path, resolve_path};
use std::path::PathBuf;
use rfs::middleware::SockAddrV4;
use rfs::server::{triggered_count, FileUpdateRegistry};

#[test]
fn test_contains_backdir() {
    assert!(contains_backdir("../this/is/invalid"));
    assert!(contains_backdir("this/../../is/also/invalid"));
    assert!(!contains_backdir("./this/is/valid"));
}

#[test]
fn backdir_edge_cases() {
    assert!(contains_backdir(".."));
    assert!(contains_backdir("a/.."));
    assert!(!contains_backdir("a/...b/c"));
    assert!(!contains_backdir("..a/b"));
    assert!(!contains_backdir(""));
}

#[test]
fn fibonacci_numbers() {
    assert_eq!(compute_fib(0), 0);
    assert_eq!(compute_fib(1), 1);
    assert_eq!(compute_fib(2), 1);
    assert_eq!(compute_fib(10), 55);
    assert_eq!(compute_fib(93), 12200160415121876738);
}

#[test]
fn file_update_registry_is_one_shot() {

    let a = SockAddrV4 { ip: 0x7f000001, port: 4000 };
    let b = SockAddrV4 { ip: 0x7f000001, port: 4001 };
    let mut reg = FileUpdateRegistry::new();
    reg.register("notes.txt", a);
    reg.register("other.txt", b);
    reg.register("notes.txt", b);
    assert_eq!(reg.take("notes.txt"), vec![a, b]);
    assert_eq!(reg.take("notes.txt"), Vec::<SockAddrV4>::new());
    assert_eq!(reg.take("other.txt"), vec![b]);
}

#[test]
fn triggered_counts() {
    assert_eq!(triggered_count(0), None);
    assert_eq!(triggered_count(3), Some(3));
    assert_eq!(triggered_count(256), None);
}

#[test]
fn paths_resolve_against_the_base() {
    assert_eq!(resolve_path("srv", "a/b.txt"), Some("srv/a/b.txt".to_string()));
    assert_eq!(resolve_path("srv/", "a.txt"), Some("srv/a.txt".to_string()));
    assert_eq!(resolve_path("", "a.txt"), Some("a.txt".to_string()));
    // an absolute path would leave the served directory
    assert_eq!(resolve_path("srv", "/etc/x"), None);
    assert_eq!(resolve_path("/srv", "etc/x"), Some("/srv/etc/x".to_string()));
    // back-directories are refused
    assert_eq!(resolve_path("srv", "../secret"), None);
    assert_eq!(resolve_path("srv", "a/../../b"), None);
    assert_eq!(resolve_path("../srv", "a"), None);
}

#[test]
fn joining_agrees_with_path_push() {
    for (base, path) in [("srv", "a/b"), ("srv/", "a"), ("", "a"), ("srv", "/abs"), ("a/b", ""), ("/", "x")] {
        let mut p = PathBuf::from(base);
        p.push(path);
        assert_eq!(join_path(base, path), p.to_str().unwrap(), "{} + {}", base, path);
    }
}
