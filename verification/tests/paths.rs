use permissions::error::ErrorKind;
use permissions::path::{absolute_path, resolve_from_cwd, FsPath};
use permissions::perms::{resolve_fs_allowlist, Flags, Permissions};
use permissions::rules::{
    check_path_allowlist, check_path_blocklist, retain_not_above, retain_outside,
};
use permissions::state::PermissionState;
use permissions::unary::{Key, UnaryPermission};

fn path(text: &str) -> FsPath {
    resolve_from_cwd(text, &FsPath::root())
}

fn segments(p: &FsPath) -> Vec<&str> {
    p.segments.iter().map(|s| s.as_str()).collect()
}

#[test]
fn resolve_keeps_a_plain_absolute_path() {
    let cwd = path("/home/user");
    let p = resolve_from_cwd("/a/b/c", &cwd);
    assert_eq!(segments(&p), vec!["a", "b", "c"]);
    assert_eq!(p.render(), "/a/b/c");
}

#[test]
fn resolve_places_a_relative_path_under_the_working_directory() {
    let cwd = path("/home/user");
    let p = resolve_from_cwd("notes/today.txt", &cwd);
    assert_eq!(segments(&p), vec!["home", "user", "notes", "today.txt"]);
}

#[test]
fn resolve_folds_dot_and_dot_dot() {
    let cwd = path("/home/user");
    assert_eq!(resolve_from_cwd("/b/c/sub/path/../path/.", &cwd).render(), "/b/c/sub/path");
    assert_eq!(resolve_from_cwd("../other/./x", &cwd).render(), "/home/other/x");
    assert_eq!(resolve_from_cwd("./x", &cwd).render(), "/home/user/x");
    assert_eq!(resolve_from_cwd("a/../../..", &cwd).render(), "/");
}

#[test]
fn resolve_stops_at_the_root() {
    let cwd = path("/home");
    assert_eq!(resolve_from_cwd("/..", &cwd).render(), "/");
    assert_eq!(resolve_from_cwd("/../../a", &cwd).render(), "/a");
    assert_eq!(resolve_from_cwd("../../../a", &cwd).render(), "/a");
}

#[test]
fn resolve_drops_empty_segments() {
    let cwd = path("/home");
    assert_eq!(resolve_from_cwd("//a///b/", &cwd).render(), "/a/b");
    assert_eq!(resolve_from_cwd("a//b/", &cwd).render(), "/home/a/b");
}

#[test]
fn resolve_of_the_empty_text_is_the_working_directory() {
    let cwd = path("/home/user");
    assert_eq!(resolve_from_cwd("", &cwd).render(), "/home/user");
    assert_eq!(resolve_from_cwd(".", &cwd).render(), "/home/user");
}

#[test]
fn resolve_keeps_names_that_only_start_with_dots() {
    let cwd = FsPath::root();
    assert_eq!(segments(&resolve_from_cwd("/.../..a/.b", &cwd)), vec!["...", "..a", ".b"]);
}

#[test]
fn resolve_handles_text_beyond_ascii() {
    let cwd = FsPath::root();
    let p = resolve_from_cwd("/d\u{e9}p\u{f4}t/\u{65e5}\u{672c}/../x", &cwd);
    assert_eq!(segments(&p), vec!["d\u{e9}p\u{f4}t", "x"]);
}

#[test]
fn resolving_a_rendered_path_gives_it_back() {
    let cwd = path("/somewhere/else");
    for text in ["/", "/a", "/a/b/c", "/x/../y/./z"] {
        let p = resolve_from_cwd(text, &cwd);
        let again = resolve_from_cwd(&p.render(), &cwd);
        assert!(p.key_eq(&again));
    }
}

#[test]
fn root_renders_as_a_single_separator() {
    assert_eq!(FsPath::root().render(), "/");
    assert!(FsPath::root().segments.is_empty());
}

#[test]
fn absolute_path_accepts_only_absolute_text() {
    let ok = absolute_path("/home/./user/..").unwrap();
    assert_eq!(ok.render(), "/home");
    let err = absolute_path("home/user").unwrap_err();
    assert_eq!(err.kind, ErrorKind::InvalidArgument);
    assert_eq!(err.message, "The working directory is not an absolute path");
    assert_eq!(err.to_string(), "InvalidArgument: The working directory is not an absolute path");
    assert_eq!(absolute_path("").unwrap_err().kind, ErrorKind::InvalidArgument);
}

#[test]
fn starts_with_goes_by_whole_segments() {
    assert!(path("/a/b").starts_with(&path("/a")));
    assert!(path("/a/b").starts_with(&path("/a/b")));
    assert!(path("/a/b").starts_with(&path("/")));
    assert!(!path("/a/b").starts_with(&path("/a/b/c")));
    assert!(!path("/ab").starts_with(&path("/a")));
    assert!(!path("/a/bc").starts_with(&path("/a/b")));
    assert!(!path("/").starts_with(&path("/a")));
}

#[test]
fn path_keys_compare_and_copy_by_segments() {
    let p = path("/a/b");
    assert!(p.key_eq(&path("/a/./b")));
    assert!(!p.key_eq(&path("/a")));
    assert!(!p.key_eq(&path("/a/c")));
    assert!(p.key_clone().key_eq(&p));
}

#[test]
fn allowlist_hits_at_and_below_an_entry() {
    let list = vec![path("/a/specific"), path("/b/c")];
    assert!(check_path_allowlist(&path("/a/specific"), &list));
    assert!(check_path_allowlist(&path("/a/specific/dir"), &list));
    assert!(!check_path_allowlist(&path("/a"), &list));
    assert!(!check_path_allowlist(&path("/b/e"), &list));
    assert!(!check_path_allowlist(&path("/a"), &Vec::new()));
}

#[test]
fn blocklist_hits_at_and_above_an_entry() {
    let list = vec![path("/a/b")];
    assert!(check_path_blocklist(&path("/a/b"), &list));
    assert!(check_path_blocklist(&path("/a"), &list));
    assert!(check_path_blocklist(&path("/"), &list));
    assert!(!check_path_blocklist(&path("/a/b/c"), &list));
    assert!(!check_path_blocklist(&path("/c"), &list));
    assert!(!check_path_blocklist(&path("/"), &Vec::new()));
}

#[test]
fn retain_outside_drops_the_base_and_what_is_below() {
    let list = vec![path("/a"), path("/a/b"), path("/a/b/c"), path("/x")];
    let kept = retain_outside(&list, &path("/a/b"));
    let shown: Vec<String> = kept.iter().map(|p| p.render()).collect();
    assert_eq!(shown, vec!["/a", "/x"]);
}

#[test]
fn retain_not_above_drops_the_path_and_what_is_above() {
    let list = vec![path("/a"), path("/a/b"), path("/a/b/c"), path("/x")];
    let kept = retain_not_above(&list, &path("/a/b"));
    let shown: Vec<String> = kept.iter().map(|p| p.render()).collect();
    assert_eq!(shown, vec!["/a/b/c", "/x"]);
}

#[test]
fn allowlist_from_flags_is_resolved_and_holds_each_path_once() {
    let cwd = path("/work");
    let list = resolve_fs_allowlist(
        &vec!["data".to_string(), "/work/data".to_string(), "./data/../data".to_string(),
            "/etc".to_string()],
        &cwd,
    );
    let shown: Vec<String> = list.iter().map(|p| p.render()).collect();
    assert_eq!(shown, vec!["/work/data", "/etc"]);
}

#[test]
fn query_depends_only_on_the_resolved_form() {
    let cwd = path("/work");
    let perms = Permissions::from_flags(
        &Flags { read_allowlist: vec!["/work/data".to_string()], ..Default::default() },
        &cwd,
    );
    for text in ["data/x", "/work/data/x", "./data/./x", "data/y/../x", "../work/data/x"] {
        assert_eq!(perms.query_read(&Some(text), &cwd), PermissionState::Granted);
    }
    for text in ["other", "/work/other", "data/..", "/data/x"] {
        assert_eq!(perms.query_read(&Some(text), &cwd), PermissionState::Prompt);
    }
}

#[test]
fn relative_path_is_shown_resolved_only_where_the_directory_may_be_read() {
    let cwd = path("/secret/place");
    let closed = Permissions::default();
    let (resolved, shown) = closed.resolved_and_display_path("notes.txt", &cwd);
    assert_eq!(resolved.render(), "/secret/place/notes.txt");
    assert_eq!(shown, "notes.txt");
    let err = closed.check_read("notes.txt", &cwd).unwrap_err();
    assert_eq!(err.kind, ErrorKind::PermissionDenied);
    assert_eq!(
        err.message,
        "read access to \"notes.txt\", run again with the --allow-read flag"
    );

    let open = Permissions {
        read: UnaryPermission {
            global_state: PermissionState::Prompt,
            granted_list: vec![path("/secret")],
            denied_list: Vec::new(),
        },
        ..Default::default()
    };
    let (_, shown) = open.resolved_and_display_path("notes.txt", &cwd);
    assert_eq!(shown, "/secret/place/notes.txt");
    let err = open.check_write("notes.txt", &cwd).unwrap_err();
    assert_eq!(
        err.message,
        "write access to \"/secret/place/notes.txt\", run again with the --allow-write flag"
    );
}

#[test]
fn absolute_path_is_shown_as_given() {
    let cwd = path("/work");
    let perms = Permissions::default();
    let (resolved, shown) = perms.resolved_and_display_path("/a/../b/./c", &cwd);
    assert_eq!(resolved.render(), "/b/c");
    assert_eq!(shown, "/a/../b/./c");
}
