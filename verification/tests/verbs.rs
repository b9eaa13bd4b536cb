use permissions::net::NetUrl;
use permissions::path::FsPath;
use permissions::perms::{resolve_fs_allowlist, Flags, Permissions};
use permissions::prompt::FixedPrompter;
use permissions::state::PermissionState;
use permissions::unary::UnaryPermission;

fn svec(items: &[&str]) -> Vec<String> {
    items.iter().map(|x| x.to_string()).collect()
}

fn prompting<T: permissions::unary::Key>() -> UnaryPermission<T> {
    UnaryPermission {
        global_state: PermissionState::Prompt,
        ..Default::default()
    }
}

fn granted<T: permissions::unary::Key>() -> UnaryPermission<T> {
    UnaryPermission {
        global_state: PermissionState::Granted,
        ..Default::default()
    }
}

#[test]
fn check_paths() {
    let cwd = FsPath::root();
    let allowlist = svec(&["/a/specific/dir/name", "/a/specific", "/b/c"]);

    let perms = Permissions::from_flags(
        &Flags {
            read_allowlist: allowlist.clone(),
            write_allowlist: allowlist,
            ..Default::default()
        },
        &cwd,
    );

    // Inside of /a/specific and /a/specific/dir/name
    assert!(perms.check_read("/a/specific/dir/name", &cwd).is_ok());
    assert!(perms.check_write("/a/specific/dir/name", &cwd).is_ok());

    // Inside of /a/specific but outside of /a/specific/dir/name
    assert!(perms.check_read("/a/specific/dir", &cwd).is_ok());
    assert!(perms.check_write("/a/specific/dir", &cwd).is_ok());

    // Inside of /a/specific and /a/specific/dir/name
    assert!(perms.check_read("/a/specific/dir/name/inner", &cwd).is_ok());
    assert!(perms.check_write("/a/specific/dir/name/inner", &cwd).is_ok());

    // Inside of /a/specific but outside of /a/specific/dir/name
    assert!(perms.check_read("/a/specific/other/dir", &cwd).is_ok());
    assert!(perms.check_write("/a/specific/other/dir", &cwd).is_ok());

    // Exact match with /b/c
    assert!(perms.check_read("/b/c", &cwd).is_ok());
    assert!(perms.check_write("/b/c", &cwd).is_ok());

    // Sub path within /b/c
    assert!(perms.check_read("/b/c/sub/path", &cwd).is_ok());
    assert!(perms.check_write("/b/c/sub/path", &cwd).is_ok());

    // Sub path within /b/c, needs normalizing
    assert!(perms.check_read("/b/c/sub/path/../path/.", &cwd).is_ok());
    assert!(perms.check_write("/b/c/sub/path/../path/.", &cwd).is_ok());

    // Inside of /b but outside of /b/c
    assert!(perms.check_read("/b/e", &cwd).is_err());
    assert!(perms.check_write("/b/e", &cwd).is_err());

    // Inside of /a but outside of /a/specific
    assert!(perms.check_read("/a/b", &cwd).is_err());
    assert!(perms.check_write("/a/b", &cwd).is_err());
}

#[test]
fn test_check_net() {
    let cwd = FsPath::root();
    let perms = Permissions::from_flags(
        &Flags {
            net_allowlist: svec(&[
                "localhost",
                "deno.land",
                "github.com:3000",
                "127.0.0.1",
                "172.16.0.2:8000",
                "www.github.com:443",
            ]),
            ..Default::default()
        },
        &cwd,
    );

    let domain_tests = vec![
        ("localhost", 1234, true),
        ("deno.land", 0, true),
        ("deno.land", 3000, true),
        ("deno.lands", 0, false),
        ("deno.lands", 3000, false),
        ("github.com", 3000, true),
        ("github.com", 0, false),
        ("github.com", 2000, false),
        ("github.net", 3000, false),
        ("127.0.0.1", 0, true),
        ("127.0.0.1", 3000, true),
        ("127.0.0.2", 0, false),
        ("127.0.0.2", 3000, false),
        ("172.16.0.2", 8000, true),
        ("172.16.0.2", 0, false),
        ("172.16.0.2", 6000, false),
        ("172.16.0.1", 8000, false),
        // Just some random hosts that should err
        ("somedomain", 0, false),
        ("192.168.0.1", 0, false),
    ];

    let url_tests = vec![
        // Any protocol + port for localhost should be ok, since we don't specify
        ("http://localhost", true),
        ("https://localhost", true),
        ("https://localhost:4443", true),
        ("tcp://localhost:5000", true),
        ("udp://localhost:6000", true),
        // Correct domain + any port and protocol should be ok incorrect shouldn't
        ("https://deno.land/std/example/welcome.ts", true),
        ("https://deno.land:3000/std/example/welcome.ts", true),
        ("https://deno.lands/std/example/welcome.ts", false),
        ("https://deno.lands:3000/std/example/welcome.ts", false),
        // Correct domain + port should be ok all other combinations should err
        ("https://github.com:3000/denoland/deno", true),
        ("https://github.com/denoland/deno", false),
        ("https://github.com:2000/denoland/deno", false),
        ("https://github.net:3000/denoland/deno", false),
        // Correct ipv4 address + any port should be ok others should err
        ("tcp://127.0.0.1", true),
        ("https://127.0.0.1", true),
        ("tcp://127.0.0.1:3000", true),
        ("https://127.0.0.1:3000", true),
        ("tcp://127.0.0.2", false),
        ("https://127.0.0.2", false),
        ("tcp://127.0.0.2:3000", false),
        ("https://127.0.0.2:3000", false),
        // Correct address + port should be ok all other combinations should err
        ("tcp://172.16.0.2:8000", true),
        ("https://172.16.0.2:8000", true),
        ("tcp://172.16.0.2", false),
        ("https://172.16.0.2", false),
        ("tcp://172.16.0.2:6000", false),
        ("https://172.16.0.2:6000", false),
        ("tcp://172.16.0.1:8000", false),
        ("https://172.16.0.1:8000", false),
        // A well-known default port counts as the port of the URL
        ("https://www.github.com:443/robots.txt", true),
    ];

    for (url_str, is_ok) in url_tests.iter() {
        let u = NetUrl::parse(url_str).unwrap();
        assert_eq!(*is_ok, perms.check_net_url(&u).is_ok());
    }

    for (host, port, is_ok) in domain_tests.iter() {
        assert_eq!(*is_ok, perms.check_net(host, *port).is_ok());
    }
}

#[test]
fn test_fork() {
    let cwd = FsPath::root();
    let perms0 = Permissions::from_flags(&Flags::default(), &cwd);
    perms0
        .fork(
            prompting(),
            prompting(),
            prompting(),
            PermissionState::Prompt,
            PermissionState::Prompt,
            PermissionState::Denied,
            PermissionState::Denied,
        )
        .expect("Fork should succeed.");
    perms0
        .fork(
            granted(),
            granted(),
            granted(),
            PermissionState::Granted,
            PermissionState::Granted,
            PermissionState::Denied,
            PermissionState::Denied,
        )
        .expect_err("Fork should fail.");
}

#[test]
fn test_query() {
    let cwd = FsPath::root();
    let perms1 = Permissions {
        read: granted(),
        write: granted(),
        net: granted(),
        env: PermissionState::Granted,
        run: PermissionState::Granted,
        plugin: PermissionState::Granted,
        hrtime: PermissionState::Granted,
    };
    let perms2 = Permissions {
        read: UnaryPermission {
            global_state: PermissionState::Prompt,
            granted_list: resolve_fs_allowlist(&svec(&["/foo"]), &cwd),
            ..Default::default()
        },
        write: UnaryPermission {
            global_state: PermissionState::Prompt,
            granted_list: resolve_fs_allowlist(&svec(&["/foo"]), &cwd),
            ..Default::default()
        },
        net: UnaryPermission {
            global_state: PermissionState::Prompt,
            granted_list: svec(&["127.0.0.1:8000"]),
            ..Default::default()
        },
        env: PermissionState::Prompt,
        run: PermissionState::Prompt,
        plugin: PermissionState::Prompt,
        hrtime: PermissionState::Prompt,
    };
    assert_eq!(perms1.query_read(&None, &cwd), PermissionState::Granted);
    assert_eq!(perms1.query_read(&Some("/foo"), &cwd), PermissionState::Granted);
    assert_eq!(perms2.query_read(&None, &cwd), PermissionState::Prompt);
    assert_eq!(perms2.query_read(&Some("/foo"), &cwd), PermissionState::Granted);
    assert_eq!(perms2.query_read(&Some("/foo/bar"), &cwd), PermissionState::Granted);
    assert_eq!(perms1.query_write(&None, &cwd), PermissionState::Granted);
    assert_eq!(perms1.query_write(&Some("/foo"), &cwd), PermissionState::Granted);
    assert_eq!(perms2.query_write(&None, &cwd), PermissionState::Prompt);
    assert_eq!(perms2.query_write(&Some("/foo"), &cwd), PermissionState::Granted);
    assert_eq!(perms2.query_write(&Some("/foo/bar"), &cwd), PermissionState::Granted);
    assert_eq!(perms1.query_net_url(&None).unwrap(), PermissionState::Granted);
    assert_eq!(
        perms1.query_net_url(&Some("http://127.0.0.1:8000")).unwrap(),
        PermissionState::Granted
    );
    assert_eq!(perms2.query_net_url(&None).unwrap(), PermissionState::Prompt);
    assert_eq!(
        perms2.query_net_url(&Some("http://127.0.0.1:8000")).unwrap(),
        PermissionState::Granted
    );
    assert_eq!(perms1.query_env(), PermissionState::Granted);
    assert_eq!(perms2.query_env(), PermissionState::Prompt);
    assert_eq!(perms1.query_run(), PermissionState::Granted);
    assert_eq!(perms2.query_run(), PermissionState::Prompt);
    assert_eq!(perms1.query_plugin(), PermissionState::Granted);
    assert_eq!(perms2.query_plugin(), PermissionState::Prompt);
    assert_eq!(perms1.query_hrtime(), PermissionState::Granted);
    assert_eq!(perms2.query_hrtime(), PermissionState::Prompt);
}

#[test]
fn test_request() {
    let cwd = FsPath::root();
    let mut perms = Permissions {
        read: prompting(),
        write: prompting(),
        net: prompting(),
        env: PermissionState::Prompt,
        run: PermissionState::Prompt,
        plugin: PermissionState::Prompt,
        hrtime: PermissionState::Prompt,
    };
    let mut stub = FixedPrompter::new(true);
    stub.set_prompt_result(true);
    assert_eq!(perms.request_read(&mut stub, &Some("/foo"), &cwd), PermissionState::Granted);
    assert_eq!(perms.query_read(&None, &cwd), PermissionState::Prompt);
    stub.set_prompt_result(false);
    assert_eq!(perms.request_read(&mut stub, &Some("/foo/bar"), &cwd), PermissionState::Granted);
    stub.set_prompt_result(false);
    assert_eq!(perms.request_write(&mut stub, &Some("/foo"), &cwd), PermissionState::Denied);
    assert_eq!(perms.query_write(&Some("/foo/bar"), &cwd), PermissionState::Prompt);
    stub.set_prompt_result(true);
    assert_eq!(perms.request_write(&mut stub, &None, &cwd), PermissionState::Denied);
    stub.set_prompt_result(true);
    assert_eq!(perms.request_net(&mut stub, &None).unwrap(), PermissionState::Granted);
    stub.set_prompt_result(false);
    assert_eq!(
        perms.request_net(&mut stub, &Some("http://127.0.0.1:8000")).unwrap(),
        PermissionState::Granted
    );
    stub.set_prompt_result(true);
    assert_eq!(perms.request_env(&mut stub), PermissionState::Granted);
    stub.set_prompt_result(false);
    assert_eq!(perms.request_env(&mut stub), PermissionState::Granted);
    stub.set_prompt_result(false);
    assert_eq!(perms.request_run(&mut stub), PermissionState::Denied);
    stub.set_prompt_result(true);
    assert_eq!(perms.request_run(&mut stub), PermissionState::Denied);
    stub.set_prompt_result(true);
    assert_eq!(perms.request_plugin(&mut stub), PermissionState::Granted);
    stub.set_prompt_result(false);
    assert_eq!(perms.request_plugin(&mut stub), PermissionState::Granted);
    stub.set_prompt_result(false);
    assert_eq!(perms.request_hrtime(&mut stub), PermissionState::Denied);
    stub.set_prompt_result(true);
    assert_eq!(perms.request_hrtime(&mut stub), PermissionState::Denied);
}

#[test]
fn test_revoke() {
    let cwd = FsPath::root();
    let mut perms = Permissions {
        read: UnaryPermission {
            global_state: PermissionState::Prompt,
            granted_list: resolve_fs_allowlist(&svec(&["/foo"]), &cwd),
            ..Default::default()
        },
        write: UnaryPermission {
            global_state: PermissionState::Prompt,
            granted_list: resolve_fs_allowlist(&svec(&["/foo"]), &cwd),
            ..Default::default()
        },
        net: UnaryPermission {
            global_state: PermissionState::Denied,
            ..Default::default()
        },
        env: PermissionState::Granted,
        run: PermissionState::Granted,
        plugin: PermissionState::Prompt,
        hrtime: PermissionState::Denied,
    };
    assert_eq!(perms.revoke_read(&Some("/foo/bar"), &cwd), PermissionState::Granted);
    assert_eq!(perms.revoke_read(&Some("/foo"), &cwd), PermissionState::Prompt);
    assert_eq!(perms.query_read(&Some("/foo/bar"), &cwd), PermissionState::Prompt);
    assert_eq!(perms.revoke_write(&Some("/foo/bar"), &cwd), PermissionState::Granted);
    assert_eq!(perms.revoke_write(&None, &cwd), PermissionState::Prompt);
    assert_eq!(perms.query_write(&Some("/foo/bar"), &cwd), PermissionState::Prompt);
    assert_eq!(perms.revoke_net(&None).unwrap(), PermissionState::Denied);
    assert_eq!(perms.revoke_env(), PermissionState::Prompt);
    assert_eq!(perms.revoke_run(), PermissionState::Prompt);
    assert_eq!(perms.revoke_plugin(), PermissionState::Prompt);
    assert_eq!(perms.revoke_hrtime(), PermissionState::Denied);
}
