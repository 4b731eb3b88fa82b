use srun::path::HostPath;
use srun::permission::{
    resolve_read_allowlist, resolve_write_allowlist, PermissionState, Permissions,
    PermissionsOptions, ReadDescriptor, UnaryPermission, UnitPermission,
};
use srun::Error;

#[test]
fn check_paths() {
    let allowlist = vec![
        HostPath::new("/a/specific/dir/name"),
        HostPath::new("/a/specific"),
        HostPath::new("/b/c"),
    ];

    let perms = Permissions::from_options(&PermissionsOptions {
        allow_read: Some(allowlist.clone()),
        allow_write: Some(allowlist),
        ..Default::default()
    });

    // Inside of /a/specific and /a/specific/dir/name
    assert!(perms.read.check(&HostPath::new("/a/specific/dir/name")).is_ok());
    assert!(perms.write.check(&HostPath::new("/a/specific/dir/name")).is_ok());

    // Inside of /a/specific but outside of /a/specific/dir/name
    assert!(perms.read.check(&HostPath::new("/a/specific/dir")).is_ok());
    assert!(perms.write.check(&HostPath::new("/a/specific/dir")).is_ok());

    // Inside of /a/specific and /a/specific/dir/name
    assert!(perms
        .read
        .check(&HostPath::new("/a/specific/dir/name/inner"))
        .is_ok());
    assert!(perms
        .write
        .check(&HostPath::new("/a/specific/dir/name/inner"))
        .is_ok());

    // Inside of /a/specific but outside of /a/specific/dir/name
    assert!(perms.read.check(&HostPath::new("/a/specific/other/dir")).is_ok());
    assert!(perms
        .write
        .check(&HostPath::new("/a/specific/other/dir"))
        .is_ok());

    // Exact match with /b/c
    assert!(perms.read.check(&HostPath::new("/b/c")).is_ok());
    assert!(perms.write.check(&HostPath::new("/b/c")).is_ok());

    // Sub path within /b/c
    assert!(perms.read.check(&HostPath::new("/b/c/sub/path")).is_ok());
    assert!(perms.write.check(&HostPath::new("/b/c/sub/path")).is_ok());

    // Sub path within /b/c, needs normalizing
    assert!(perms
        .read
        .check(&HostPath::new("/b/c/sub/path/../path/."))
        .is_ok());
    assert!(perms
        .write
        .check(&HostPath::new("/b/c/sub/path/../path/."))
        .is_ok());

    // Inside of /b but outside of /b/c
    assert!(perms.read.check(&HostPath::new("/b/e")).is_err());
    assert!(perms.write.check(&HostPath::new("/b/e")).is_err());

    // Inside of /a but outside of /a/specific
    assert!(perms.read.check(&HostPath::new("/a/b")).is_err());
    assert!(perms.write.check(&HostPath::new("/a/b")).is_err());
}

fn denial(r: Result<(), Error>) -> String {
    match r {
        Err(Error::PermissionDeniedError(m)) => m,
        Err(other) => panic!("another error: {:?}", other),
        Ok(()) => panic!("permitted"),
    }
}

#[test]
fn a_root_does_not_cover_a_name_that_only_begins_like_it() {
    let perms = Permissions::from_options(&PermissionsOptions {
        allow_read: Some(vec![HostPath::new("/a/spec")]),
        ..Default::default()
    });
    assert!(perms.read.check(&HostPath::new("/a/spec")).is_ok());
    assert!(perms.read.check(&HostPath::new("/a/spec/x")).is_ok());
    assert!(perms.read.check(&HostPath::new("/a/specific")).is_err());
    assert!(perms.read.check(&HostPath::new("a/spec")).is_err());
}

#[test]
fn separators_and_dots_do_not_count() {
    let root = HostPath::new("/b/c");
    assert!(HostPath::new("/b//c/").same(&root));
    assert!(HostPath::new("/b/./c").same(&root));
    assert!(!HostPath::new("b/c").same(&root));
    assert!(!HostPath::new("./b/c").same(&HostPath::new("b/c")));
    assert!(HostPath::new("./b/c").starts_with(&HostPath::new(".")));
    assert!(HostPath::new("/b/c/../d").starts_with(&root));
    assert!(!HostPath::new("/b").starts_with(&root));
    assert!(HostPath::new("").same(&HostPath::new("")));
    assert!(HostPath::new("/x").starts_with(&HostPath::new("")));
    assert_eq!(HostPath::new("/b//c/").as_str(), "/b//c/");
}

#[test]
fn state_check_names_the_missing_flag() {
    assert!(PermissionState::Granted.check("net", None).is_ok());
    assert_eq!(
        denial(PermissionState::Denied.check("net", None)),
        "Requires net access, run again with --allow-net flag"
    );
    assert_eq!(
        denial(PermissionState::Denied.check("read", Some("/tmp/b"))),
        "Requires read access to /tmp/b, run again with --allow-read flag"
    );
    assert_eq!(PermissionState::fmt_access("write", Some("/x")), "write access to /x");
    assert_eq!(PermissionState::fmt_access("write", None), "write access");
    assert_eq!(PermissionState::default(), PermissionState::Denied);
}

#[test]
fn unit_permission_follows_its_state() {
    let granted = UnitPermission { name: "net", state: PermissionState::Granted };
    let denied = UnitPermission { name: "net", state: PermissionState::Denied };
    assert!(granted.check().is_ok());
    assert_eq!(
        denial(denied.check()),
        "Requires net access, run again with --allow-net flag"
    );
}

#[test]
fn defaults_grant_reading_and_the_network() {
    let perms = Permissions::default();
    assert!(perms.read.check(&HostPath::new("/anything")).is_ok());
    assert!(perms.write.check(&HostPath::new("/anything")).is_err());
    assert!(perms.net.check().is_ok());
    assert_eq!(perms.read.name, "read");
    assert_eq!(perms.write.name, "write");
    assert_eq!(perms.net.name, "net");
}

#[test]
fn options_decide_the_global_state() {
    let absent = Permissions::from_options(&PermissionsOptions::default());
    assert_eq!(absent.read.global_state, PermissionState::Denied);
    assert_eq!(absent.write.global_state, PermissionState::Denied);
    assert_eq!(absent.net.state, PermissionState::Denied);
    assert!(absent.read.check(&HostPath::new("/a")).is_err());

    let everywhere = Permissions::from_options(&PermissionsOptions {
        allow_read: Some(vec![]),
        allow_write: Some(vec![]),
        allow_net: true,
    });
    assert_eq!(everywhere.read.global_state, PermissionState::Granted);
    assert!(everywhere.read.check(&HostPath::new("/a")).is_ok());
    assert!(everywhere.write.check(&HostPath::new("/a")).is_ok());
    assert!(everywhere.net.check().is_ok());
}

#[test]
fn a_denied_path_refuses_what_holds_it() {
    let perm = UnaryPermission {
        name: "read",
        global_state: PermissionState::Granted,
        granted_list: vec![],
        denied_list: vec![ReadDescriptor(HostPath::new("/secret/key"))],
    };
    assert!(perm.check(&HostPath::new("/secret/key")).is_err());
    assert!(perm.check(&HostPath::new("/secret")).is_err());
    assert!(perm.check(&HostPath::new("/")).is_err());
    assert!(perm.check(&HostPath::new("/secret/key/part")).is_ok());
    assert!(perm.check(&HostPath::new("/other")).is_ok());
    assert_eq!(
        denial(perm.check(&HostPath::new("/secret"))),
        "Requires read access to /secret, run again with --allow-read flag"
    );
}

#[test]
fn granting_more_keeps_what_was_permitted() {
    let fewer = Permissions::from_options(&PermissionsOptions {
        allow_read: Some(vec![HostPath::new("/tmp/a")]),
        ..Default::default()
    });
    let more = Permissions::from_options(&PermissionsOptions {
        allow_read: Some(vec![HostPath::new("/tmp/a"), HostPath::new("/tmp/b")]),
        ..Default::default()
    });
    for p in ["/tmp/a", "/tmp/a/x", "/tmp/b", "/tmp/c"] {
        let path = HostPath::new(p);
        if fewer.read.check(&path).is_ok() {
            assert!(more.read.check(&path).is_ok());
        }
    }
    assert!(fewer.read.check(&HostPath::new("/tmp/b")).is_err());
    assert!(more.read.check(&HostPath::new("/tmp/b")).is_ok());
}

#[test]
fn allowlists_keep_each_root_once() {
    let allow = Some(vec![
        HostPath::new("/a"),
        HostPath::new("/b"),
        HostPath::new("/a/"),
        HostPath::new("/b"),
        HostPath::new("/c"),
    ]);
    let read = resolve_read_allowlist(&allow);
    let roots: Vec<&str> = read.iter().map(|d| d.0.as_str()).collect();
    assert_eq!(roots, vec!["/a", "/b", "/c"]);
    let write = resolve_write_allowlist(&allow);
    assert_eq!(write.len(), 3);
    assert!(resolve_read_allowlist(&None).is_empty());
    assert!(resolve_write_allowlist(&Some(vec![])).is_empty());
}

#[test]
fn denying_more_keeps_what_was_refused() {
    let fewer = UnaryPermission {
        name: "read",
        global_state: PermissionState::Granted,
        granted_list: vec![],
        denied_list: vec![ReadDescriptor(HostPath::new("/a/x"))],
    };
    let more = UnaryPermission {
        name: "read",
        global_state: PermissionState::Granted,
        granted_list: vec![],
        denied_list: vec![
            ReadDescriptor(HostPath::new("/a/x")),
            ReadDescriptor(HostPath::new("/b/y")),
        ],
    };
    for p in ["/", "/a", "/a/x", "/a/x/z", "/b", "/b/y", "/c"] {
        let path = HostPath::new(p);
        if fewer.check(&path).is_err() {
            assert!(more.check(&path).is_err());
        }
    }
    assert!(fewer.check(&HostPath::new("/b")).is_ok());
    assert!(more.check(&HostPath::new("/b")).is_err());
}

#[test]
fn a_copy_of_a_path_is_the_same_path() {
    let path = HostPath::new("/a/./b//c");
    let copy = path.clone();
    assert_eq!(copy.as_str(), "/a/./b//c");
    assert!(copy.same(&path));
    assert!(copy.starts_with(&HostPath::new("/a/b")));
}

#[test]
fn the_permission_set_checks_each_access() {
    let perms = Permissions::from_options(&PermissionsOptions {
        allow_read: Some(vec![HostPath::new("/tmp/a")]),
        allow_write: None,
        allow_net: false,
    });
    assert!(perms.check_read(&HostPath::new("/tmp/a/file")).is_ok());
    assert_eq!(
        denial(perms.check_read(&HostPath::new("/tmp/b"))),
        "Requires read access to /tmp/b, run again with --allow-read flag"
    );
    assert_eq!(
        denial(perms.check_write(&HostPath::new("/tmp/a"))),
        "Requires write access to /tmp/a, run again with --allow-write flag"
    );
    assert_eq!(
        denial(perms.check_net()),
        "Requires net access, run again with --allow-net flag"
    );
    assert!(Permissions::default().check_net().is_ok());
}

#[test]
fn what_lies_within_a_permitted_path_is_permitted() {
    let perm = UnaryPermission {
        name: "read",
        global_state: PermissionState::Granted,
        granted_list: vec![],
        denied_list: vec![ReadDescriptor(HostPath::new("/a/x"))],
    };
    assert!(perm.check(&HostPath::new("/a/y")).is_ok());
    assert!(perm.check(&HostPath::new("/a/y/z")).is_ok());
    assert!(perm.check(&HostPath::new("/a/x/z")).is_ok());
    assert!(perm.check(&HostPath::new("/a/x/z/w")).is_ok());
}
