use libplasmoid_updater::environment::{
    restart_environment, user_home, validate_environment, CheckError, HomeEnv,
};
use libplasmoid_updater::paths::{
    backup_base_dir, backup_path, cache_home, data_home, file_name, is_root, is_system_path,
    join_path, knewstuff_dir, needs_elevation, needs_sudo, registry_path, temp_dir,
};
use libplasmoid_updater::shim::{
    extract_arguments, place_content, replace_destination, restart_arguments, Destination, FileOp,
};
use libplasmoid_updater::types::ComponentType;

#[test]
fn test_is_system_path() {
    assert!(is_system_path("/usr/share/plasma/plasmoids/test"));
    assert!(is_system_path("/usr/local/share/kwin/effects"));
    assert!(is_system_path("/lib/kde/plasma"));
    assert!(!is_system_path("/home/user/.local/share/plasma"));
    assert!(!is_system_path("/tmp/test"));
}

#[test]
fn system_paths_are_compared_by_segment() {
    assert!(is_system_path("/etc/xdg/something"));
    assert!(is_system_path("/usr"));
    assert!(is_system_path("//usr/share"));
    assert!(!is_system_path("/usrlocal/share"));
    assert!(!is_system_path("/lib64/kde"));
    assert!(!is_system_path("usr/share"));
    assert!(!is_system_path("/../usr"));
    assert!(!is_system_path(""));
    assert!(!is_system_path("/"));
}

#[test]
fn test_needs_sudo() {
    if !is_root() {
        assert!(needs_sudo("/usr/share/plasma/test"));
        assert!(!needs_sudo("/home/user/.local/share/plasma"));
        assert!(!needs_sudo("/tmp/test"));
    }
}

#[test]
fn needs_sudo_for_system_paths_when_not_root() {
    if is_root() {
        return;
    }
    assert!(needs_sudo("/usr/share/plasma/plasmoids/test"));
    assert!(needs_sudo("/usr/local/share/kwin/effects"));
    assert!(needs_sudo("/lib/kde/plasma"));
    assert!(needs_sudo("/etc/xdg/something"));
}

#[test]
fn no_sudo_for_user_paths() {
    assert!(!needs_sudo("/home/user/.local/share/plasma"));
    assert!(!needs_sudo("/tmp/test"));
}

#[test]
fn elevation_depends_on_path_and_rights() {
    assert!(needs_elevation("/usr/share/x", false));
    assert!(!needs_elevation("/usr/share/x", true));
    assert!(!needs_elevation("/home/u/x", false));
    assert!(!needs_elevation("/home/u/x", true));
}

#[test]
fn paths_are_joined_with_one_slash() {
    assert_eq!(join_path("/a", "b"), "/a/b");
    assert_eq!(join_path("/a/", "b"), "/a/b");
    assert_eq!(join_path("/a", "/b"), "/b");
    assert_eq!(join_path("", "b"), "b");
    assert_eq!(join_path("/a", ""), "/a/");
}

#[test]
fn file_name_is_the_last_segment() {
    assert_eq!(file_name("/a/b/c.txt"), Some("c.txt".to_string()));
    assert_eq!(file_name("/a/b/"), Some("b".to_string()));
    assert_eq!(file_name("a/."), Some("a".to_string()));
    assert_eq!(file_name("/a/.."), None);
    assert_eq!(file_name("/"), None);
    assert_eq!(file_name("."), None);
}

#[test]
fn base_directories_follow_the_environment() {
    assert_eq!(data_home(Some("/data"), "/home/u"), "/data");
    assert_eq!(data_home(None, "/home/u"), "/home/u/.local/share");
    assert_eq!(cache_home(Some("/cache"), "/home/u"), "/cache");
    assert_eq!(cache_home(None, "/home/u"), "/home/u/.cache");
    assert_eq!(knewstuff_dir("/home/u/.local/share"), "/home/u/.local/share/knewstuff3");
    assert_eq!(
        registry_path(ComponentType::PlasmaWidget, "/d/knewstuff3"),
        Some("/d/knewstuff3/plasmoids.knsregistry".to_string())
    );
    assert_eq!(temp_dir(None), "/tmp/plasmoid-updater");
    assert_eq!(temp_dir(Some("/var/tmp")), "/var/tmp/plasmoid-updater");
}

#[test]
fn backups_go_below_the_cache_directory() {
    assert_eq!(backup_base_dir("/home/u/.cache"), "/home/u/.cache/plasmoid-updater/backups");
    assert_eq!(
        backup_path(
            "/home/u/.cache",
            "2024-03-07T09-39-52",
            ComponentType::SplashScreen,
            "com.foo"
        ),
        "/home/u/.cache/plasmoid-updater/backups/2024-03-07T09-39-52/plasma-splash/com.foo"
    );
}

fn env() -> HomeEnv {
    HomeEnv {
        sudo_user_home: None,
        sudo_user: None,
        passwd_line: None,
        home: Some("/root".to_string()),
        fallback_home: "/fallback".to_string(),
    }
}

#[test]
fn home_of_the_real_user_is_recovered() {
    assert_eq!(user_home(&env()), "/root");
    let mut e = env();
    e.sudo_user_home = Some("/home/alice".to_string());
    e.sudo_user = Some("bob".to_string());
    assert_eq!(user_home(&e), "/home/alice");
    let mut e = env();
    e.sudo_user = Some("bob".to_string());
    e.passwd_line = Some("bob:x:1000:1000:Bob:/users/bob:/bin/sh\n".to_string());
    assert_eq!(user_home(&e), "/users/bob");
    e.passwd_line = Some(String::new());
    assert_eq!(user_home(&e), "/home/bob");
    e.passwd_line = None;
    assert_eq!(user_home(&e), "/home/bob");
    let mut e = env();
    e.home = None;
    assert_eq!(user_home(&e), "/fallback");
}

#[test]
fn environment_is_validated() {
    assert!(validate_environment("linux", Some("6")).is_ok());
    assert!(matches!(validate_environment("linux", None), Err(CheckError::NotKDE)));
    match validate_environment("macos", Some("6")) {
        Err(CheckError::UnsupportedOS(os)) => assert_eq!(os, "macos"),
        other => panic!("unexpected {:?}", other),
    }
    assert_eq!(
        CheckError::UnsupportedOS("macos".into()).message(),
        "unsupported operating system: macos"
    );
}

#[test]
fn restart_gets_the_session_of_the_user() {
    assert_eq!(
        restart_environment(false, false, Some("1000")),
        vec![
            (
                "DBUS_SESSION_BUS_ADDRESS".to_string(),
                "unix:path=/run/user/1000/bus".to_string()
            ),
            ("XDG_RUNTIME_DIR".to_string(), "/run/user/1000".to_string()),
        ]
    );
    assert_eq!(
        restart_environment(true, false, Some("1000")),
        vec![("XDG_RUNTIME_DIR".to_string(), "/run/user/1000".to_string())]
    );
    assert!(restart_environment(true, true, Some("1000")).is_empty());
    assert!(restart_environment(false, false, None).is_empty());
}

#[test]
fn file_operations_have_their_elevated_commands() {
    let op = FileOp::CopyFile { src: "/tmp/a".into(), dest: "/usr/share/x/a".into() };
    assert_eq!(op.target_path(), "/usr/share/x/a");
    assert!(op.needs_elevation(false));
    assert!(!op.needs_elevation(true));
    assert_eq!(op.elevated_command(), vec!["cp", "-f", "/tmp/a", "/usr/share/x/a"]);
    let op = FileOp::CopyDir { src: "/tmp/a".into(), dest: "/home/u/a".into() };
    assert!(!op.needs_elevation(false));
    assert_eq!(op.elevated_command(), vec!["cp", "-rf", "/tmp/a", "/home/u/a"]);
    assert_eq!(
        FileOp::CreateDirAll { path: "/etc/x".into() }.elevated_command(),
        vec!["mkdir", "-p", "/etc/x"]
    );
    assert_eq!(FileOp::RemoveFile { path: "/p".into() }.elevated_command(), vec!["rm", "-f", "/p"]);
    assert_eq!(
        FileOp::RemoveDirAll { path: "/p".into() }.elevated_command(),
        vec!["rm", "-rf", "/p"]
    );
    assert_eq!(FileOp::WriteFile { path: "/p".into() }.elevated_command(), vec!["tee", "/p"]);

    let commands = |ops: Vec<FileOp>| ops.iter().map(|o| o.elevated_command()).collect::<Vec<_>>();
    let dest = Destination {
        path: "/d/x".into(),
        exists: true,
        is_dir: true,
        parent: Some("/d".into()),
    };
    assert_eq!(
        commands(replace_destination(&dest)),
        vec![vec!["rm", "-rf", "/d/x"], vec!["mkdir", "-p", "/d"]]
    );
    let dest = Destination { path: "/d/x".into(), exists: true, is_dir: false, parent: None };
    assert_eq!(commands(replace_destination(&dest)), vec![vec!["rm", "-f", "/d/x"]]);
    let dest = Destination { path: "x".into(), exists: false, is_dir: false, parent: None };
    assert!(replace_destination(&dest).is_empty());
    assert_eq!(commands(place_content("/s", "/d", true)), vec![vec!["cp", "-f", "/s", "/d"]]);
    assert_eq!(
        commands(place_content("/s", "/d", false)),
        vec![vec!["mkdir", "-p", "/d"], vec!["cp", "-rf", "/s", "/d"]]
    );
    assert_eq!(extract_arguments("/t/a.tar.gz", "/t/x"), vec!["-xf", "/t/a.tar.gz", "-C", "/t/x"]);
    assert_eq!(restart_arguments(), vec!["--user", "restart", "plasma-plasmashell.service"]);
}

#[test]
fn timestamps_name_backup_directories() {
    let t = libplasmoid_updater::environment::LocalTime {
        year: 2024,
        month: 3,
        day: 7,
        hour: 9,
        minute: 39,
        second: 52,
    };
    assert_eq!(libplasmoid_updater::environment::format_timestamp(t), "2024-03-07T09-39-52");
    let t = libplasmoid_updater::environment::LocalTime {
        year: 987,
        month: 12,
        day: 31,
        hour: 23,
        minute: 0,
        second: 5,
    };
    assert_eq!(libplasmoid_updater::environment::format_timestamp(t), "0987-12-31T23-00-05");
    let now = libplasmoid_updater::environment::timestamp();
    assert_eq!(now.len(), 19);
    assert_eq!(now.as_bytes()[10], b'T');
    assert_eq!(now.matches('-').count(), 4);
}
