use linux_platform::desktop::Desktop;
use linux_platform::process::{
    check_super_user_permission, get_cm, is_cm_listed, is_opensuse, run_as_user, super_user_probe,
    STOP_SERVERS,
};

const LIST: &str = "USER PID COMMAND\nann 7 /usr/bin/app --cm\r\nann 8 /usr/bin/app --server\n";

#[test]
fn connection_manager_in_the_list() {
    assert!(is_cm_listed(LIST, "/usr/bin/app"));
    assert!(!is_cm_listed(LIST, "/usr/bin/other"));
    assert!(!is_cm_listed("", ""));
    assert!(is_cm_listed("x --cm", "x"));
    assert!(!is_cm_listed("a\nb --cm", "a\nb"));
    assert!(!is_cm_listed("a --c\nm", "a"));
}

#[test]
fn connection_manager_from_bytes() {
    assert!(get_cm(Some(LIST.as_bytes()), "/usr/bin/app"));
    assert!(!get_cm(Some(b"ann 8 app --server\n"), "app"));
    assert!(get_cm(Some(b"\xff\xfe\napp\xff --cm\n"), "app\u{fffd}"));
    assert!(!get_cm(None, ""));
    let list = "ann 7 /opt/b\u{fc}ro/\u{1f4bb} --cm\n";
    assert!(get_cm(Some(list.as_bytes()), "/opt/b\u{fc}ro/\u{1f4bb}"));
    assert!(!get_cm(Some(list.as_bytes()), "/opt/buro/\u{1f4bb}"));
}

#[test]
fn carriage_return_belongs_to_the_line_end() {
    assert!(!is_cm_listed("a\r\n", "a\r"));
    assert!(is_cm_listed("a\r --cm\r\n", "a\r"));
}

#[test]
fn opensuse_by_output() {
    assert!(is_opensuse(Some("ID=opensuse\n")));
    assert!(!is_opensuse(Some("")));
    assert!(!is_opensuse(None));
}

#[test]
fn arguments_for_a_given_user() {
    let user = Some(("1000".to_owned(), "ann".to_owned()));
    let arg = vec!["--server".to_owned()];
    assert_eq!(
        run_as_user(&arg, user.clone(), &Desktop::default(), "/usr/bin/app", false),
        vec!["XDG_RUNTIME_DIR=/run/user/1000", "-u", "ann", "/usr/bin/app", "--server"]
    );
    assert_eq!(
        run_as_user(&arg, user, &Desktop::default(), "/usr/bin/app", true),
        vec!["-E", "XDG_RUNTIME_DIR=/run/user/1000", "-u", "ann", "/usr/bin/app", "--server"]
    );
}

#[test]
fn arguments_for_the_active_user() {
    let active = Desktop {
        uid: "7".to_owned(),
        username: "bob".to_owned(),
        ..Desktop::default()
    };
    let arg = vec!["a".to_owned(), "b".to_owned()];
    assert_eq!(
        run_as_user(&arg, None, &active, "", false),
        vec!["XDG_RUNTIME_DIR=/run/user/7", "-u", "bob", "", "a", "b"]
    );
}

#[test]
fn permission_needs_success_and_code_zero() {
    assert!(check_super_user_permission(true, Some(0)));
    assert!(!check_super_user_permission(true, Some(1)));
    assert!(!check_super_user_permission(false, Some(0)));
    assert!(!check_super_user_permission(true, None));
    assert_eq!(super_user_probe(true), "/usr/share/rustdesk/files/polkit");
    assert_eq!(super_user_probe(false), "echo");
}

#[test]
fn command_that_stops_servers() {
    assert_eq!(
        STOP_SERVERS,
        "ps -ef | grep -E 'rustdesk +--server' | awk '{printf(\"kill -9 %d\\n\", $2)}' | bash"
    );
}
