use linux_platform::desktop::{
    _get_display_manager, active_user_home_candidate, current_is_wayland, get_active_user_home,
    get_active_user_id_name, get_active_userid, get_active_username, is_login_wayland, is_prelogin,
    is_root, Desktop,
};
use linux_platform::input::{block_input, is_installed, reset_input_cache, toggle_blank_screen};

#[test]
fn session_user() {
    let desktop = Desktop {
        uid: "1000".to_owned(),
        username: "ann".to_owned(),
        wayland: true,
        ..Desktop::default()
    };
    assert_eq!(get_active_user_id_name(&desktop), ("1000".to_owned(), "ann".to_owned()));
    assert_eq!(get_active_userid(&desktop), "1000");
    assert_eq!(get_active_username(&desktop), "ann");
    assert!(current_is_wayland(&desktop, true));
    assert!(!current_is_wayland(&desktop, false));
    assert!(!current_is_wayland(&Desktop::default(), true));
    assert!(Desktop::default().sid.is_empty());
}

#[test]
fn prelogin_by_id_or_name() {
    assert!(!is_prelogin("120", "gdm"));
    assert!(is_prelogin("1000", "ann"));
    assert!(is_prelogin("0", "root"));
    assert!(is_prelogin("\u{e9}\u{e9}", ""));
    assert!(!is_prelogin("", ""));
}

#[test]
fn root_by_name() {
    assert!(is_root("root"));
    assert!(!is_root("Root"));
    assert!(!is_root(""));
}

#[test]
fn login_screen_on_wayland() {
    let off = "[daemon]\nWaylandEnable=false\n";
    let commented = "[daemon]\n#WaylandEnable=false\n";
    let on = "[daemon]\nWaylandEnable=true\n";
    assert!(!is_login_wayland(Some(off), None));
    assert!(is_login_wayland(Some(commented), None));
    assert!(is_login_wayland(Some(on), Some(off)));
    assert!(!is_login_wayland(Some(off), Some(on)));
    assert!(is_login_wayland(None, Some(on)));
    assert!(!is_login_wayland(None, Some("")));
    assert!(!is_login_wayland(None, None));
}

#[test]
fn display_manager_is_the_last_part() {
    assert_eq!(_get_display_manager(Some("/usr/sbin/lightdm\n")), "lightdm\n");
    assert_eq!(_get_display_manager(Some("sddm")), "sddm");
    assert_eq!(_get_display_manager(Some("/usr/sbin/")), "");
    assert_eq!(_get_display_manager(Some("")), "");
    assert_eq!(_get_display_manager(None), "gdm3");
}

#[test]
fn home_of_a_user() {
    assert_eq!(active_user_home_candidate("ann").unwrap(), "/home/ann");
    assert_eq!(active_user_home_candidate(""), None);
    assert_eq!(get_active_user_home("ann", true).unwrap(), "/home/ann");
    assert_eq!(get_active_user_home("ann", false), None);
    assert_eq!(get_active_user_home("", true), None);
}

#[test]
fn unsupported_controls() {
    reset_input_cache();
    toggle_blank_screen(true);
    assert!(block_input(false));
    assert!(is_installed());
}
