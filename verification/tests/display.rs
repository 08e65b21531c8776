use linux_platform::display::{
    change_resolution, current_resolution, get_width_height_from_captures, get_xrandr_conn_pat,
    list_resolutions, resolution_of, resolutions_query, try_resolutions, Resolution,
    ResolutionError,
};
use linux_platform::pattern::{Captures, Group};

const VIRTUAL: &str = "Screen 0: minimum 320 x 175, current 1920 x 1080, maximum 1920 x 1080\n\
default connected 1920x1080+0+0 0mm x 0mm\n 1920x1080 10.00*\n 1280x720 25.00\n \
1680x1050 60.00\nVirtual2 disconnected (normal left inverted right x axis y axis)\n\
Virtual3 disconnected (normal left inverted right x axis y axis)\n";

const WAYLAND: &str = "XWAYLAND0 connected primary 1920x984+0+0 (normal left inverted right x \
axis y axis) 0mm x 0mm\nVirtual1 connected primary 1920x985+0+0 (normal left inverted right x \
axis y axis) 0mm x 0mm\nHDMI-0 connected (normal left inverted right x axis y axis)\n\n\
rdp0 connected primary 1920x1080+0+0 0mm x 0mm\n";

fn size(width: i32, height: i32) -> Resolution {
    Resolution { width, height }
}

fn group(name: Option<&str>, text: Option<&str>) -> Group {
    Group { name: name.map(str::to_owned), text: text.map(str::to_owned) }
}

fn sized(width: &str, height: &str) -> Captures {
    Captures {
        groups: vec![
            group(None, Some("all")),
            group(Some("width"), Some(width)),
            group(Some("height"), Some(height)),
        ],
    }
}

#[test]
fn modes_of_a_virtual_output() {
    assert_eq!(
        try_resolutions("default", VIRTUAL).unwrap(),
        vec![size(1920, 1080), size(1280, 720), size(1680, 1050)]
    );
    assert_eq!(try_resolutions("Virtual2", VIRTUAL).unwrap(), vec![]);
}

#[test]
fn outputs_without_modes_list_none() {
    assert_eq!(try_resolutions("XWAYLAND0", WAYLAND).unwrap(), vec![]);
    assert_eq!(try_resolutions("rdp0", WAYLAND).unwrap(), vec![]);
    assert_eq!(try_resolutions("default", "").unwrap(), vec![]);
}

#[test]
fn name_that_makes_no_pattern_lists_none() {
    assert_eq!(try_resolutions("(", VIRTUAL).unwrap(), vec![]);
    assert_eq!(resolutions_query("("), None);
    assert_eq!(resolutions_query("default"), Some("xrandr --query | tr -s ' '"));
}

#[test]
fn repeated_modes_are_listed_once() {
    let report = "default connected 800x600+0+0 0mm x 0mm\n 800x600 60.00*\n 640x480 50.00\n \
                  800x600 75.00 70.00\n 640x480 30.00 *\n 320x240 1.5\n";
    assert_eq!(
        try_resolutions("default", report).unwrap(),
        vec![size(800, 600), size(640, 480), size(320, 240)]
    );
}

#[test]
fn rows_that_are_no_mode_are_passed_over() {
    let report = "default connected 800x600+0+0 0mm x 0mm\n 800x600 60.00*+\n 640x480 50.00\n \
                  99999999999x1 50.00\n";
    assert_eq!(try_resolutions("default", report).unwrap(), vec![size(640, 480)]);
}

#[test]
fn size_of_a_connected_output() {
    assert_eq!(current_resolution("default", VIRTUAL).unwrap(), size(1920, 1080));
    assert_eq!(current_resolution("XWAYLAND0", WAYLAND).unwrap(), size(1920, 984));
    assert_eq!(current_resolution("Virtual1", WAYLAND).unwrap(), size(1920, 985));
    assert_eq!(current_resolution("rdp0", WAYLAND).unwrap(), size(1920, 1080));
}

#[test]
fn size_of_a_missing_output() {
    for name in ["HDMI-0", "DP-1"] {
        let error = current_resolution(name, WAYLAND).unwrap_err();
        assert!(matches!(&error, ResolutionError::NotFound(missing) if missing == name));
        assert_eq!(
            error.message(),
            format!("Failed to find current resolution for {}", name)
        );
    }
    let huge = "a connected 4294967296x1+0+0 \n";
    assert!(matches!(current_resolution("a", huge), Err(ResolutionError::NotFound(_))));
}

#[test]
fn size_with_a_bad_pattern() {
    let error = current_resolution("[", VIRTUAL).unwrap_err();
    let expected = regex::Regex::new(&get_xrandr_conn_pat("[")).unwrap_err().to_string();
    assert!(expected.contains("unclosed character class"));
    assert!(matches!(&error, ResolutionError::Pattern(text) if *text == expected));
    assert_eq!(error.message(), expected);
    let other = current_resolution("(", VIRTUAL).unwrap_err();
    assert!(other.message().contains("unclosed group"));
}

#[test]
fn pattern_of_an_output() {
    assert_eq!(
        get_xrandr_conn_pat("eDP-1"),
        r"eDP-1\s+connected.+?(?P<width>\d+)x(?P<height>\d+)\+(?P<x>\d+)\+(?P<y>\d+).*?\n"
    );
}

#[test]
fn size_from_groups() {
    assert_eq!(get_width_height_from_captures(&sized("640", "480")), Some((640, 480)));
    assert_eq!(get_width_height_from_captures(&sized("+640", "-480")), Some((640, -480)));
    assert_eq!(get_width_height_from_captures(&sized("2147483647", "-2147483648")), Some((
        2147483647,
        -2147483648
    )));
    for bad in ["", "+", "-", " 1", "1 ", "0x1", "2147483648", "-2147483649", "\u{661}", "1_0"] {
        assert_eq!(get_width_height_from_captures(&sized(bad, "1")), None);
        assert_eq!(get_width_height_from_captures(&sized("1", bad)), None);
    }
    let missing = Captures { groups: vec![group(Some("width"), Some("1"))] };
    assert_eq!(get_width_height_from_captures(&missing), None);
    let absent = Captures {
        groups: vec![group(Some("width"), Some("1")), group(Some("height"), None)],
    };
    assert_eq!(get_width_height_from_captures(&absent), None);
}

#[test]
fn listing_keeps_the_first_of_each() {
    let rows = vec![sized("1", "2"), sized("3", "4"), sized("x", "4"), sized("1", "2")];
    assert_eq!(list_resolutions(&rows), vec![size(1, 2), size(3, 4)]);
    assert_eq!(list_resolutions(&vec![]), vec![]);
}

#[test]
fn resolution_of_a_match() {
    assert_eq!(resolution_of("a", Some(&sized("7", "8"))).unwrap(), size(7, 8));
    assert!(matches!(resolution_of("a", None), Err(ResolutionError::NotFound(name)) if name == "a"));
    assert!(resolution_of("a", Some(&sized("7", ""))).is_err());
}

#[test]
fn arguments_that_change_a_resolution() {
    assert_eq!(
        change_resolution("HDMI-0", 1920, 1080),
        vec!["--output", "HDMI-0", "--mode", "1920x1080"]
    );
    assert_eq!(change_resolution("", 0, 10)[3], "0x10");
}

#[test]
fn written_sizes_are_read_back() {
    for n in [0usize, 7, 10, 1080, 2147483647] {
        let mode = &change_resolution("a", n, n)[3];
        let (width, height) = mode.split_once('x').unwrap();
        let read = get_width_height_from_captures(&sized(width, height));
        assert_eq!(read, Some((n as i32, n as i32)));
    }
    let mode = &change_resolution("a", 2147483648, 1)[3];
    assert_eq!(get_width_height_from_captures(&sized(&mode[..10], "1")), None);
}

#[test]
fn more_rows_only_add() {
    let few = list_resolutions(&vec![sized("1", "2"), sized("3", "4")]);
    let more = list_resolutions(&vec![sized("1", "2"), sized("3", "4"), sized("5", "6")]);
    assert_eq!(few[..], more[..2]);
    assert_eq!(more[2], size(5, 6));
}
