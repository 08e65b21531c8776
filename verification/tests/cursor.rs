use linux_platform::cursor::{get_cursor, get_cursor_data, xcb_xfixes_get_cursor_image};

fn image(serial: i64, width: u16, height: u16, pixels: Vec<i64>) -> xcb_xfixes_get_cursor_image {
    xcb_xfixes_get_cursor_image {
        x: -3,
        y: 4,
        width,
        height,
        xhot: 5,
        yhot: 65535,
        cursor_serial: serial,
        pixels,
    }
}

#[test]
fn cursor_of_an_image() {
    assert_eq!(get_cursor(None), None);
    assert_eq!(get_cursor(Some(&image(42, 0, 0, vec![]))), Some(42));
    assert_eq!(get_cursor(Some(&image(-1, 0, 0, vec![]))), Some(u64::MAX));
}

#[test]
fn colors_are_reordered() {
    let shown = image(7, 2, 1, vec![0xff112233, 0x80aabbcc]);
    let data = get_cursor_data(7, Some(&shown)).unwrap();
    assert_eq!(data.id, 7);
    assert_eq!((data.hotx, data.hoty, data.width, data.height), (5, 65535, 2, 1));
    assert_eq!(data.colors, vec![0x11, 0x22, 0x33, 0xff, 0xaa, 0xbb, 0xcc, 0x80]);
}

#[test]
fn transparent_pixels_lose_their_color() {
    let shown = image(7, 1, 2, vec![0x00112233, 0x01000000]);
    let data = get_cursor_data(7, Some(&shown)).unwrap();
    assert_eq!(data.colors, vec![0, 0, 0, 0, 0, 0, 0, 1]);
}

#[test]
fn high_bits_of_a_pixel_are_ignored() {
    let low = image(7, 1, 1, vec![0xff112233]);
    let high = image(7, 1, 1, vec![0xff112233 - 0x1_0000_0000]);
    let low = get_cursor_data(7, Some(&low)).unwrap();
    let high = get_cursor_data(7, Some(&high)).unwrap();
    assert_eq!(low.colors, high.colors);
    assert_eq!(high.colors, vec![0x11, 0x22, 0x33, 0xff]);
}

#[test]
fn other_cursors_are_refused() {
    let error = get_cursor_data(8, Some(&image(7, 1, 1, vec![0]))).unwrap_err();
    assert_eq!(error.hcursor, 8);
    assert_eq!(error.message(), "Failed to get cursor image of 8");
    let error = get_cursor_data(u64::MAX, None).unwrap_err();
    assert_eq!(error.message(), "Failed to get cursor image of 18446744073709551615");
    assert!(get_cursor_data(u64::MAX, Some(&image(-1, 0, 0, vec![]))).is_ok());
}

#[test]
fn larger_image_is_whole() {
    let pixels: Vec<i64> = (0..600).map(|i| 0x7f000000 + i).collect();
    let data = get_cursor_data(1, Some(&image(1, 30, 20, pixels))).unwrap();
    assert_eq!(data.colors.len(), 2400);
    assert_eq!(&data.colors[2396..], &[0, 2, 0x57, 0x7f]);
}

#[test]
fn reported_cursor_is_served() {
    for serial in [0, 1, i64::MAX, i64::MIN, -1] {
        let shown = image(serial, 1, 1, vec![0]);
        let hcursor = get_cursor(Some(&shown)).unwrap();
        assert_eq!(get_cursor_data(hcursor, Some(&shown)).unwrap().id, hcursor);
        assert!(get_cursor_data(hcursor ^ 1, Some(&shown)).is_err());
    }
}
