//! The cursor's image.

use vstd::prelude::*;

use crate::text::{decimal, decimal_of};

verus! {

/// The cursor's image as the X server describes it, with its pixels row by
/// row, each in the low 32 bits of its number: alpha, red, green and blue from
/// the highest byte down.
#[allow(non_camel_case_types)]
#[derive(Debug)]
pub struct xcb_xfixes_get_cursor_image {
    pub x: i16,
    pub y: i16,
    pub width: u16,
    pub height: u16,
    pub xhot: u16,
    pub yhot: u16,
    pub cursor_serial: i64,
    pub pixels: Vec<i64>,
}

/// The cursor's image as it is sent: four bytes to a pixel, red, green, blue
/// and alpha.
#[derive(Debug)]
pub struct CursorData {
    pub id: u64,
    pub hotx: i32,
    pub hoty: i32,
    pub width: i32,
    pub height: i32,
    pub colors: Vec<u8>,
}

/// There is no image, or the image is that of another cursor.
#[derive(Debug)]
pub struct CursorError {
    /// The cursor that was asked for.
    pub hcursor: u64,
}

/// The 64 bits of `n` read without a sign.
pub open spec fn unsigned(n: i64) -> u64 {
    if n >= 0 {
        n as u64
    } else {
        (n + 0x1_0000_0000_0000_0000) as u64
    }
}

/// The byte of `pixel` that counts `unit`s.
pub open spec fn channel(pixel: i64, unit: int) -> u8 {
    ((pixel as int / unit) % 256) as u8
}

/// The four bytes of the pixel; a pixel without opacity loses its color.
pub open spec fn rgba(pixel: i64) -> Seq<u8> {
    let alpha = channel(pixel, 0x1000000);
    if alpha == 0 {
        seq![0, 0, 0, 0]
    } else {
        seq![channel(pixel, 0x10000), channel(pixel, 0x100), channel(pixel, 1), alpha]
    }
}

impl xcb_xfixes_get_cursor_image {
    /// How many pixels the image has.
    pub open spec fn area(self) -> int {
        self.width * self.height
    }

    /// The image holds its pixels, and neither their number nor that of their
    /// bytes is beyond what can be counted and stored.
    pub open spec fn wf(self) -> bool {
        &&& self.pixels@.len() == self.area()
        &&& self.area() <= i32::MAX
        &&& self.area() * 4 <= isize::MAX
    }

    /// Whether this is the image of the cursor.
    pub open spec fn is_of(self, hcursor: u64) -> bool {
        unsigned(self.cursor_serial) == hcursor
    }
}

impl CursorData {
    /// The bytes of the pixel at `i`.
    pub open spec fn pixel(self, i: int) -> Seq<u8> {
        self.colors@.subrange(4 * i, 4 * i + 4)
    }

    /// Whether this is what is sent for the image.
    pub open spec fn shows(self, image: xcb_xfixes_get_cursor_image) -> bool {
        &&& self.id == unsigned(image.cursor_serial)
        &&& self.hotx == image.xhot
        &&& self.hoty == image.yhot
        &&& self.width == image.width
        &&& self.height == image.height
        &&& self.colors@.len() == 4 * image.area()
        &&& forall|i: int|
            0 <= i < image.area() ==> #[trigger] self.pixel(i) == rgba(image.pixels@[i])
    }
}

/// The 64 bits of `n` read without a sign.
fn as_unsigned(n: i64) -> (r: u64)
    ensures
        r == unsigned(n),
{
    let r: u64 = n as u64;
    assert(n >= 0 ==> r == n) by (bit_vector)
        requires
            r == n as u64,
    ;
    assert(n < 0 ==> r == n + 0x1_0000_0000_0000_0000) by (bit_vector)
        requires
            r == n as u64,
    ;
    r
}

/// The red, green, blue and alpha bytes of a pixel.
fn channels(p: i64) -> (r: (u8, u8, u8, u8))
    ensures
        r.0 == channel(p, 0x10000),
        r.1 == channel(p, 0x100),
        r.2 == channel(p, 1),
        r.3 == channel(p, 0x1000000),
{
    let a: i64 = (p >> 24) & 0xff;
    let r: i64 = (p >> 16) & 0xff;
    let g: i64 = (p >> 8) & 0xff;
    let b: i64 = (p >> 0) & 0xff;
    assert(a == (p / 0x1000000) % 256 && 0 <= a < 256) by (bit_vector)
        requires
            a == (p >> 24) & 0xff,
    ;
    assert(r == (p / 0x10000) % 256 && 0 <= r < 256) by (bit_vector)
        requires
            r == (p >> 16) & 0xff,
    ;
    assert(g == (p / 0x100) % 256 && 0 <= g < 256) by (bit_vector)
        requires
            g == (p >> 8) & 0xff,
    ;
    assert(b == p % 256 && 0 <= b < 256) by (bit_vector)
        requires
            b == (p >> 0) & 0xff,
    ;
    (r as u8, g as u8, b as u8, a as u8)
}

/// The cursor whose image this is.
pub fn get_cursor(image: Option<&xcb_xfixes_get_cursor_image>) -> (r: Option<u64>)
    ensures
        r == match image {
            Some(image) => Some(unsigned(image.cursor_serial)),
            None => None,
        },
        r is Some <==> image is Some,
        r matches Some(id) ==> id == if image->0.cursor_serial >= 0 {
            image->0.cursor_serial as int
        } else {
            image->0.cursor_serial + 0x1_0000_0000_0000_0000
        },
{
    match image {
        Some(image) => Some(as_unsigned(image.cursor_serial)),
        None => None,
    }
}

/// The colors of the image's pixels, four bytes each.
fn colors_of(image: &xcb_xfixes_get_cursor_image) -> (colors: Vec<u8>)
    requires
        image.wf(),
    ensures
        colors@.len() == 4 * image.area(),
        forall|i: int|
            0 <= i < image.area() ==> #[trigger] colors@.subrange(4 * i, 4 * i + 4) == rgba(
                image.pixels@[i],
            ),
{
    let count: usize = image.pixels.len();
    let mut colors: Vec<u8> = vec![0u8; count * 4];
    let mut pos: usize = 0;
    while pos < count
        invariant
            count == image.pixels@.len(),
            image.wf(),
            pos <= count,
            colors@.len() == 4 * count,
            forall|i: int|
                0 <= i < pos ==> #[trigger] colors@.subrange(4 * i, 4 * i + 4) == rgba(
                    image.pixels@[i],
                ),
            forall|j: int| 4 * pos <= j < 4 * count ==> colors@[j] == 0,
        decreases count - pos,
    {
        let ghost before = colors@;
        let (r, g, b, a) = channels(image.pixels[pos]);
        if a != 0 {
            let at: usize = pos * 4;
            colors.set(at, r);
            colors.set(at + 1, g);
            colors.set(at + 2, b);
            colors.set(at + 3, a);
        }
        assert(colors@.subrange(4 * pos as int, 4 * pos + 4) == rgba(image.pixels@[pos as int]));
        assert forall|i: int| 0 <= i < pos implies #[trigger] colors@.subrange(4 * i, 4 * i + 4)
            == rgba(image.pixels@[i]) by {
            assert(colors@.subrange(4 * i, 4 * i + 4) == before.subrange(4 * i, 4 * i + 4));
        }
        pos = pos + 1;
    }
    colors
}

/// The image of the cursor, as it is sent. It is refused where there is none or
/// where it belongs to another cursor.
pub fn get_cursor_data(hcursor: u64, image: Option<&xcb_xfixes_get_cursor_image>) -> (r: Result<
    CursorData,
    CursorError,
>)
    requires
        image matches Some(image) ==> image.is_of(hcursor) ==> image.wf(),
    ensures
        match r {
            Ok(data) => image matches Some(image) && image.is_of(hcursor) && data.shows(*image),
            Err(error) => {
                &&& error.hcursor == hcursor
                &&& image matches Some(image) ==> !image.is_of(hcursor)
            },
        },
        r is Ok <==> (image matches Some(image) && (hcursor == image.cursor_serial || hcursor
            == image.cursor_serial + 0x1_0000_0000_0000_0000)),
        r matches Err(error) ==> error.hcursor == hcursor,
        r matches Ok(data) ==> {
            let image = image->0;
            &&& data.id == hcursor
            &&& data.hotx == image.xhot && data.hoty == image.yhot
            &&& data.width == image.width && data.height == image.height
            &&& data.colors@.len() == 4 * image.pixels@.len()
            &&& forall|i: int|
                0 <= i < image.pixels@.len() ==> {
                    let pixel = #[trigger] image.pixels@[i] as int;
                    let alpha = pixel / 0x1000000 % 256;
                    let (red, green, blue) = if alpha == 0 {
                        (0, 0, 0)
                    } else {
                        (pixel / 0x10000 % 256, pixel / 0x100 % 256, pixel % 256)
                    };
                    &&& data.colors@[4 * i] == red
                    &&& data.colors@[4 * i + 1] == green
                    &&& data.colors@[4 * i + 2] == blue
                    &&& data.colors@[4 * i + 3] == alpha
                }
        },
{
    if let Some(image) = image {
        if hcursor == as_unsigned(image.cursor_serial) {
            let data = CursorData {
                id: as_unsigned(image.cursor_serial),
                hotx: image.xhot as i32,
                hoty: image.yhot as i32,
                width: image.width as i32,
                height: image.height as i32,
                colors: colors_of(image),
            };
            assert forall|i: int| 0 <= i < image.pixels@.len() implies {
                let pixel = #[trigger] image.pixels@[i] as int;
                let alpha = pixel / 0x1000000 % 256;
                let (red, green, blue) = if alpha == 0 {
                    (0, 0, 0)
                } else {
                    (pixel / 0x10000 % 256, pixel / 0x100 % 256, pixel % 256)
                };
                &&& data.colors@[4 * i] == red
                &&& data.colors@[4 * i + 1] == green
                &&& data.colors@[4 * i + 2] == blue
                &&& data.colors@[4 * i + 3] == alpha
            } by {
                let bytes = data.pixel(i);
                assert(bytes == rgba(image.pixels@[i]));
                assert(bytes[0] == data.colors@[4 * i]);
                assert(bytes[1] == data.colors@[4 * i + 1]);
                assert(bytes[2] == data.colors@[4 * i + 2]);
                assert(bytes[3] == data.colors@[4 * i + 3]);
            }
            return Ok(data);
        }
    }
    Err(CursorError { hcursor })
}

impl CursorError {
    /// The error in words.
    pub fn message(&self) -> (r: String)
        ensures
            r@ == "Failed to get cursor image of "@ + decimal_of(self.hcursor as nat),
    {
        let mut text = "Failed to get cursor image of ".to_owned();
        text.append(decimal(self.hcursor).as_str());
        text
    }
}

/// A byte among the low 32 bits can be read off them alone.
proof fn channel_of_low_bits(pixel: int)
    ensures
        pixel / 0x1000000 % 256 == pixel % 0x1_0000_0000 / 0x1000000,
        pixel / 0x10000 % 256 == pixel % 0x1_0000_0000 / 0x10000 % 256,
        pixel / 0x100 % 256 == pixel % 0x1_0000_0000 / 0x100 % 256,
        pixel / 1 % 256 == pixel % 0x1_0000_0000 % 256,
{
    low_bits_from_bytes(pixel);
    bytes_of_number(
        pixel / 0x1000000 % 256,
        pixel / 0x10000 % 256,
        pixel / 0x100 % 256,
        pixel / 1 % 256,
    );
}

/// A number that is made of four bytes gives each of them back.
proof fn bytes_of_number(a: int, b: int, c: int, d: int)
    requires
        0 <= a < 256,
        0 <= b < 256,
        0 <= c < 256,
        0 <= d < 256,
    ensures
        (a * 0x1000000 + b * 0x10000 + c * 0x100 + d) / 0x1000000 == a,
        (a * 0x1000000 + b * 0x10000 + c * 0x100 + d) / 0x10000 % 256 == b,
        (a * 0x1000000 + b * 0x10000 + c * 0x100 + d) / 0x100 % 256 == c,
        (a * 0x1000000 + b * 0x10000 + c * 0x100 + d) % 256 == d,
{
    let n = a * 0x1000000 + b * 0x10000 + c * 0x100 + d;
    assert(n / 0x10000 == a * 0x100 + b);
    assert(n / 0x100 == a * 0x10000 + b * 0x100 + c);
}

/// Only the low 32 bits of a pixel matter.
pub proof fn rgba_reads_low_bits(a: i64, b: i64)
    requires
        a as int % 0x1_0000_0000 == b as int % 0x1_0000_0000,
    ensures
        rgba(a) == rgba(b),
{
    channel_of_low_bits(a as int);
    channel_of_low_bits(b as int);
    assert(channel(a, 0x1000000) == channel(b, 0x1000000));
    assert(channel(a, 0x10000) == channel(b, 0x10000));
    assert(channel(a, 0x100) == channel(b, 0x100));
    assert(channel(a, 1) == channel(b, 1));
}

/// An image is that of one cursor only, and the cursor that it is reported for is
/// the one that gets it.
pub proof fn reported_cursor_owns_image(image: xcb_xfixes_get_cursor_image, a: u64, b: u64)
    ensures
        image.is_of(a) && image.is_of(b) ==> a == b,
        image.is_of(unsigned(image.cursor_serial)),
{
}

/// A pixel without opacity is sent as nothing, whatever its color; any other is
/// sent with its opacity.
pub proof fn rgba_alpha(pixel: i64)
    ensures
        rgba(pixel).len() == 4,
        rgba(pixel)[3] == channel(pixel, 0x1000000),
        rgba(pixel)[3] == 0 ==> rgba(pixel) == seq![0u8, 0u8, 0u8, 0u8],
{
}

/// The low 32 bits are made of their four bytes.
proof fn low_bits_from_bytes(pixel: int)
    ensures
        pixel % 0x1_0000_0000 == pixel / 0x1000000 % 256 * 0x1000000 + pixel / 0x10000 % 256
            * 0x10000 + pixel / 0x100 % 256 * 0x100 + pixel / 1 % 256,
{
    let q1 = pixel / 0x100;
    let q2 = q1 / 0x100;
    let q3 = q2 / 0x100;
    let q4 = q3 / 0x100;
    assert(pixel / 0x10000 == q2);
    assert(pixel / 0x1000000 == q3);
    let sum = q3 % 0x100 * 0x1000000 + q2 % 0x100 * 0x10000 + q1 % 0x100 * 0x100 + pixel % 0x100;
    assert(q3 == q4 * 0x100 + q3 % 0x100);
    assert(q2 == q3 * 0x100 + q2 % 0x100);
    assert(q1 == q2 * 0x100 + q1 % 0x100);
    assert(pixel == q1 * 0x100 + pixel % 0x100);
    assert(pixel == q4 * 0x1_0000_0000 + sum);
    assert(0 <= sum < 0x1_0000_0000);
}

/// From a pixel with some opacity all its four bytes can be read back.
pub proof fn rgba_keeps_opaque_pixels(pixel: i64)
    requires
        channel(pixel, 0x1000000) != 0,
    ensures
        pixel as int % 0x1_0000_0000 == rgba(pixel)[3] * 0x1000000 + rgba(pixel)[0] * 0x10000
            + rgba(pixel)[1] * 0x100 + rgba(pixel)[2],
{
    low_bits_from_bytes(pixel as int);
    let bytes = rgba(pixel);
    assert(bytes[3] == pixel as int / 0x1000000 % 256);
    assert(bytes[0] == pixel as int / 0x10000 % 256);
    assert(bytes[1] == pixel as int / 0x100 % 256);
    assert(bytes[2] == pixel as int / 1 % 256);
}

} // verus!
