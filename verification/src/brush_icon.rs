//! A brush's own icon, kept as text: `rgba64:` and then the 64 by 64 RGBA
//! pixels, two hexadecimal digits a byte. The text travels inside a brush's
//! name record, so it has to survive being saved and read back exactly.

use vstd::prelude::*;
use vstd::string::is_ascii;
use vstd::utf8::is_ascii_chars;
use crate::text::has_prefix;

verus! {

/// Side of an icon, in pixels.
pub const ICON_SIDE: usize = 64;

/// Bytes of an icon: four per pixel.
pub const ICON_BYTES: usize = 16384;

/// Hexadecimal digits of an icon: two per byte.
pub const ICON_DIGITS: usize = 32768;

/// What an icon's text starts with.
pub open spec fn icon_prefix() -> Seq<char> {
    "rgba64:"@
}

/// The character of a hexadecimal digit, lower case.
pub open spec fn hex_digit(d: nat) -> char {
    (if d < 10 { 48 + d } else { 87 + d }) as char
}

/// Bytes written out two lower-case hexadecimal digits each, high digit first.
pub open spec fn hex_text(bytes: Seq<u8>) -> Seq<char> {
    Seq::new(
        2 * bytes.len(),
        |i: int|
            if i % 2 == 0 {
                hex_digit((bytes[i / 2] / 16) as nat)
            } else {
                hex_digit((bytes[i / 2] % 16) as nat)
            },
    )
}

/// The text an icon is kept as.
pub open spec fn icon_text(bytes: Seq<u8>) -> Seq<char> {
    icon_prefix() + hex_text(bytes)
}

/// One hexadecimal digit as text.
fn hex_digit_text(d: u8) -> (r: &'static str)
    requires
        d < 16,
    ensures
        r@ == seq![hex_digit(d as nat)],
{
    match d {
        0 => {
            proof { reveal_strlit("0"); }
            "0"
        },
        1 => {
            proof { reveal_strlit("1"); }
            "1"
        },
        2 => {
            proof { reveal_strlit("2"); }
            "2"
        },
        3 => {
            proof { reveal_strlit("3"); }
            "3"
        },
        4 => {
            proof { reveal_strlit("4"); }
            "4"
        },
        5 => {
            proof { reveal_strlit("5"); }
            "5"
        },
        6 => {
            proof { reveal_strlit("6"); }
            "6"
        },
        7 => {
            proof { reveal_strlit("7"); }
            "7"
        },
        8 => {
            proof { reveal_strlit("8"); }
            "8"
        },
        9 => {
            proof { reveal_strlit("9"); }
            "9"
        },
        10 => {
            proof { reveal_strlit("a"); }
            "a"
        },
        11 => {
            proof { reveal_strlit("b"); }
            "b"
        },
        12 => {
            proof { reveal_strlit("c"); }
            "c"
        },
        13 => {
            proof { reveal_strlit("d"); }
            "d"
        },
        14 => {
            proof { reveal_strlit("e"); }
            "e"
        },
        _ => {
            proof { reveal_strlit("f"); }
            "f"
        },
    }
}

/// Writes an icon's pixels as the text it is kept as.
pub fn encode_icon(rgba: &Vec<u8>) -> (r: String)
    ensures
        r@ == icon_text(rgba@),
{
    let mut out = String::from_str("rgba64:");
    let mut i: usize = 0;
    while i < rgba.len()
        invariant
            i <= rgba@.len(),
            out@ == icon_prefix() + hex_text(rgba@.take(i as int)),
        decreases rgba@.len() - i,
    {
        let b = rgba[i];
        let ghost before = out@;
        out.append(hex_digit_text(b / 16));
        out.append(hex_digit_text(b % 16));
        proof {
            assert(hex_text(rgba@.take(i + 1)) =~= hex_text(rgba@.take(i as int)) + seq![
                hex_digit((b / 16) as nat),
                hex_digit((b % 16) as nat),
            ]);
        }
        i = i + 1;
    }
    proof {
        assert(rgba@.take(i as int) =~= rgba@);
    }
    out
}

/// What `image::DynamicImage::resize_exact` with the Lanczos filter makes of
/// an RGBA image of `width` by `height` (row by row, four bytes a pixel),
/// scaled to exactly `nwidth` by `nheight`.
pub uninterp spec fn lanczos_exact(width: u32, height: u32, rgba: Seq<u8>, nwidth: u32, nheight: u32) -> Seq<u8>;

/// Scales an RGBA image to an exact size with `image`'s
/// `DynamicImage::resize_exact` and the Lanczos filter (the image is built
/// with `RgbaImage::from_raw` and read back with `into_rgba8` and
/// `into_raw`). Trusted to give the same bytes for the same image and size,
/// and a buffer of four bytes for each pixel of the new size; which bytes the
/// filter makes is left unsaid.
#[verifier::external_body]
fn resize_exact_rgba(width: u32, height: u32, rgba: Vec<u8>, nwidth: u32, nheight: u32) -> (r: Vec<u8>)
    requires
        rgba@.len() == width * height * 4,
        nwidth * nheight * 4 <= usize::MAX,
    ensures
        r@ == lanczos_exact(width, height, rgba@, nwidth, nheight),
        r@.len() == nwidth * nheight * 4,
{
    let image = image::RgbaImage::from_raw(width, height, rgba).unwrap();
    image::DynamicImage::ImageRgba8(image)
        .resize_exact(nwidth, nheight, image::imageops::FilterType::Lanczos3)
        .into_rgba8()
        .into_raw()
}

/// An icon made from a picture: the picture scaled to the icon's side with
/// the Lanczos filter, then written out as icon text.
pub fn icon_from_image(width: u32, height: u32, rgba: Vec<u8>) -> (r: String)
    requires
        rgba@.len() == width * height * 4,
    ensures
        r@ == icon_text(lanczos_exact(width, height, rgba@, 64, 64)),
{
    let side: u32 = 64;
    let scaled = resize_exact_rgba(width, height, rgba, side, side);
    encode_icon(&scaled)
}

/// The value of a hexadecimal digit, in either case.
pub open spec fn hex_value(c: char) -> Option<nat> {
    let n = c as int;
    if 48 <= n <= 57 {
        Some((n - 48) as nat)
    } else if 97 <= n <= 102 {
        Some((n - 87) as nat)
    } else if 65 <= n <= 70 {
        Some((n - 55) as nat)
    } else {
        None
    }
}

/// The byte two characters stand for, read as a number in base sixteen
/// with an optional leading plus sign: two digits, or a plus and one digit.
pub open spec fn pair_value(a: char, b: char) -> Option<u8> {
    if a == '+' {
        match hex_value(b) {
            Some(v) => Some(v as u8),
            None => None,
        }
    } else {
        match (hex_value(a), hex_value(b)) {
            (Some(x), Some(y)) => Some((16 * x + y) as u8),
            _ => None,
        }
    }
}

/// The pixels an icon's text stands for: the prefix, then exactly two ASCII
/// characters per byte of a 64 by 64 image, each pair a byte. Anything else
/// stands for no icon.
pub open spec fn icon_pixels(key: Seq<char>) -> Option<Seq<u8>> {
    let digits = key.skip(icon_prefix().len() as int);
    if !has_prefix(key, icon_prefix()) || digits.len() != ICON_DIGITS || !is_ascii_chars(digits) {
        None
    } else if forall|k: int| 0 <= k < ICON_BYTES ==> (#[trigger] pair_value(digits[2 * k], digits[2 * k + 1])) is Some {
        Some(Seq::new(ICON_BYTES as nat, |k: int| pair_value(digits[2 * k], digits[2 * k + 1])->0))
    } else {
        None
    }
}

/// The value of a hexadecimal digit given by its character code.
fn hex_value_of(c: u8) -> (r: Option<u8>)
    ensures
        match hex_value((c as u32) as char) {
            Some(v) => r == Some(v as u8),
            None => r is None,
        },
{
    if 48 <= c && c <= 57 {
        Some(c - 48)
    } else if 97 <= c && c <= 102 {
        Some(c - 87)
    } else if 65 <= c && c <= 70 {
        Some(c - 55)
    } else {
        None
    }
}

/// Reads an icon back from its text, or nothing when the text is not one.
pub fn decode_icon(key: &str) -> (r: Option<Vec<u8>>)
    ensures
        match r {
            Some(v) => icon_pixels(key@) == Some(v@),
            None => icon_pixels(key@) is None,
        },
{
    let ghost prefix = icon_prefix();
    proof {
        reveal_strlit("rgba64:");
    }
    if !key.is_ascii() {
        proof {
            let digits = key@.skip(7);
            if has_prefix(key@, prefix) {
                assert(!is_ascii_chars(digits)) by {
                    let i = choose|i: int| 0 <= i < key@.len() && !('\0' <= #[trigger] key@[i] <= '\u{7f}');
                    assert(i >= 7) by {
                        if i < 7 {
                            assert(key@.take(7)[i] == prefix[i]);
                        }
                    }
                    assert(digits[i - 7] == key@[i]);
                }
            }
        }
        return None;
    }
    let n = key.unicode_len();
    if n != 7 + ICON_DIGITS {
        proof {
            if key@.len() >= 7 {
                assert(key@.skip(7).len() == key@.len() - 7);
            } else {
                assert(!has_prefix(key@, prefix));
            }
        }
        return None;
    }
    let mut k: usize = 0;
    while k < 7
        invariant
            prefix == "rgba64:"@,
            prefix.len() == 7,
            is_ascii_chars(key@),
            key@.len() == 7 + ICON_DIGITS,
            k <= 7,
            forall|j: int| 0 <= j < k ==> key@[j] == prefix[j],
        decreases 7 - k,
    {
        proof {
            reveal_strlit("rgba64:");
            assert(is_ascii("rgba64:")) by {
                assert forall|j: int| 0 <= j < ("rgba64:"@).len() implies '\0' <= #[trigger] ("rgba64:"@)[j]
                    <= '\u{7f}' by {}
            }
        }
        let c = key.get_ascii(k);
        let want = "rgba64:".get_ascii(k);
        if c != want {
            proof {
                assert(key@.take(7)[k as int] != prefix[k as int]);
            }
            return None;
        }
        proof {
            same_code_same_char(key@[k as int], prefix[k as int], c);
        }
        k = k + 1;
    }
    proof {
        assert(key@.take(7) =~= prefix);
    }
    let ghost digits = key@.skip(7);
    let mut out: Vec<u8> = Vec::new();
    let mut i: usize = 0;
    while i < ICON_BYTES
        invariant
            digits == key@.skip(7),
            digits.len() == ICON_DIGITS,
            is_ascii_chars(key@),
            key@.len() == 7 + ICON_DIGITS,
            i <= ICON_BYTES,
            out@.len() == i,
            forall|j: int| 0 <= j < i ==> (#[trigger] pair_value(digits[2 * j], digits[2 * j + 1])) == Some(out@[j]),
        decreases ICON_BYTES - i,
    {
        let a = key.get_ascii(7 + 2 * i);
        let b = key.get_ascii(7 + 2 * i + 1);
        proof {
            ascii_code(key@[7 + 2 * i], a);
            ascii_code(key@[7 + 2 * i + 1], b);
            assert(digits[2 * i as int] == key@[7 + 2 * i]);
            assert(digits[2 * i + 1] == key@[7 + 2 * i + 1]);
        }
        let hi = hex_value_of(a);
        let lo = hex_value_of(b);
        let byte = if a == 43 {
            match lo {
                Some(v) => v,
                None => {
                    proof {
                        assert(pair_value(digits[2 * i as int], digits[2 * i + 1]) is None);
                    }
                    return None;
                },
            }
        } else {
            match (hi, lo) {
                (Some(x), Some(y)) => 16 * x + y,
                _ => {
                    proof {
                        assert(pair_value(digits[2 * i as int], digits[2 * i + 1]) is None);
                    }
                    return None;
                },
            }
        };
        let ghost before = out@;
        out.push(byte);
        proof {
            assert(pair_value(digits[2 * i as int], digits[2 * i + 1]) == Some(byte));
            assert forall|j: int| 0 <= j < i + 1 implies (#[trigger] pair_value(digits[2 * j], digits[2 * j + 1]))
                == Some(out@[j]) by {
                if j < i {
                    assert(out@[j] == before[j]);
                }
            }
        }
        i = i + 1;
    }
    proof {
        assert(out@ =~= Seq::new(ICON_BYTES as nat, |k: int| pair_value(digits[2 * k], digits[2 * k + 1])->0));
    }
    Some(out)
}

/// An ASCII character and the code `get_ascii` reads for it are the same.
proof fn ascii_code(c: char, b: u8)
    requires
        '\0' <= c <= '\u{7f}',
        c as u8 == b,
    ensures
        (b as u32) as char == c,
{
}

/// Two ASCII characters with the same code are the same.
proof fn same_code_same_char(c: char, d: char, b: u8)
    requires
        '\0' <= c <= '\u{7f}',
        '\0' <= d <= '\u{7f}',
        c as u8 == b,
        d as u8 == b,
    ensures
        c == d,
{
}

/// An icon comes back exactly as it was written.
pub proof fn icons_read_back_as_written(bytes: Seq<u8>)
    requires
        bytes.len() == ICON_BYTES,
    ensures
        icon_pixels(icon_text(bytes)) == Some(bytes),
{
    reveal_strlit("rgba64:");
    let key = icon_text(bytes);
    let digits = key.skip(7);
    assert(key.take(7) =~= icon_prefix());
    assert(digits =~= hex_text(bytes));
    assert forall|k: int| 0 <= k < ICON_BYTES implies (#[trigger] pair_value(digits[2 * k], digits[2 * k + 1]))
        == Some(bytes[k]) by {
        let (hi, lo) = ((bytes[k] / 16) as nat, (bytes[k] % 16) as nat);
        assert((2 * k) / 2 == k && (2 * k) % 2 == 0);
        assert((2 * k + 1) / 2 == k && (2 * k + 1) % 2 == 1);
        assert(digits[2 * k] == hex_digit(hi));
        assert(digits[2 * k + 1] == hex_digit(lo));
    }
    assert(Seq::new(ICON_BYTES as nat, |k: int| pair_value(digits[2 * k], digits[2 * k + 1])->0) =~= bytes);
}

} // verus!
