use sculpt_app::brush_icon::{decode_icon, encode_icon, icon_from_image, ICON_BYTES, ICON_DIGITS, ICON_SIDE};

/// An icon's pixels as the standard library's parser reads them.
fn reference(key: &str) -> Option<Vec<u8>> {
    let hex = key.strip_prefix("rgba64:")?;
    if hex.len() != 64 * 64 * 8 || !hex.is_ascii() {
        return None;
    }
    (0..hex.len()).step_by(2).map(|n| u8::from_str_radix(&hex[n..n + 2], 16).ok()).collect()
}

/// An icon's text as the standard formatter writes it.
fn written(bytes: &[u8]) -> String {
    let mut icon = String::from("rgba64:");
    for byte in bytes {
        icon.push_str(&format!("{byte:02x}"));
    }
    icon
}

fn pixels(seed: u32) -> Vec<u8> {
    let mut x = seed.wrapping_mul(2654435761).wrapping_add(1);
    (0..ICON_BYTES)
        .map(|_| {
            x ^= x << 13;
            x ^= x >> 17;
            x ^= x << 5;
            (x >> 7) as u8
        })
        .collect()
}

#[test]
fn an_icon_reads_back_as_written() {
    assert_eq!(ICON_SIDE * ICON_SIDE * 4, ICON_BYTES);
    assert_eq!(ICON_BYTES * 2, ICON_DIGITS);
    for seed in 0..4 {
        let bytes = pixels(seed);
        let text = encode_icon(&bytes);
        assert_eq!(text, written(&bytes));
        assert_eq!(decode_icon(&text), Some(bytes));
    }
}

#[test]
fn icon_text_is_read_the_way_the_parser_reads_it() {
    let base = written(&pixels(9));
    let mut cases = vec![
        base.clone(),
        base.to_uppercase().replacen("RGBA64:", "rgba64:", 1),
        base.replacen("rgba64:", "rgba65:", 1),
        base[..base.len() - 2].to_string(),
        format!("{base}00"),
        String::new(),
        "rgba64:".to_string(),
    ];
    for (at, with) in [(7, "+f"), (9, "+0"), (7, "-1"), (7, "++"), (11, "g0"), (13, "0 "), (7, "é")] {
        let mut s = base.clone();
        s.replace_range(at..at + with.len().min(2), with);
        cases.push(s);
    }
    for case in cases {
        assert_eq!(decode_icon(&case), reference(&case), "{}", &case[..case.len().min(20)]);
    }
}

/// A picture of the icon's own size is kept as it is; any other is scaled to
/// the icon's side, so a flat colour stays that colour.
#[test]
fn pictures_are_scaled_to_an_icon() {
    let same: Vec<u8> = (0..ICON_BYTES).map(|i| (i * 7 % 251) as u8).collect();
    assert_eq!(icon_from_image(64, 64, same.clone()), encode_icon(&same));
    let small = [10u8, 20, 30, 255].repeat(4);
    let icon = icon_from_image(2, 2, small);
    assert_eq!(icon.len(), 7 + ICON_DIGITS);
    assert_eq!(decode_icon(&icon), Some([10u8, 20, 30, 255].repeat(ICON_SIDE * ICON_SIDE)));
}
