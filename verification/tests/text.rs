use sculpt_app::text::{
    format_bytes, holes_message, key_name, remeshed_message, shortcut_for, triangles_message,
    voxel_on_message,
};

/// What the statistics readout prints, by the standard float formatter.
fn reference(n: u64) -> String {
    match n {
        0 => "none".into(),
        n if n < 1024 => format!("{n} B"),
        n if n < 1024 * 1024 => format!("{:.0} kB", n as f64 / 1024.0),
        n => format!("{:.1} MB", n as f64 / (1024.0 * 1024.0)),
    }
}

#[test]
fn byte_counts_read_as_the_statistics_print_them() {
    assert_eq!(format_bytes(0), "none");
    assert_eq!(format_bytes(1), "1 B");
    assert_eq!(format_bytes(1023), "1023 B");
    assert_eq!(format_bytes(1024), "1 kB");
    assert_eq!(format_bytes(1536), "2 kB");
    assert_eq!(format_bytes(2560), "2 kB");
    assert_eq!(format_bytes(1024 * 1024), "1.0 MB");
    assert_eq!(format_bytes(1024 * 1024 * 3 / 2), "1.5 MB");
    assert_eq!(format_bytes(u64::MAX), reference(u64::MAX));
}

#[test]
fn byte_counts_agree_with_the_float_formatter() {
    let mut samples: Vec<u64> = (0..5000u64).collect();
    for shift in 10..64 {
        let base = 1u64 << shift;
        for d in [0u64, 1, 2, 3, 511, 512, 513, 1023] {
            samples.push(base.wrapping_add(d));
            samples.push(base.wrapping_sub(d));
            samples.push(base / 2 * 3 + d);
        }
    }
    let mut x: u64 = 0x9e37_79b9_7f4a_7c15;
    for _ in 0..20000 {
        x ^= x << 13;
        x ^= x >> 7;
        x ^= x << 17;
        samples.push(x >> (x % 40));
    }
    for k in 0..4000u64 {
        // Ties at a half of a tenth of a megabyte and a half kilobyte.
        samples.push(k * 1024 + 512);
        samples.push(k * 104_857 + 52_428);
    }
    for n in samples {
        assert_eq!(format_bytes(n), reference(n), "{n}");
    }
}

#[test]
fn tool_shortcuts_follow_the_digit_row() {
    let shown: Vec<String> = (0..17).map(shortcut_for).collect();
    assert_eq!(shown[0], "1");
    assert_eq!(shown[8], "9");
    assert_eq!(shown[9], "0");
    assert_eq!(shown[10], "Shift+1");
    assert_eq!(shown[15], "Shift+6");
    assert_eq!(shown[16], "-");
    assert_eq!(shortcut_for(usize::MAX), "-");
}

#[test]
fn key_names_drop_the_windowing_prefixes() {
    assert_eq!(key_name("KeyA"), "A");
    assert_eq!(key_name("Digit1"), "1");
    assert_eq!(key_name("Numpad5"), "Numpad 5");
    assert_eq!(key_name("Space"), "Space");
    assert_eq!(key_name("Key"), "");
}

#[test]
fn status_lines_count_what_changed() {
    assert_eq!(holes_message(0), "no holes to close");
    assert_eq!(holes_message(1), "closed one hole");
    assert_eq!(holes_message(12), "closed 12 holes");
    assert_eq!(triangles_message(1000, 4000), "1000 to 4000 triangles");
    assert_eq!(remeshed_message(250000), "remeshed to 250000 triangles");
    assert_eq!(voxel_on_message(10, 20), "voxel on: 10 triangles -> field -> 20 triangles");
}
