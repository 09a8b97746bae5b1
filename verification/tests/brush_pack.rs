use sculpt_app::brush_library::{
    adopt_stamps, check_pack, fit_alpha_image, has_transparency, remap_alpha, renumber, single_line, stamp_name, stamp_ok, stamps_for,
    unique_name, used_stamps, PackError, Stamp, PACK_VERSION,
};

fn bits(values: &[f32]) -> Vec<u32> {
    values.iter().map(|v| if *v == 0.0 { 0 } else { v.to_bits() }).collect()
}

fn stamp(name: &str, width: u32, height: u32, values: &[f32]) -> Stamp {
    Stamp { name: name.to_string(), width, height, data: bits(values) }
}

/// Saving gathers the stamps a brush uses; loading into a library that has
/// a different stamp under the same name adopts it under a free name, and a
/// second load adds nothing.
#[test]
fn pack_carries_stamps_and_resolves_name_collisions() {
    let source = vec![stamp("Stone", 2, 1, &[0.0, 1.0])];
    let alphas = vec![Some(0u32)];
    // Save.
    let ids = used_stamps(&alphas, source.len());
    let packed_alphas: Vec<Option<u32>> = alphas.iter().map(|a| renumber(*a, &ids)).collect();
    let carried = stamps_for(&ids, &source);
    assert_eq!(stamp_name(0), "stamp0");
    // Load.
    let mut target = vec![stamp("Stone", 2, 1, &[1.0, 0.0])];
    assert_eq!(check_pack(PACK_VERSION, &carried), Ok(()));
    let remap = adopt_stamps(&mut target, carried);
    let loaded: Vec<Option<u32>> = packed_alphas.iter().map(|a| remap_alpha(*a, &remap)).collect();
    assert_eq!(loaded[0], Some(1));
    assert_eq!(target[1].name, "Stone (2)");
    assert_eq!(target[1].data, source[0].data);
    // Load again.
    let again = stamps_for(&ids, &source);
    let remap = adopt_stamps(&mut target, again);
    assert_eq!(remap, vec![1]);
    assert_eq!(target.len(), 2);
}

#[test]
fn an_identical_stamp_is_reused_not_copied() {
    let mut target = vec![stamp("Mine", 2, 1, &[0.0, 1.0]), stamp("Other", 1, 1, &[0.5])];
    let remap = adopt_stamps(&mut target, vec![stamp("Theirs", 2, 1, &[-0.0, 1.0]), stamp("New", 1, 1, &[0.25])]);
    assert_eq!(remap, vec![0, 2]);
    assert_eq!(target.len(), 3);
    assert_eq!(target[0].name, "Mine");
    assert_eq!(target[2].name, "New");
}

#[test]
fn names_take_the_first_free_number() {
    let taken = vec!["Stone".to_string(), "Stone (2)".to_string(), "Stone (3)".to_string()];
    assert_eq!(unique_name("Stone", &taken), "Stone (4)");
    assert_eq!(unique_name("Clay", &taken), "Clay");
    assert_eq!(unique_name("Stone (2)", &vec![]), "Stone (2)");
    let mut library = vec![stamp("Two\nlines", 1, 1, &[1.0])];
    let remap = adopt_stamps(&mut library, vec![stamp("Two\nlines", 1, 1, &[0.5])]);
    assert_eq!(remap, vec![1]);
    assert_eq!(library[1].name, "Two lines");
}

#[test]
fn line_breaks_become_spaces() {
    assert_eq!(single_line("a\nb\r\nc"), "a b  c");
    assert_eq!(single_line("plain"), "plain");
    assert_eq!(single_line(""), "");
}

#[test]
fn bad_packs_are_refused() {
    assert_eq!(check_pack(2, &vec![]), Err(PackError::UnsupportedVersion));
    assert_eq!(PackError::UnsupportedVersion.message(), "unsupported brush pack version");
    assert_eq!(PackError::InvalidStamp.message(), "invalid brush stamp");
    assert_eq!(check_pack(PACK_VERSION, &vec![stamp("empty", 0, 1, &[])]), Err(PackError::InvalidStamp));
    assert_eq!(check_pack(PACK_VERSION, &vec![stamp("short", 2, 2, &[1.0])]), Err(PackError::InvalidStamp));
    assert_eq!(
        check_pack(PACK_VERSION, &vec![stamp("huge", 4096, 1, &vec![0.0; 4096])]),
        Err(PackError::InvalidStamp)
    );
    assert!(!stamp_ok(&stamp("nan", 1, 1, &[f32::NAN])));
    assert!(!stamp_ok(&stamp("inf", 1, 1, &[f32::INFINITY])));
    assert!(stamp_ok(&stamp("fine", 2, 1, &[0.0, f32::MAX])));
    // The version is checked before the stamps.
    assert_eq!(check_pack(3, &vec![stamp("empty", 0, 1, &[])]), Err(PackError::UnsupportedVersion));
}

#[test]
fn saving_keeps_each_used_stamp_once_in_order() {
    let alphas = vec![Some(3), None, Some(1), Some(3), Some(7)];
    let ids = used_stamps(&alphas, 5);
    assert_eq!(ids, vec![1, 3]);
    assert_eq!(renumber(Some(3), &ids), Some(1));
    assert_eq!(renumber(Some(1), &ids), Some(0));
    assert_eq!(renumber(Some(7), &ids), None);
    assert_eq!(renumber(None, &ids), None);
    assert_eq!(remap_alpha(Some(1), &vec![4, 9]), Some(9));
    assert_eq!(remap_alpha(Some(2), &vec![4, 9]), None);
    assert_eq!(remap_alpha(None, &vec![4, 9]), None);
}

/// An imported picture is scaled up or down to the largest size within a
/// stamp's side that keeps its proportions, and is see-through only when
/// some pixel is clearly not opaque.
#[test]
fn imported_pictures_fit_a_stamp() {
    let opaque = [200u8, 100, 50, 255].repeat(8);
    let (w, h, pixels, transparent) = fit_alpha_image(4, 2, opaque);
    assert_eq!((w, h), (2048, 1024));
    assert_eq!(pixels.len(), 2048 * 1024 * 4);
    assert!(!transparent);
    assert!(pixels.chunks_exact(4).all(|p| p == [200, 100, 50, 255]));
    let (w, h, _, transparent) = fit_alpha_image(1, 1, vec![0, 0, 0, 10]);
    assert_eq!((w, h), (2048, 2048));
    assert!(transparent);
    assert!(has_transparency(&vec![1, 2, 3, 249]));
    assert!(!has_transparency(&vec![1, 2, 3, 250, 0, 0, 0, 255]));
    assert!(!has_transparency(&vec![]));
}
