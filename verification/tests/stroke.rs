use sculpt_app::stroke_samples::{Samples, MAX_SAMPLES};

type Sample = ((f32, f32), f32);

/// How far the middle sample lies off the line between its neighbours,
/// pressure weighed in, as the application measures it.
fn error(a: Sample, b: Sample, c: Sample) -> f32 {
    let ((ax, ay), pa) = a;
    let ((bx, by), pb) = b;
    let ((cx, cy), pc) = c;
    let (acx, acy) = (cx - ax, cy - ay);
    let len2 = (acx * acx + acy * acy).max(1e-6);
    let t = (((bx - ax) * acx + (by - ay) * acy) / len2).clamp(0.0, 1.0);
    let (px, py) = (ax + acx * t, ay + acy * t);
    let d2 = (bx - px) * (bx - px) + (by - py) * (by - py);
    let dp = (pb - (pa + (pc - pa) * t)) * 64.0;
    d2 + dp * dp
}

/// The key that orders floats the way `total_cmp` does.
fn key(x: f32) -> i64 {
    let b = x.to_bits() as i32;
    (b ^ ((((b >> 31) as u32) >> 1) as i32)) as i64
}

/// Measures what the library needs and hands the sample over.
fn push(samples: &mut Samples<Sample>, s: Sample) {
    let n = samples.len();
    let repeats = n > 0 && samples.get(n - 1) == s;
    let at = |i: usize| if i == n { s } else { samples.get(i) };
    let keys: Vec<i64> = if !repeats && samples.is_full() {
        (1..n).map(|i| key(error(at(i - 1), at(i), at(i + 1)))).collect()
    } else {
        Vec::new()
    };
    samples.push(s, repeats, &keys);
}

#[test]
fn overload_retains_endpoints_corner_and_pressure_peak() {
    let mut samples: Samples<Sample> = Samples::new();
    for i in 0..100 {
        let position = if i < 50 { (i as f32, 0.0) } else { (49.0, (i - 49) as f32) };
        push(&mut samples, (position, if i == 25 { 1.0 } else { 0.2 }));
    }
    assert_eq!(samples.len(), 16);
    assert_eq!(samples.get(0).0, (0.0, 0.0));
    assert_eq!(samples.get(samples.len() - 1).0, (49.0, 50.0));
    assert!((0..samples.len()).any(|i| samples.get(i).0 == (49.0, 0.0)));
    assert!((0..samples.len()).any(|i| samples.get(i).1 == 1.0));
}

#[test]
fn a_repeated_sample_is_not_queued_twice() {
    let mut samples: Samples<Sample> = Samples::new();
    push(&mut samples, ((1.0, 1.0), 0.5));
    push(&mut samples, ((1.0, 1.0), 0.5));
    assert_eq!(samples.len(), 1);
    push(&mut samples, ((1.0, 1.0), 0.6));
    assert_eq!(samples.len(), 2);
    assert_eq!(samples.pop(), Some(((1.0, 1.0), 0.5)));
    assert_eq!(samples.pop(), Some(((1.0, 1.0), 0.6)));
    assert_eq!(samples.pop(), None);
    assert!(samples.is_empty());
    assert!(MAX_SAMPLES == 16);
}

#[test]
fn the_flattest_interior_sample_goes_first_on_a_tie() {
    let mut samples: Samples<u8> = Samples::default();
    for s in 0..MAX_SAMPLES as u8 {
        samples.push(s, false, &Vec::new());
    }
    // Keys for places 1..=15 of the queue with 16 added; places 3 and 5 tie.
    let mut keys = vec![9i64; MAX_SAMPLES - 1];
    keys[2] = 1;
    keys[4] = 1;
    samples.push(16, false, &keys);
    let left: Vec<u8> = (0..samples.len()).map(|i| samples.get(i)).collect();
    let expected: Vec<u8> = (0..=16u8).filter(|&s| s != 3).collect();
    assert_eq!(left, expected);
}

#[test]
fn a_full_queue_stays_full_and_ends_with_the_new_sample() {
    let mut samples: Samples<u8> = Samples::new();
    for s in 0..40u8 {
        let n = samples.len();
        let keys: Vec<i64> = if samples.is_full() { (1..n as i64).collect() } else { Vec::new() };
        samples.push(s, false, &keys);
        assert!(samples.len() <= MAX_SAMPLES);
        assert_eq!(samples.get(samples.len() - 1), s);
        assert_eq!(samples.get(0), 0);
    }
    assert_eq!(samples.len(), MAX_SAMPLES);
    // Always dropping the sample after the first leaves the first and the newest.
    let left: Vec<u8> = (0..samples.len()).map(|i| samples.get(i)).collect();
    let expected: Vec<u8> = std::iter::once(0).chain(25..40).collect();
    assert_eq!(left, expected);
}
