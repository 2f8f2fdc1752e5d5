//! Arithmetic in whole numbers, against the machine's own.
use apexos_ui::floats::Single;
use apexos_ui::json::{read, render, Json};
use apexos_ui::readings::{busy, envelope};
use apexos_ui::thermal::{build_thermal_image, ironbow};

fn single(v: f32) -> Single {
    Single { bits: v.to_bits() }
}

fn same(got: Single, want: f32) -> bool {
    let got = f32::from_bits(got.bits);
    got.to_bits() == want.to_bits() || (got.is_nan() && want.is_nan())
}

/// Numbers of every sort: ordinary ones, the least, the largest, and those that are none.
fn samples() -> Vec<f32> {
    let mut v = vec![
        0.0,
        -0.0,
        1.0,
        -1.0,
        0.1,
        0.35,
        0.62,
        1.5,
        12.0,
        1e-45,
        -1e-45,
        1e-40,
        f32::MIN_POSITIVE,
        f32::MAX,
        f32::MIN,
        f32::EPSILON,
        16_777_215.0,
        16_777_216.0,
        16_777_218.0,
        1e30,
        -3e38,
        2.5e-30,
        f32::INFINITY,
        f32::NEG_INFINITY,
        f32::NAN,
    ];
    let mut x: u32 = 0x9e37_79b9;
    for i in 0..400u32 {
        x ^= x << 13;
        x ^= x >> 17;
        x ^= x << 5;
        v.push(f32::from_bits(x));
        v.push(f32::from_bits((x & 0x81ff_ffff) | ((100 + i % 50) << 23)));
    }
    v
}

#[test]
fn sums_and_differences_are_the_machine_s() {
    let all = samples();
    for &a in &all {
        for &b in &all {
            assert!(same(single(a).plus(single(b)), a + b), "{a} + {b}");
            assert!(same(single(a).minus(single(b)), a - b), "{a} - {b}");
        }
    }
}

#[test]
fn products_and_quotients_are_the_machine_s() {
    let all = samples();
    for &a in &all {
        for &b in &all {
            assert!(same(single(a).times(single(b)), a * b), "{a} * {b}");
            assert!(same(single(a).over(single(b)), a / b), "{a} / {b}");
        }
    }
}

#[test]
fn numbers_compare_as_the_machine_s() {
    let all = samples();
    for &a in &all {
        for &b in &all {
            assert_eq!(single(a).less(single(b)), a < b, "{a} < {b}");
            let (high, low) = (single(a).larger(single(b)), single(a).smaller(single(b)));
            assert!(same(high, a.max(b)) || a == b, "{a} and {b}");
            assert!(same(low, a.min(b)) || a == b, "{a} and {b}");
        }
    }
}

#[test]
fn numbers_are_written_as_the_machine_writes_them() {
    for a in samples() {
        assert_eq!(single(a).tenths(), format!("{a:.1}"));
        assert_eq!(single(a).whole(), a as i32);
        match single(a).in_full() {
            Some(text) => {
                assert_eq!(text.parse::<f64>().unwrap().to_bits(), (a as f64).to_bits());
                assert_eq!(text, format!("{a:.149}"));
            }
            None => assert!(!a.is_finite()),
        }
        assert_eq!(single(a).is_nan(), a.is_nan());
    }
}

#[test]
fn whole_numbers_become_floating() {
    for n in [0u64, 1, 12, 220, 16_777_215, 16_777_216, 16_777_217, 16_777_219, u64::MAX] {
        assert!(same(Single::count(n), n as f32), "{n}");
    }
}

#[test]
fn ironbow_spans_black_to_white() {
    let ironbow = |t: f32| ironbow(single(t));
    assert_eq!(ironbow(0.0), (0, 0, 0));
    assert_eq!(ironbow(1.0), (255, 255, 255));
    assert_eq!(ironbow(-5.0), (0, 0, 0));
    assert_eq!(ironbow(9.0), (255, 255, 255));
    let (r, g, b) = ironbow(0.55);
    assert!(r > g && r > b);
    assert_eq!(ironbow(f32::NAN), (255, 255, 255));
}

#[test]
fn colours_are_mixed_between_stops() {
    let stops: [(f32, f32, f32, f32); 7] = [
        (0.00, 0.0, 0.0, 0.0),
        (0.15, 40.0, 0.0, 80.0),
        (0.35, 140.0, 0.0, 120.0),
        (0.55, 220.0, 40.0, 40.0),
        (0.75, 255.0, 140.0, 0.0),
        (0.90, 255.0, 230.0, 60.0),
        (1.00, 255.0, 255.0, 255.0),
    ];
    for i in 0..=1000 {
        let t = i as f32 / 1000.0;
        let k = (1..7).find(|k| t <= stops[*k].0).unwrap();
        let (a, b) = (stops[k - 1], stops[k]);
        let f = (t - a.0) / (b.0 - a.0);
        let mix = |x: f32, y: f32| (x + (y - x) * f) as u8;
        assert_eq!(ironbow(single(t)), (mix(a.1, b.1), mix(a.2, b.2), mix(a.3, b.3)), "{t}");
    }
}

#[test]
fn build_thermal_image_is_32x24_and_ranges() {
    assert!(build_thermal_image(&vec![single(20.0); 100]).is_none());
    let img = build_thermal_image(&vec![single(25.0); 768]).expect("image");
    assert_eq!(img.width, 32);
    assert_eq!(img.height, 24);
    let frame: Vec<Single> = (0..800).map(|i| single(20.0 + i as f32 * 0.01)).collect();
    let img = build_thermal_image(&frame).expect("image");
    assert_eq!(img.rgba.len(), 4 * 768);
    assert_eq!(&img.rgba[..4], &[0, 0, 0, 255]);
    assert_eq!(&img.rgba[4 * 767..], &[255, 255, 255, 255]);
}

#[test]
fn loads_and_envelopes_are_scaled() {
    assert!(same(busy(single(1.7), single(4.0)), 1.7 / 4.0 * 100.0));
    assert!(same(busy(single(9.0), single(4.0)), 100.0));
    assert!(same(busy(single(0.3), single(0.0)), 0.3 * 100.0));
    let raw: Vec<Single> = [0.1, -0.2, 0.3].iter().map(|v| single(*v)).collect();
    let out = envelope(&raw);
    assert!(same(out[0], 0.1_f32 / 0.3) && same(out[1], 0.0) && same(out[2], 1.0));
    assert!(same(envelope(&vec![single(1e-7)])[0], 1e-7_f32 / 1e-6));
    assert!(envelope(&vec![]).is_empty());
}

#[test]
fn thousandths_are_numbers_as_json_reads_them() {
    for m in (-3000..3000).chain([i32::MIN, i32::MAX, 123_456_789, 1_000_000]) {
        let n = Json::milli(m);
        assert_eq!(read(&render(&n)), Some(n), "{m}");
    }
}
