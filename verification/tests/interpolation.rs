use sunscape::interpolation::Interpolation;
use sunscape::render::{mid_curve, zenith_curve};

const ZENITH: [i32; 24] = [
    0, 0, 0, 0, 0, 0, 0, 0, 0, 0, 0, 0, 0, 0, 0, 120_000, 210_000, 210_000, 70_000, 70_000, 0, 0,
    0, 0,
];

const MID: [i32; 26] = [
    660_000, 620_000, 520_000, 520_000, 520_000, 520_000, 580_000, 660_000, 690_000, 550_000,
    570_000, 770_000, 780_000, 780_000, 740_000, 740_000, 740_000, 740_000, 550_000, 560_000,
    580_000, 580_000, 580_000, 580_000, 580_000, 680_000,
];

#[test]
fn interpolate_is_exact_on_the_samples() {
    let curve = Interpolation::new(ZENITH.to_vec());
    // 23 gaps: a period of 23 has a sample at every whole value.
    for (k, sample) in ZENITH.iter().enumerate() {
        assert_eq!(curve.interpolate(k as u32, 23), *sample);
        assert_eq!(curve.interpolate(1000 * k as u32, 23_000), *sample);
    }
    let curve = Interpolation::new(MID.to_vec());
    for (k, sample) in MID.iter().enumerate() {
        assert_eq!(curve.interpolate(k as u32, 25), *sample);
        assert_eq!(curve.interpolate(4 * k as u32, 100), *sample);
    }
}

#[test]
fn interpolate_exact_values_between_samples() {
    let curve = Interpolation::new(vec![0, 100, 50]);
    assert_eq!(curve.interpolate(0, 8), 0);
    assert_eq!(curve.interpolate(1, 8), 25);
    assert_eq!(curve.interpolate(2, 8), 50);
    assert_eq!(curve.interpolate(3, 8), 75);
    assert_eq!(curve.interpolate(4, 8), 100);
    // Falling: 100 - (50 * 2) / 8 = 88, rounded towards the earlier sample.
    assert_eq!(curve.interpolate(5, 8), 88);
    assert_eq!(curve.interpolate(6, 8), 75);
    assert_eq!(curve.interpolate(7, 8), 63);
    assert_eq!(curve.interpolate(8, 8), 50);
    // Rising, a third of the way: 0 + (100 * 1) / 3 = 33.
    assert_eq!(curve.interpolate(1, 6), 33);
    assert_eq!(curve.interpolate(2, 6), 66);
}

#[test]
fn interpolate_of_a_single_sample() {
    let curve = Interpolation::new(vec![42]);
    assert_eq!(curve.interpolate(0, 360), 42);
    assert_eq!(curve.interpolate(180, 360), 42);
    assert_eq!(curve.interpolate(360, 360), 42);
}

#[test]
fn interpolate_at_the_limits() {
    let curve = Interpolation::new(vec![i32::MIN, i32::MAX, i32::MIN]);
    assert_eq!(curve.interpolate(0, u32::MAX), i32::MIN);
    assert_eq!(curve.interpolate(u32::MAX, u32::MAX), i32::MIN);
    assert_eq!(curve.interpolate(1, 2), i32::MAX);
    assert_eq!(curve.interpolate(1, 4), -1);
    assert_eq!(curve.interpolate(3, 4), 0);
}

#[test]
fn the_stop_curves_over_the_day() {
    let zenith = zenith_curve();
    let mid = mid_curve();
    assert_eq!(zenith.interpolate(0, 360), 0);
    assert_eq!(mid.interpolate(0, 360), 660_000);
    assert_eq!(zenith.interpolate(360, 360), 0);
    assert_eq!(mid.interpolate(360, 360), 680_000);
    // 240 * 23 = 15 * 360 + 120: a third of the way from sample 15 to 16.
    assert_eq!(zenith.interpolate(240, 360), 150_000);
    // 180 * 25 = 12 * 360 + 180: halfway from sample 12 to 13.
    assert_eq!(mid.interpolate(180, 360), 780_000);
    // 198 * 25 = 13 * 360 + 270: three quarters from sample 13 to 14.
    assert_eq!(mid.interpolate(198, 360), 750_000);
    // 72 * 25 = 5 * 360: on sample 5.
    assert_eq!(mid.interpolate(72, 360), 520_000);
    for angle in 0..360u32 {
        let z = zenith.interpolate(angle, 360);
        let m = mid.interpolate(angle, 360);
        assert!((0..=210_000).contains(&z));
        assert!((520_000..=780_000).contains(&m));
    }
}
