use sunscape::shape::UNIT;
use sunscape::transform::{sun_rotation, Matrix, Rotation, SUN_PIVOT_X, SUN_PIVOT_Y};

fn trig(degrees: i32) -> (i32, i32) {
    let radians = (degrees as f64).to_radians();
    (
        (radians.cos() * UNIT as f64).round() as i32,
        (radians.sin() * UNIT as f64).round() as i32,
    )
}

fn image(m: &Matrix, x: i64, y: i64) -> (i64, i64) {
    (m.a * x + m.c * y + m.e, m.b * x + m.d * y + m.f)
}

#[test]
fn sun_rotation_turns_against_the_angle() {
    assert_eq!(
        sun_rotation(0),
        Rotation { degrees: -180, pivot_x: 800, pivot_y: 530 }
    );
    assert_eq!(sun_rotation(96).degrees, -276);
    assert_eq!(sun_rotation(180).degrees, -360);
    assert_eq!(sun_rotation(359).degrees, -539);
    assert_eq!((SUN_PIVOT_X, SUN_PIVOT_Y), (800, 530));
}

#[test]
fn at_180_the_sun_is_upright() {
    let rotation = sun_rotation(180);
    assert_eq!(rotation.degrees % 360, 0);
    let (cos, sin) = trig(rotation.degrees);
    assert_eq!((cos, sin), (1_000_000, 0));
    let m = rotation.matrix(cos, sin);
    assert_eq!(m, Matrix { a: 1_000_000, b: 0, c: 0, d: 1_000_000, e: 0, f: 0 });
    assert_eq!(m, Matrix::identity());
    assert_eq!(image(&m, 800, 530), (800_000_000, 530_000_000));
    assert_eq!(image(&m, 17, -4), (17_000_000, -4_000_000));
}

#[test]
fn matrix_exact_values() {
    // A quarter turn: cos 0, sin 1.
    let m = Rotation { degrees: 90, pivot_x: 800, pivot_y: 530 }.matrix(0, 1_000_000);
    assert_eq!(
        m,
        Matrix {
            a: 0,
            b: 1_000_000,
            c: -1_000_000,
            d: 0,
            e: 1_330_000_000,
            f: -270_000_000,
        }
    );
    // Half a turn: cos -1, sin 0.
    let m = sun_rotation(0).matrix(-1_000_000, 0);
    assert_eq!(
        m,
        Matrix {
            a: -1_000_000,
            b: 0,
            c: 0,
            d: -1_000_000,
            e: 1_600_000_000,
            f: 1_060_000_000,
        }
    );
    let m = Rotation { degrees: 60, pivot_x: 10, pivot_y: -20 }.matrix(500_000, 866_025);
    assert_eq!(m.e, -20 * 866_025 - 10 * 500_000 + 10_000_000);
    assert_eq!(m.f, -20_000_000 - 10 * 866_025 + 20 * 500_000);
}

#[test]
fn the_pivot_stays_where_it_is() {
    for angle in 0..360 {
        let rotation = sun_rotation(angle);
        let (cos, sin) = trig(rotation.degrees);
        let m = rotation.matrix(cos, sin);
        assert_eq!(image(&m, 800, 530), (800_000_000, 530_000_000));
        assert_eq!((m.a, m.b, m.c, m.d), (cos as i64, sin as i64, -(sin as i64), cos as i64));
    }
    for (cos, sin) in [(1_000_000, 1_000_000), (-1_000_000, -1_000_000), (3, -7)] {
        let rotation = Rotation { degrees: 1, pivot_x: i32::MAX, pivot_y: i32::MIN };
        let m = rotation.matrix(cos, sin);
        assert_eq!(
            image(&m, i32::MAX as i64, i32::MIN as i64),
            (i32::MAX as i64 * UNIT, i32::MIN as i64 * UNIT)
        );
    }
}
