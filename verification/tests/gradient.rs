use palette::{Gradient, LinSrgb};
use sunscape::colors::{load_colors, Color, ColorType, Rgba};
use sunscape::gradient::{resolve_keyframe, FormatError, GradientTable, TABLE_LEN};

fn opaque(r: u8, g: u8, b: u8) -> ColorType {
    ColorType::Normal(Color { r, g, b })
}

#[test]
fn a_table_has_one_entry_per_angle() {
    assert_eq!(TABLE_LEN, 360);
    let table = GradientTable::build(&vec![opaque(1, 2, 3), opaque(200, 100, 0)]).unwrap();
    assert_eq!(table.entries().len(), 360);
}

#[test]
fn no_keyframes_is_a_format_error() {
    assert_eq!(
        GradientTable::build(&Vec::new()).err(),
        Some(FormatError::NoKeyframes)
    );
    assert_eq!(load_colors(&Vec::new()).err(), Some(FormatError::NoKeyframes));
}

#[test]
fn a_single_keyframe_gives_a_flat_table() {
    let table = GradientTable::build(&vec![opaque(59, 66, 108)]).unwrap();
    for angle in 0..360 {
        assert_eq!(table.get(angle), Color { r: 59, g: 66, b: 108 });
    }
    assert_eq!(table.entries(), vec![Color { r: 59, g: 66, b: 108 }; 360]);
}

#[test]
fn a_single_translucent_keyframe_gives_a_flat_table_of_its_flattening() {
    let keyframe = ColorType::WithAlpha(Rgba { r: 59, g: 66, b: 108, a: 199 });
    let table = GradientTable::build(&vec![keyframe]).unwrap();
    assert_eq!(resolve_keyframe(keyframe), Color { r: 49, g: 56, b: 97 });
    for angle in 0..360 {
        assert_eq!(table.get(angle), Color { r: 49, g: 56, b: 97 });
    }
}

#[test]
fn building_twice_gives_the_same_table() {
    let keyframes = vec![
        opaque(0, 10, 255),
        ColorType::WithAlpha(Rgba { r: 37, g: 32, b: 70, a: 84 }),
        opaque(100, 10, 0),
        opaque(7, 77, 177),
        opaque(255, 255, 255),
    ];
    let first = GradientTable::build(&keyframes).unwrap();
    let second = GradientTable::build(&keyframes).unwrap();
    assert_eq!(first.entries(), second.entries());
    for angle in 0..360 {
        assert_eq!(first.get(angle), second.get(angle));
    }
}

#[test]
fn two_keyframes_exact_values() {
    let table = GradientTable::build(&vec![opaque(0, 10, 255), opaque(100, 10, 0)]).unwrap();
    assert_eq!(table.get(0), Color { r: 0, g: 10, b: 255 });
    // A 360th of the way: (0 * 358 + 100 * 2 + 180) / 360 = 1.
    assert_eq!(table.get(1), Color { r: 1, g: 10, b: 254 });
    assert_eq!(table.get(45), Color { r: 25, g: 10, b: 191 });
    assert_eq!(table.get(90), Color { r: 50, g: 10, b: 128 });
    assert_eq!(table.get(180), Color { r: 100, g: 10, b: 0 });
    // And back again on the closing segment.
    assert_eq!(table.get(270), Color { r: 50, g: 10, b: 128 });
    assert_eq!(table.get(359), Color { r: 1, g: 10, b: 254 });
}

#[test]
fn the_table_passes_through_its_keyframes() {
    let colors = [(0u8, 10u8, 255u8), (100, 10, 0), (7, 77, 177), (255, 255, 255)];
    let keyframes: Vec<ColorType> = colors.iter().map(|&(r, g, b)| opaque(r, g, b)).collect();
    let table = GradientTable::build(&keyframes).unwrap();
    for (k, &(r, g, b)) in colors.iter().enumerate() {
        assert_eq!(table.get(k * 90), Color { r, g, b });
    }
}

#[test]
fn more_keyframes_than_angles() {
    let keyframes: Vec<ColorType> = (0..720).map(|k| opaque((k % 256) as u8, 0, 0)).collect();
    let table = GradientTable::build(&keyframes).unwrap();
    for angle in 0..360 {
        assert_eq!(table.get(angle), Color { r: ((2 * angle) % 256) as u8, g: 0, b: 0 });
    }
}

#[test]
fn the_table_is_within_one_of_the_closed_gradient_in_floating_point() {
    let colors = [
        (13u8, 19u8, 58u8),
        (59, 66, 108),
        (250, 180, 90),
        (135, 206, 235),
        (255, 255, 255),
        (0, 0, 0),
        (200, 40, 120),
    ];
    let keyframes: Vec<ColorType> = colors.iter().map(|&(r, g, b)| opaque(r, g, b)).collect();
    let table = GradientTable::build(&keyframes).unwrap();

    // The same path, closed by hand, sampled at 361 points of which the last
    // is the first again.
    let mut closed: Vec<LinSrgb> = colors
        .iter()
        .map(|&(r, g, b)| LinSrgb::<u8>::new(r, g, b).into_format())
        .collect();
    closed.push(closed[0]);
    let gradient = Gradient::new(closed);
    let samples: Vec<LinSrgb<u8>> = gradient.take(361).map(|c| c.into_format()).collect();
    assert_eq!(samples.len(), 361);
    for angle in 0..360 {
        let ours = table.get(angle);
        let theirs = samples[angle];
        assert!((ours.r as i32 - theirs.red as i32).abs() <= 1);
        assert!((ours.g as i32 - theirs.green as i32).abs() <= 1);
        assert!((ours.b as i32 - theirs.blue as i32).abs() <= 1);
    }
}

#[test]
fn load_colors_reads_flattens_and_samples() {
    let codes = vec![
        "#000aff".to_string(),
        "rgb(100, 10, 0)".to_string(),
    ];
    let table = load_colors(&codes).unwrap();
    let built = GradientTable::build(&vec![opaque(0, 10, 255), opaque(100, 10, 0)]).unwrap();
    assert_eq!(table.entries(), built.entries());

    let codes = vec!["rgba(59,66,108,0.78)".to_string()];
    let table = load_colors(&codes).unwrap();
    assert_eq!(table.entries(), vec![Color { r: 49, g: 56, b: 97 }; 360]);
}

#[test]
fn load_colors_names_the_first_bad_code() {
    let codes = vec![
        "#000aff".to_string(),
        "bogus".to_string(),
        "#123456".to_string(),
        "also bogus".to_string(),
    ];
    assert_eq!(load_colors(&codes).err(), Some(FormatError::BadColor { index: 1 }));
    let codes = vec!["".to_string()];
    assert_eq!(load_colors(&codes).err(), Some(FormatError::BadColor { index: 0 }));
}
