use palette::{Alpha, Blend, LinSrgb, LinSrgba};
use sunscape::colors::{
    color_type, convert_alpha, load_color, read_color, Color, ColorType, Rgba, BACKGROUND_B,
    BACKGROUND_G, BACKGROUND_R,
};

#[test]
fn read_color_of_an_opaque_code() {
    assert_eq!(
        read_color("#ff0000"),
        Some(ColorType::Normal(Color { r: 255, g: 0, b: 0 }))
    );
    assert_eq!(
        read_color("#0d133a"),
        Some(ColorType::Normal(Color { r: 13, g: 19, b: 58 }))
    );
    assert_eq!(
        read_color("rgb(59, 66, 108)"),
        Some(ColorType::Normal(Color { r: 59, g: 66, b: 108 }))
    );
    assert_eq!(
        read_color("  White "),
        Some(ColorType::Normal(Color { r: 255, g: 255, b: 255 }))
    );
}

#[test]
fn read_color_of_a_translucent_code() {
    assert_eq!(
        read_color("rgba(59,66,108,0.78)"),
        Some(ColorType::WithAlpha(Rgba { r: 59, g: 66, b: 108, a: 199 }))
    );
    assert_eq!(
        read_color("#25204654"),
        Some(ColorType::WithAlpha(Rgba { r: 0x25, g: 0x20, b: 0x46, a: 0x54 }))
    );
    assert_eq!(
        read_color("transparent"),
        Some(ColorType::WithAlpha(Rgba { r: 0, g: 0, b: 0, a: 0 }))
    );
}

#[test]
fn read_color_of_what_is_no_color() {
    assert_eq!(read_color(""), None);
    assert_eq!(read_color("#ff000"), None);
    assert_eq!(read_color("#gg0000"), None);
    assert_eq!(read_color("rgb(1,2)"), None);
    assert_eq!(read_color("not a colour"), None);
}

#[test]
fn color_type_splits_at_full_opacity() {
    assert_eq!(
        color_type(Rgba { r: 1, g: 2, b: 3, a: 255 }),
        ColorType::Normal(Color { r: 1, g: 2, b: 3 })
    );
    assert_eq!(
        color_type(Rgba { r: 1, g: 2, b: 3, a: 254 }),
        ColorType::WithAlpha(Rgba { r: 1, g: 2, b: 3, a: 254 })
    );
    assert_eq!(
        color_type(Rgba { r: 1, g: 2, b: 3, a: 0 }),
        ColorType::WithAlpha(Rgba { r: 1, g: 2, b: 3, a: 0 })
    );
}

#[test]
fn convert_alpha_exact_values() {
    // (59 * 199 + 13 * 56 + 127) / 255 = 49, and so on.
    assert_eq!(
        convert_alpha(Rgba { r: 59, g: 66, b: 108, a: 199 }),
        Color { r: 49, g: 56, b: 97 }
    );
    assert_eq!(
        convert_alpha(Rgba { r: 37, g: 32, b: 70, a: 84 }),
        Color { r: 21, g: 23, b: 62 }
    );
    assert_eq!(
        convert_alpha(Rgba { r: 255, g: 255, b: 255, a: 128 }),
        Color { r: 134, g: 137, b: 157 }
    );
}

#[test]
fn convert_alpha_at_the_ends() {
    let background = Color { r: BACKGROUND_R, g: BACKGROUND_G, b: BACKGROUND_B };
    assert_eq!(background, Color { r: 0x0d, g: 0x13, b: 0x3a });
    for (r, g, b) in [(0u8, 0u8, 0u8), (255, 255, 255), (59, 66, 108), (13, 19, 58)] {
        assert_eq!(convert_alpha(Rgba { r, g, b, a: 255 }), Color { r, g, b });
        assert_eq!(convert_alpha(Rgba { r, g, b, a: 0 }), background);
    }
    for a in 0..=255u8 {
        assert_eq!(convert_alpha(Rgba { r: 13, g: 19, b: 58, a }), background);
    }
}

#[test]
fn convert_alpha_lies_between_color_and_background() {
    for a in 0..=255u8 {
        for v in [0u8, 1, 12, 13, 14, 57, 58, 59, 128, 254, 255] {
            let out = convert_alpha(Rgba { r: v, g: v, b: v, a });
            assert!(out.r >= v.min(BACKGROUND_R) && out.r <= v.max(BACKGROUND_R));
            assert!(out.g >= v.min(BACKGROUND_G) && out.g <= v.max(BACKGROUND_G));
            assert!(out.b >= v.min(BACKGROUND_B) && out.b <= v.max(BACKGROUND_B));
        }
    }
}

#[test]
fn convert_alpha_is_within_one_of_the_blend_in_floating_point() {
    let bg: LinSrgb = LinSrgb::<u8>::new(0x0d, 0x13, 0x3a).into_format();
    for a in (0..=255u8).step_by(3) {
        for v in (0..=255u8).step_by(5) {
            let source: LinSrgba =
                LinSrgba::<u8>::new(v, 255 - v, v / 2, a).into_format::<f32, f32>();
            let over = source.over(Alpha { color: bg, alpha: 1.0 });
            let expected: LinSrgb<u8> = over.color.into_format();
            let out = convert_alpha(Rgba { r: v, g: 255 - v, b: v / 2, a });
            assert!((out.r as i32 - expected.red as i32).abs() <= 1);
            assert!((out.g as i32 - expected.green as i32).abs() <= 1);
            assert!((out.b as i32 - expected.blue as i32).abs() <= 1);
        }
    }
}

#[test]
fn load_color_flattens_what_is_translucent() {
    assert_eq!(load_color("#3b426c"), Some(Color { r: 59, g: 66, b: 108 }));
    assert_eq!(
        load_color("rgba(59,66,108,0.78)"),
        Some(Color { r: 49, g: 56, b: 97 })
    );
    assert_eq!(load_color("transparent"), Some(Color { r: 13, g: 19, b: 58 }));
    assert_eq!(load_color("no"), None);
}
