use sunscape::shape::{circle_to_path, copy_outline, rect_path, PathSegment, UNIT};

#[test]
fn unit_is_a_million() {
    assert_eq!(UNIT, 1_000_000);
}

#[test]
fn rect_path_goes_round_the_rectangle() {
    assert_eq!(
        rect_path(0, 540, 1600, 360),
        vec![
            PathSegment::MoveTo { x: 0, y: 540_000_000 },
            PathSegment::LineTo { x: 1_600_000_000, y: 540_000_000 },
            PathSegment::LineTo { x: 1_600_000_000, y: 900_000_000 },
            PathSegment::LineTo { x: 0, y: 900_000_000 },
            PathSegment::ClosePath,
        ]
    );
    assert_eq!(
        rect_path(-3, -4, 1, 2),
        vec![
            PathSegment::MoveTo { x: -3_000_000, y: -4_000_000 },
            PathSegment::LineTo { x: -2_000_000, y: -4_000_000 },
            PathSegment::LineTo { x: -2_000_000, y: -2_000_000 },
            PathSegment::LineTo { x: -3_000_000, y: -2_000_000 },
            PathSegment::ClosePath,
        ]
    );
    assert_eq!(rect_path(i32::MAX, i32::MIN, i32::MAX, i32::MIN).len(), 5);
}

#[test]
fn circle_to_path_exact_values() {
    assert_eq!(
        circle_to_path(10, 20, 3),
        vec![
            PathSegment::MoveTo { x: 13_000_000, y: 20_000_000 },
            PathSegment::CurveTo {
                x1: 13_000_000,
                y1: 21_500_000,
                x2: 11_500_000,
                y2: 23_000_000,
                x: 10_000_000,
                y: 23_000_000,
            },
            PathSegment::CurveTo {
                x1: 8_500_000,
                y1: 23_000_000,
                x2: 7_000_000,
                y2: 21_500_000,
                x: 7_000_000,
                y: 20_000_000,
            },
            PathSegment::CurveTo {
                x1: 7_000_000,
                y1: 18_500_000,
                x2: 8_500_000,
                y2: 17_000_000,
                x: 10_000_000,
                y: 17_000_000,
            },
            PathSegment::CurveTo {
                x1: 11_500_000,
                y1: 17_000_000,
                x2: 13_000_000,
                y2: 18_500_000,
                x: 13_000_000,
                y: 20_000_000,
            },
            PathSegment::ClosePath,
        ]
    );
    assert_eq!(circle_to_path(i32::MIN, i32::MAX, i32::MIN).len(), 6);
}

#[test]
fn copy_outline_copies() {
    let outline = circle_to_path(1, 2, 3);
    assert_eq!(copy_outline(&outline), outline);
    assert_eq!(copy_outline(&Vec::new()), Vec::new());
}
