//! Outlines: the drawing commands of a shape, in millionths of a pixel.

use vstd::prelude::*;

verus! {

/// How many fixed-point units make one: lengths, matrix entries, opacities
/// and gradient offsets are all counted in millionths.
pub const UNIT: i64 = 1_000_000;

/// One drawing command of an outline. Coordinates are in millionths of a pixel.
#[derive(Clone, Copy, Debug, PartialEq, Eq, Structural)]
pub enum PathSegment {
    MoveTo { x: i64, y: i64 },
    LineTo { x: i64, y: i64 },
    CurveTo { x1: i64, y1: i64, x2: i64, y2: i64, x: i64, y: i64 },
    ClosePath,
}

/// The outline of the axis-parallel rectangle with corner `(x, y)`, given in
/// whole pixels: from the corner along the top edge, down, back, and closed.
pub open spec fn rect_outline(x: int, y: int, width: int, height: int) -> Seq<PathSegment> {
    seq![
        PathSegment::MoveTo { x: (x * UNIT) as i64, y: (y * UNIT) as i64 },
        PathSegment::LineTo { x: ((x + width) * UNIT) as i64, y: (y * UNIT) as i64 },
        PathSegment::LineTo { x: ((x + width) * UNIT) as i64, y: ((y + height) * UNIT) as i64 },
        PathSegment::LineTo { x: (x * UNIT) as i64, y: ((y + height) * UNIT) as i64 },
        PathSegment::ClosePath,
    ]
}

/// Builds the outline of a rectangle given in whole pixels.
pub fn rect_path(x: i32, y: i32, width: i32, height: i32) -> (out: Vec<PathSegment>)
    ensures
        out@ == rect_outline(x as int, y as int, width as int, height as int),
{
    let left: i64 = (x as i64) * UNIT;
    let top: i64 = (y as i64) * UNIT;
    let right: i64 = (x as i64 + width as i64) * UNIT;
    let bottom: i64 = (y as i64 + height as i64) * UNIT;
    let mut out: Vec<PathSegment> = Vec::with_capacity(5);
    out.push(PathSegment::MoveTo { x: left, y: top });
    out.push(PathSegment::LineTo { x: right, y: top });
    out.push(PathSegment::LineTo { x: right, y: bottom });
    out.push(PathSegment::LineTo { x: left, y: bottom });
    out.push(PathSegment::ClosePath);
    assert(out@ =~= rect_outline(x as int, y as int, width as int, height as int));
    out
}

/// The outline that stands for a disc of radius `r` about `(cx, cy)`, given
/// in whole pixels: four curves through the east, south, west and north
/// points, each with its control points half a radius off the two ends.
pub open spec fn circle_outline(cx: int, cy: int, r: int) -> Seq<PathSegment> {
    let u = UNIT as int;
    let h = r * (u / 2);
    let x = cx * u;
    let y = cy * u;
    let r = r * u;
    seq![
        PathSegment::MoveTo { x: (x + r) as i64, y: y as i64 },
        PathSegment::CurveTo {
            x1: (x + r) as i64,
            y1: (y + h) as i64,
            x2: (x + h) as i64,
            y2: (y + r) as i64,
            x: x as i64,
            y: (y + r) as i64,
        },
        PathSegment::CurveTo {
            x1: (x - h) as i64,
            y1: (y + r) as i64,
            x2: (x - r) as i64,
            y2: (y + h) as i64,
            x: (x - r) as i64,
            y: y as i64,
        },
        PathSegment::CurveTo {
            x1: (x - r) as i64,
            y1: (y - h) as i64,
            x2: (x - h) as i64,
            y2: (y - r) as i64,
            x: x as i64,
            y: (y - r) as i64,
        },
        PathSegment::CurveTo {
            x1: (x + h) as i64,
            y1: (y - r) as i64,
            x2: (x + r) as i64,
            y2: (y - h) as i64,
            x: (x + r) as i64,
            y: y as i64,
        },
        PathSegment::ClosePath,
    ]
}

/// Turns a disc given in whole pixels into its six-command outline.
pub fn circle_to_path(cx: i32, cy: i32, r: i32) -> (out: Vec<PathSegment>)
    ensures
        out@ == circle_outline(cx as int, cy as int, r as int),
        out@.len() == 6,
{
    let h: i64 = (r as i64) * (UNIT / 2);
    let x: i64 = (cx as i64) * UNIT;
    let y: i64 = (cy as i64) * UNIT;
    let r: i64 = (r as i64) * UNIT;
    let mut out: Vec<PathSegment> = Vec::with_capacity(6);
    out.push(PathSegment::MoveTo { x: x + r, y });
    out.push(PathSegment::CurveTo { x1: x + r, y1: y + h, x2: x + h, y2: y + r, x, y: y + r });
    out.push(PathSegment::CurveTo { x1: x - h, y1: y + r, x2: x - r, y2: y + h, x: x - r, y });
    out.push(PathSegment::CurveTo { x1: x - r, y1: y - h, x2: x - h, y2: y - r, x, y: y - r });
    out.push(PathSegment::CurveTo { x1: x + h, y1: y - r, x2: x + r, y2: y - h, x: x + r, y });
    out.push(PathSegment::ClosePath);
    assert(out@ =~= circle_outline(cx as int, cy as int, r as int / UNIT as int));
    out
}

/// A copy of an outline, command for command.
pub fn copy_outline(source: &Vec<PathSegment>) -> (out: Vec<PathSegment>)
    ensures
        out@ == source@,
{
    let mut out: Vec<PathSegment> = Vec::with_capacity(source.len());
    let mut i: usize = 0;
    while i < source.len()
        invariant
            i <= source.len(),
            out.len() == i,
            forall|k: int| 0 <= k < i ==> out[k] == source[k],
        decreases source.len() - i,
    {
        out.push(source[i]);
        i = i + 1;
    }
    assert(out@ =~= source@);
    out
}

} // verus!
