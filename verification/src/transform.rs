//! Affine transforms, and the rotation that carries the sun round its pivot.

use vstd::prelude::*;
use crate::shape::UNIT;

verus! {

/// A 2D affine transform `(x, y) -> (a x + c y + e, b x + d y + f)`.
/// `a` to `d` are in millionths, `e` and `f` in millionths of a pixel.
#[derive(Clone, Copy, Debug, PartialEq, Eq, Structural)]
pub struct Matrix {
    pub a: i64,
    pub b: i64,
    pub c: i64,
    pub d: i64,
    pub e: i64,
    pub f: i64,
}

/// A rotation by whole degrees about a pivot given in whole pixels.
#[derive(Clone, Copy, Debug, PartialEq, Eq, Structural)]
pub struct Rotation {
    pub degrees: i32,
    pub pivot_x: i32,
    pub pivot_y: i32,
}

/// The transform of one scene element.
#[derive(Clone, Copy, Debug, PartialEq, Eq, Structural)]
pub enum Transform {
    /// A fixed matrix.
    Matrix(Matrix),
    /// A rotation about a pivot, still to be resolved into a matrix.
    Rotate(Rotation),
}

/// Horizontal position of the point the sun turns about, in pixels.
pub const SUN_PIVOT_X: i32 = 800;

/// Vertical position of that point.
pub const SUN_PIVOT_Y: i32 = 530;

/// The transform that leaves every point where it is.
pub open spec fn identity_matrix() -> Matrix {
    Matrix { a: UNIT, b: 0, c: 0, d: UNIT, e: 0, f: 0 }
}

/// The rotation of the sun artwork at `angle`: by `-angle - 180` degrees
/// about the pivot.
pub open spec fn sun_rotation_of(angle: int) -> Rotation {
    Rotation { degrees: (-angle - 180) as i32, pivot_x: SUN_PIVOT_X, pivot_y: SUN_PIVOT_Y }
}

/// The matrix of rotation `r`, given the cosine and sine of its angle in
/// millionths: the rotation itself, and the translation that brings the
/// pivot back to where it was.
pub open spec fn rotation_matrix(r: Rotation, cos: int, sin: int) -> Matrix {
    Matrix {
        a: cos as i64,
        b: sin as i64,
        c: (-sin) as i64,
        d: cos as i64,
        e: (r.pivot_y * sin - r.pivot_x * cos + r.pivot_x * UNIT) as i64,
        f: (r.pivot_y * UNIT - r.pivot_x * sin - r.pivot_y * cos) as i64,
    }
}

/// Where `m` takes the point `(x, y)` given in whole pixels, in millionths
/// of a pixel.
pub open spec fn image_of(m: Matrix, x: int, y: int) -> (int, int) {
    (m.a * x + m.c * y + m.e, m.b * x + m.d * y + m.f)
}

impl Matrix {
    /// The identity transform.
    pub fn identity() -> (m: Matrix)
        ensures
            m == identity_matrix(),
    {
        Matrix { a: UNIT, b: 0, c: 0, d: UNIT, e: 0, f: 0 }
    }
}

impl Rotation {
    /// Whether the rotation is by a whole number of turns.
    pub open spec fn is_whole_turns(&self) -> bool {
        self.degrees as int % 360 == 0
    }

    /// Resolves the rotation into a matrix. `cos` and `sin` are the cosine
    /// and sine of `degrees`, in millionths.
    pub fn matrix(&self, cos: i32, sin: i32) -> (m: Matrix)
        requires
            -UNIT <= cos <= UNIT,
            -UNIT <= sin <= UNIT,
        ensures
            m == rotation_matrix(*self, cos as int, sin as int),
    {
        let px: i64 = self.pivot_x as i64;
        let py: i64 = self.pivot_y as i64;
        let c: i64 = cos as i64;
        let s: i64 = sin as i64;
        proof {
            lemma_product_bound(px as int, c as int);
            lemma_product_bound(py as int, s as int);
            lemma_product_bound(px as int, s as int);
            lemma_product_bound(py as int, c as int);
            lemma_product_bound(px as int, UNIT as int);
            lemma_product_bound(py as int, UNIT as int);
        }
        Matrix {
            a: c,
            b: s,
            c: -s,
            d: c,
            e: py * s - px * c + px * UNIT,
            f: py * UNIT - px * s - py * c,
        }
    }
}

proof fn lemma_product_bound(p: int, t: int)
    requires
        -0x8000_0000 <= p <= 0x8000_0000,
        -1_000_000 <= t <= 1_000_000,
    ensures
        -0x8000_0000 * 1_000_000 <= p * t <= 0x8000_0000 * 1_000_000,
{
    assert(-0x8000_0000 * 1_000_000 <= p * t <= 0x8000_0000 * 1_000_000) by (nonlinear_arith)
        requires
            -0x8000_0000 <= p <= 0x8000_0000,
            -1_000_000 <= t <= 1_000_000,
    ;
}

/// The rotation of the sun artwork at `angle`.
pub fn sun_rotation(angle: usize) -> (r: Rotation)
    requires
        angle < 360,
    ensures
        r == sun_rotation_of(angle as int),
{
    Rotation { degrees: -(angle as i32) - 180, pivot_x: SUN_PIVOT_X, pivot_y: SUN_PIVOT_Y }
}

/// A rotation never moves its pivot, whatever cosine and sine it is given.
pub proof fn lemma_rotation_fixes_pivot(r: Rotation, cos: int, sin: int)
    requires
        -UNIT <= cos <= UNIT,
        -UNIT <= sin <= UNIT,
    ensures
        image_of(rotation_matrix(r, cos, sin), r.pivot_x as int, r.pivot_y as int) == (
            r.pivot_x * UNIT,
            r.pivot_y * UNIT,
        ),
{
    let px = r.pivot_x as int;
    let py = r.pivot_y as int;
    lemma_product_bound(px, cos);
    lemma_product_bound(py, sin);
    lemma_product_bound(px, sin);
    lemma_product_bound(py, cos);
    lemma_product_bound(px, UNIT as int);
    lemma_product_bound(py, UNIT as int);
    let m = rotation_matrix(r, cos, sin);
    assert(m.e == py * sin - px * cos + px * UNIT);
    assert(m.f == py * UNIT - px * sin - py * cos);
    assert(cos * px + (-sin) * py + (py * sin - px * cos + px * UNIT) == px * UNIT)
        by (nonlinear_arith);
    assert(sin * px + cos * py + (py * UNIT - px * sin - py * cos) == py * UNIT)
        by (nonlinear_arith);
}

/// A whole number of turns, whose cosine is one and whose sine is zero,
/// resolves to the identity: no rotation and no translation.
pub proof fn lemma_whole_turn_is_identity(r: Rotation)
    ensures
        rotation_matrix(r, UNIT as int, 0) == identity_matrix(),
{
    let px = r.pivot_x as int;
    let py = r.pivot_y as int;
    assert(py * 0 - px * UNIT + px * UNIT == 0) by (nonlinear_arith);
    assert(py * UNIT - px * 0 - py * UNIT == 0) by (nonlinear_arith);
}

/// At angle 180 the sun is turned by -360 degrees, a whole turn, so its
/// matrix is the identity.
pub proof fn lemma_sun_upright_at_180()
    ensures
        sun_rotation_of(180).degrees == -360,
        sun_rotation_of(180).is_whole_turns(),
        rotation_matrix(sun_rotation_of(180), UNIT as int, 0) == identity_matrix(),
{
    lemma_whole_turn_is_identity(sun_rotation_of(180));
}

} // verus!
