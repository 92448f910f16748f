//! Opaque and translucent colours, and flattening onto the night background.

use vstd::prelude::*;
use crate::gradient::{
    gradient_table, keyframe_color, resolve_keyframe, FormatError, GradientTable,
};

verus! {

/// An opaque colour, one byte per channel.
#[derive(Clone, Copy, Debug, PartialEq, Eq, Structural)]
pub struct Color {
    pub r: u8,
    pub g: u8,
    pub b: u8,
}

/// A colour with an alpha channel; `a == 255` is fully opaque.
#[derive(Clone, Copy, Debug, PartialEq, Eq, Structural)]
pub struct Rgba {
    pub r: u8,
    pub g: u8,
    pub b: u8,
    pub a: u8,
}

/// A keyframe colour as it is read: opaque, or still carrying its alpha.
#[derive(Clone, Copy, Debug, PartialEq, Eq, Structural)]
pub enum ColorType {
    Normal(Color),
    WithAlpha(Rgba),
}

/// Red channel of the dark navy that translucent keyframes are laid over.
pub const BACKGROUND_R: u8 = 0x0d;

/// Green channel of the background.
pub const BACKGROUND_G: u8 = 0x13;

/// Blue channel of the background.
pub const BACKGROUND_B: u8 = 0x3a;

/// One channel of `top` at opacity `alpha / 255` over an opaque `bottom`,
/// rounded to the nearest byte.
pub open spec fn over_channel(top: u8, alpha: u8, bottom: u8) -> int {
    (top * alpha + bottom * (255 - alpha) + 127) / 255
}

/// `source` composited over the background colour.
pub open spec fn flattened(source: Rgba) -> Color {
    Color {
        r: over_channel(source.r, source.a, BACKGROUND_R) as u8,
        g: over_channel(source.g, source.a, BACKGROUND_G) as u8,
        b: over_channel(source.b, source.a, BACKGROUND_B) as u8,
    }
}

/// The blend of two bytes is a byte, and lies between them.
pub proof fn lemma_over_channel_bounds(top: u8, alpha: u8, bottom: u8)
    ensures
        0 <= over_channel(top, alpha, bottom) <= 255,
        top <= bottom ==> top <= over_channel(top, alpha, bottom) <= bottom,
        bottom <= top ==> bottom <= over_channel(top, alpha, bottom) <= top,
{
    let t = top as int;
    let a = alpha as int;
    let b = bottom as int;
    let s = t * a + b * (255 - a);
    assert(0 <= t * a <= 255 * a) by (nonlinear_arith)
        requires
            0 <= t <= 255,
            0 <= a,
    ;
    assert(0 <= b * (255 - a) <= 255 * (255 - a)) by (nonlinear_arith)
        requires
            0 <= b <= 255,
            0 <= 255 - a,
    ;
    if t <= b {
        assert(t * a + t * (255 - a) == 255 * t) by (nonlinear_arith);
        assert(b * a + b * (255 - a) == 255 * b) by (nonlinear_arith);
        assert(t * (255 - a) <= b * (255 - a)) by (nonlinear_arith)
            requires
                t <= b,
                0 <= 255 - a,
        ;
        assert(t * a <= b * a) by (nonlinear_arith)
            requires
                t <= b,
                0 <= a,
        ;
        assert(255 * t <= s <= 255 * b);
    } else {
        assert(t * a + t * (255 - a) == 255 * t) by (nonlinear_arith);
        assert(b * a + b * (255 - a) == 255 * b) by (nonlinear_arith);
        assert(b * (255 - a) <= t * (255 - a)) by (nonlinear_arith)
            requires
                b <= t,
                0 <= 255 - a,
        ;
        assert(b * a <= t * a) by (nonlinear_arith)
            requires
                b <= t,
                0 <= a,
        ;
        assert(255 * b <= s <= 255 * t);
    }
}

fn blend_channel(top: u8, alpha: u8, bottom: u8) -> (out: u8)
    ensures
        out == over_channel(top, alpha, bottom),
{
    proof {
        lemma_over_channel_bounds(top, alpha, bottom);
        assert(0 <= top * alpha <= 255 * 255) by (nonlinear_arith)
            requires
                0 <= top <= 255,
                0 <= alpha <= 255,
        ;
        assert(0 <= bottom * (255 - alpha) <= 255 * 255) by (nonlinear_arith)
            requires
                0 <= bottom <= 255,
                0 <= 255 - alpha <= 255,
        ;
    }
    let t: u32 = top as u32;
    let a: u32 = alpha as u32;
    let b: u32 = bottom as u32;
    let sum: u32 = t * a + b * (255 - a) + 127;
    (sum / 255) as u8
}

/// Flattens a translucent colour: composites it over the opaque background.
pub fn convert_alpha(source: Rgba) -> (out: Color)
    ensures
        out == flattened(source),
{
    Color {
        r: blend_channel(source.r, source.a, BACKGROUND_R),
        g: blend_channel(source.g, source.a, BACKGROUND_G),
        b: blend_channel(source.b, source.a, BACKGROUND_B),
    }
}

/// A fully opaque colour is its own flattening; a fully transparent one
/// leaves only the background.
pub proof fn lemma_flatten_ends(source: Rgba)
    ensures
        source.a == 255 ==> flattened(source) == (Color { r: source.r, g: source.g, b: source.b }),
        source.a == 0 ==> flattened(source) == (Color {
            r: BACKGROUND_R,
            g: BACKGROUND_G,
            b: BACKGROUND_B,
        }),
{
}

/// What the CSS colour grammar makes of `code`: the colour it denotes, with
/// each channel and the alpha rounded to a byte, or `None` where `code` is
/// not a colour.
pub uninterp spec fn css_color(code: Seq<char>) -> Option<Rgba>;

/// Parses a CSS colour with `csscolorparser::parse` and reads the result
/// out with `Color::to_rgba8`. Trusted: that the outcome depends on the text
/// alone, which is what `css_color` names. Nothing is claimed about which
/// texts are colours or which colour a text denotes.
#[verifier::external_body]
fn parse_css(code: &str) -> (out: Option<Rgba>)
    ensures
        out == css_color(code@),
{
    match csscolorparser::parse(code) {
        Ok(c) => {
            let [r, g, b, a] = c.to_rgba8();
            Some(Rgba { r, g, b, a })
        },
        Err(_) => None,
    }
}

/// How a parsed colour is kept: with its alpha while it is translucent,
/// without it once it is opaque.
pub open spec fn color_type_of(c: Rgba) -> ColorType {
    if c.a < 255 {
        ColorType::WithAlpha(c)
    } else {
        ColorType::Normal(Color { r: c.r, g: c.g, b: c.b })
    }
}

/// What a colour code reads as, if it is one.
pub open spec fn read_color_of(code: Seq<char>) -> Option<ColorType> {
    match css_color(code) {
        Some(c) => Some(color_type_of(c)),
        None => None,
    }
}

/// The opaque colour a colour code stands for, if it is one.
pub open spec fn load_color_of(code: Seq<char>) -> Option<Color> {
    match css_color(code) {
        Some(c) => Some(keyframe_color(color_type_of(c))),
        None => None,
    }
}

/// Whether every one of the first `count` codes is a colour.
pub open spec fn all_colors(codes: Seq<String>, count: int) -> bool {
    forall|i: int| 0 <= i < count ==> css_color(#[trigger] codes[i]@) is Some
}

/// The keyframes that a list of colour codes stands for.
pub open spec fn keyframes_of(codes: Seq<String>) -> Seq<ColorType> {
    Seq::new(codes.len(), |i: int| color_type_of(css_color(codes[i]@).unwrap()))
}

/// Sorts a parsed colour into opaque and translucent.
pub fn color_type(c: Rgba) -> (out: ColorType)
    ensures
        out == color_type_of(c),
{
    if c.a < 255 {
        ColorType::WithAlpha(c)
    } else {
        ColorType::Normal(Color { r: c.r, g: c.g, b: c.b })
    }
}

/// Reads a CSS colour code. `None` where the code is not a colour.
pub fn read_color(color_code: &str) -> (out: Option<ColorType>)
    ensures
        out == read_color_of(color_code@),
{
    match parse_css(color_code) {
        Some(c) => Some(color_type(c)),
        None => None,
    }
}

/// Reads a CSS colour code as an opaque colour, flattening it if need be.
pub fn load_color(color_code: &str) -> (out: Option<Color>)
    ensures
        out == load_color_of(color_code@),
{
    match read_color(color_code) {
        Some(keyframe) => Some(resolve_keyframe(keyframe)),
        None => None,
    }
}

/// Builds the table of the gradient whose keyframes are given as CSS colour
/// codes. Fails on an empty list, and on the first code that is not a colour.
pub fn load_colors(data: &Vec<String>) -> (out: Result<GradientTable, FormatError>)
    ensures
        out is Ok <==> data.len() >= 1 && all_colors(data@, data.len() as int),
        out matches Ok(table) ==> table.wf() && table@ == gradient_table(keyframes_of(data@)),
        out matches Err(FormatError::NoKeyframes) <==> data.len() == 0,
        out matches Err(FormatError::BadColor { index }) ==> {
            &&& index < data.len()
            &&& css_color(data[index as int]@) is None
            &&& all_colors(data@, index as int)
        },
{
    let mut keyframes: Vec<ColorType> = Vec::with_capacity(data.len());
    let mut i: usize = 0;
    while i < data.len()
        invariant
            i <= data.len(),
            keyframes.len() == i,
            all_colors(data@, i as int),
            forall|k: int|
                0 <= k < i ==> keyframes[k] == color_type_of(css_color(data[k]@).unwrap()),
        decreases data.len() - i,
    {
        match read_color(data[i].as_str()) {
            Some(keyframe) => {
                keyframes.push(keyframe);
            },
            None => {
                return Err(FormatError::BadColor { index: i });
            },
        }
        i = i + 1;
    }
    assert(keyframes@ =~= keyframes_of(data@));
    GradientTable::build(&keyframes)
}

} // verus!
