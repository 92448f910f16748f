//! The 360-entry colour table of one gradient.
//!
//! The keyframes of a gradient are control points spaced evenly round the day
//! circle, the last one leading back to the first. A table samples that closed
//! path once per angle, so that a lookup at render time is a single index.

use vstd::prelude::*;
use crate::colors::{flattened, convert_alpha, Color, ColorType};

verus! {

/// Number of entries of every table: one per angle.
pub const TABLE_LEN: usize = 360;

/// Why a gradient could not be built from its description.
#[derive(Clone, Copy, Debug, PartialEq, Eq, Structural)]
pub enum FormatError {
    /// The list of keyframes is empty.
    NoKeyframes,
    /// The colour code at `index` is not a colour.
    BadColor { index: usize },
}

/// The opaque colour a keyframe stands for.
pub open spec fn keyframe_color(keyframe: ColorType) -> Color {
    match keyframe {
        ColorType::Normal(c) => c,
        ColorType::WithAlpha(c) => flattened(c),
    }
}

/// One channel, `step` 360ths of the way from `from` to `to`, rounded to the
/// nearest byte.
pub open spec fn mix_channel(from: u8, to: u8, step: int) -> int {
    (from * (360 - step) + to * step + 180) / 360
}

/// The colour `step` 360ths of the way from `from` to `to`.
pub open spec fn mix(from: Color, to: Color, step: int) -> Color {
    Color {
        r: mix_channel(from.r, to.r, step) as u8,
        g: mix_channel(from.g, to.g, step) as u8,
        b: mix_channel(from.b, to.b, step) as u8,
    }
}

/// The keyframe at or before angle `index` on the closed path.
pub open spec fn segment_of(count: nat, index: int) -> int {
    (index * count) / 360
}

/// How far, in 360ths of a segment, angle `index` lies past that keyframe.
pub open spec fn step_of(count: nat, index: int) -> int {
    (index * count) % 360
}

/// The table entry at angle `index` for a non-empty list of keyframes.
pub open spec fn table_entry(keyframes: Seq<ColorType>, index: int) -> Color {
    let seg = segment_of(keyframes.len(), index);
    mix(
        keyframe_color(keyframes[seg]),
        keyframe_color(keyframes[(seg + 1) % (keyframes.len() as int)]),
        step_of(keyframes.len(), index),
    )
}

/// The whole table of a non-empty list of keyframes.
pub open spec fn gradient_table(keyframes: Seq<ColorType>) -> Seq<Color> {
    Seq::new(360, |index: int| table_entry(keyframes, index))
}

/// A mixed channel is a byte between its two ends.
pub proof fn lemma_mix_channel_bounds(from: u8, to: u8, step: int)
    requires
        0 <= step < 360,
    ensures
        0 <= mix_channel(from, to, step) <= 255,
        from <= to ==> from <= mix_channel(from, to, step) <= to,
        to <= from ==> to <= mix_channel(from, to, step) <= from,
        from * (360 - step) + to * step + 180 <= 255 * 360 + 180,
        from * (360 - step) + to * step >= 0,
{
    let f = from as int;
    let t = to as int;
    let w = 360 - step;
    assert(f * w + f * step == 360 * f) by (nonlinear_arith)
        requires
            w == 360 - step,
    ;
    assert(t * w + t * step == 360 * t) by (nonlinear_arith)
        requires
            w == 360 - step,
    ;
    if f <= t {
        assert(f * step <= t * step) by (nonlinear_arith)
            requires
                f <= t,
                0 <= step,
        ;
        assert(f * w <= t * w) by (nonlinear_arith)
            requires
                f <= t,
                0 <= w,
        ;
    } else {
        assert(t * step <= f * step) by (nonlinear_arith)
            requires
                t <= f,
                0 <= step,
        ;
        assert(t * w <= f * w) by (nonlinear_arith)
            requires
                t <= f,
                0 <= w,
        ;
    }
}

/// Every angle falls on a segment that starts at one of the keyframes.
pub proof fn lemma_segment_in_range(count: nat, index: int)
    requires
        count >= 1,
        0 <= index < 360,
    ensures
        0 <= segment_of(count, index) < count,
        0 <= step_of(count, index) < 360,
        index * count == 360 * segment_of(count, index) + step_of(count, index),
{
    let pos = index * count;
    assert(0 <= pos < 360 * count) by (nonlinear_arith)
        requires
            pos == index * count,
            0 <= index < 360,
            count >= 1,
    ;
}

/// A 360-entry colour lookup table, indexed by angle.
#[derive(Debug)]
pub struct GradientTable {
    entries: Vec<Color>,
}

impl View for GradientTable {
    type V = Seq<Color>;

    closed spec fn view(&self) -> Seq<Color> {
        self.entries@
    }
}

fn mix_byte(from: u8, to: u8, step: u32) -> (out: u8)
    requires
        step < 360,
    ensures
        out == mix_channel(from, to, step as int),
{
    proof {
        lemma_mix_channel_bounds(from, to, step as int);
        assert(0 <= from * (360 - step) <= 255 * 360) by (nonlinear_arith)
            requires
                0 <= from <= 255,
                0 <= 360 - step <= 360,
        ;
        assert(0 <= to * step <= 255 * 360) by (nonlinear_arith)
            requires
                0 <= to <= 255,
                0 <= step <= 360,
        ;
    }
    let f: u32 = from as u32;
    let t: u32 = to as u32;
    let sum: u32 = f * (360 - step) + t * step + 180;
    (sum / 360) as u8
}

fn mix_colors(from: Color, to: Color, step: u32) -> (out: Color)
    requires
        step < 360,
    ensures
        out == mix(from, to, step as int),
{
    Color {
        r: mix_byte(from.r, to.r, step),
        g: mix_byte(from.g, to.g, step),
        b: mix_byte(from.b, to.b, step),
    }
}

/// The opaque colour of a keyframe: itself, or its flattening.
pub fn resolve_keyframe(keyframe: ColorType) -> (out: Color)
    ensures
        out == keyframe_color(keyframe),
{
    match keyframe {
        ColorType::Normal(c) => c,
        ColorType::WithAlpha(c) => convert_alpha(c),
    }
}

impl GradientTable {
    /// A table has exactly one entry per angle.
    pub open spec fn wf(&self) -> bool {
        self@.len() == 360
    }

    /// Samples the closed path through `keyframes` at each of the 360 angles.
    /// An empty list is rejected; nothing else is, and a single keyframe gives
    /// a flat table.
    pub fn build(keyframes: &Vec<ColorType>) -> (out: Result<GradientTable, FormatError>)
        ensures
            keyframes.len() == 0 <==> out is Err,
            out matches Err(e) ==> e == FormatError::NoKeyframes,
            out matches Ok(table) ==> table.wf() && table@ == gradient_table(keyframes@),
    {
        let count: usize = keyframes.len();
        if count == 0 {
            return Err(FormatError::NoKeyframes);
        }
        let mut entries: Vec<Color> = Vec::with_capacity(TABLE_LEN);
        let mut index: usize = 0;
        while index < TABLE_LEN
            invariant
                count == keyframes.len(),
                count >= 1,
                index <= 360,
                entries.len() == index,
                forall|i: int| 0 <= i < index ==> entries[i] == table_entry(keyframes@, i),
            decreases 360 - index,
        {
            proof {
                lemma_segment_in_range(count as nat, index as int);
            }
            let pos: u128 = (index as u128) * (count as u128);
            let seg: usize = (pos / 360) as usize;
            let step: u32 = (pos % 360) as u32;
            let next: usize = if seg + 1 == count {
                0
            } else {
                seg + 1
            };
            assert(next == (seg + 1) % (count as int)) by {
                if seg + 1 == count {
                    assert(count as int % count as int == 0) by (nonlinear_arith)
                        requires
                            count >= 1,
                    ;
                } else {
                    assert((seg + 1) % (count as int) == seg + 1) by (nonlinear_arith)
                        requires
                            0 <= seg + 1 < count,
                    ;
                }
            }
            let from = resolve_keyframe(keyframes[seg]);
            let to = resolve_keyframe(keyframes[next]);
            entries.push(mix_colors(from, to, step));
            index = index + 1;
        }
        Ok(GradientTable { entries })
    }

    /// The colour at `angle`.
    pub fn get(&self, angle: usize) -> (out: Color)
        requires
            self.wf(),
            angle < 360,
        ensures
            out == self@[angle as int],
    {
        self.entries[angle]
    }

    /// The 360 entries in angle order.
    pub fn entries(&self) -> (out: Vec<Color>)
        ensures
            out@ == self@,
    {
        let mut out: Vec<Color> = Vec::with_capacity(self.entries.len());
        let mut i: usize = 0;
        while i < self.entries.len()
            invariant
                i <= self.entries.len(),
                out.len() == i,
                forall|k: int| 0 <= k < i ==> out[k] == self.entries[k],
            decreases self.entries.len() - i,
        {
            out.push(self.entries[i]);
            i = i + 1;
        }
        assert(out@ =~= self.entries@);
        out
    }
}

/// Mixing a colour with itself gives that colour, at every step.
pub proof fn lemma_mix_same(c: Color, step: int)
    requires
        0 <= step < 360,
    ensures
        mix(c, c, step) == c,
{
    lemma_mix_channel_bounds(c.r, c.r, step);
    lemma_mix_channel_bounds(c.g, c.g, step);
    lemma_mix_channel_bounds(c.b, c.b, step);
}

/// A single keyframe gives a flat table: all 360 entries are that keyframe,
/// flattened if it carries alpha.
pub proof fn lemma_single_keyframe_is_flat(keyframes: Seq<ColorType>, angle: int)
    requires
        keyframes.len() == 1,
        0 <= angle < 360,
    ensures
        gradient_table(keyframes).len() == 360,
        gradient_table(keyframes)[angle] == keyframe_color(keyframes[0]),
{
    lemma_segment_in_range(1, angle);
    lemma_mix_same(keyframe_color(keyframes[0]), step_of(1, angle));
}

/// Building is a function of the keyframes alone: two tables built from the
/// same list agree at every angle, and both have 360 entries.
pub proof fn lemma_table_is_reproducible(
    keyframes: Seq<ColorType>,
    first: GradientTable,
    second: GradientTable,
    angle: int,
)
    requires
        keyframes.len() >= 1,
        first@ == gradient_table(keyframes),
        second@ == gradient_table(keyframes),
        0 <= angle < 360,
    ensures
        first@.len() == 360,
        second@.len() == 360,
        first@[angle] == second@[angle],
        first@ == second@,
{
}

/// Every entry lies, channel by channel, between the keyframe its segment
/// starts at and the one it leads to.
pub proof fn lemma_table_stays_between_keyframes(keyframes: Seq<ColorType>, angle: int)
    requires
        keyframes.len() >= 1,
        0 <= angle < 360,
    ensures
        ({
            let seg = segment_of(keyframes.len(), angle);
            let from = keyframe_color(keyframes[seg]);
            let to = keyframe_color(keyframes[(seg + 1) % (keyframes.len() as int)]);
            let entry = gradient_table(keyframes)[angle];
            &&& from.r <= to.r ==> from.r <= entry.r <= to.r
            &&& to.r <= from.r ==> to.r <= entry.r <= from.r
            &&& from.g <= to.g ==> from.g <= entry.g <= to.g
            &&& to.g <= from.g ==> to.g <= entry.g <= from.g
            &&& from.b <= to.b ==> from.b <= entry.b <= to.b
            &&& to.b <= from.b ==> to.b <= entry.b <= from.b
        }),
{
    lemma_segment_in_range(keyframes.len(), angle);
    let seg = segment_of(keyframes.len(), angle);
    let step = step_of(keyframes.len(), angle);
    let from = keyframe_color(keyframes[seg]);
    let to = keyframe_color(keyframes[(seg + 1) % (keyframes.len() as int)]);
    lemma_mix_channel_bounds(from.r, to.r, step);
    lemma_mix_channel_bounds(from.g, to.g, step);
    lemma_mix_channel_bounds(from.b, to.b, step);
}

/// Where an angle falls exactly on a keyframe, the entry is that keyframe.
pub proof fn lemma_table_passes_through_keyframes(keyframes: Seq<ColorType>, angle: int)
    requires
        keyframes.len() >= 1,
        0 <= angle < 360,
        step_of(keyframes.len(), angle) == 0,
    ensures
        gradient_table(keyframes)[angle] == keyframe_color(
            keyframes[segment_of(keyframes.len(), angle)],
        ),
{
    lemma_segment_in_range(keyframes.len(), angle);
}

} // verus!
