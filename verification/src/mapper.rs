//! From a gravity reading to the cell of the matrix that shows it.
use vstd::prelude::*;
use crate::mode::LevelMode;
use crate::point::{clamp_int, Point};

verus! {

/// The number of cells along each side of the matrix.
pub const SIDE: usize = 5;

/// One cell of the matrix. Column 0 is the left edge and row 0 the top.
#[derive(Clone, Copy, Debug, PartialEq, Eq, Structural)]
pub struct Pixel {
    pub column: usize,
    pub row: usize,
}

/// The index, counted from the low end of the range, of the cell that the
/// component `v` of a corrected reading falls in.
///
/// `v` is limited to `[-h, h - 1]`, where `h` is the mode's half-range, so
/// that the top of the range stays in the last cell; it is then moved up by
/// `h` and divided by the mode's bucket width.
pub open spec fn bucket(v: int, mode: LevelMode) -> int {
    let h = mode.spec_half_range();
    (clamp_int(v, -h, h - 1) + h) / mode.spec_bucket_width()
}

/// The cell `(column, row)` that shows the corrected reading `p`, if it
/// shows at all: none unless `z` is strictly positive; else the column is
/// the bucket of `x`, and the row counts the bucket of `y` down from the
/// bottom row.
pub open spec fn cell_of(p: (int, int, int), mode: LevelMode) -> Option<(int, int)> {
    if p.2 > 0 {
        Some((bucket(p.0, mode), 4 - bucket(p.1, mode)))
    } else {
        None
    }
}

/// The cell that shows the sensor sample `s`: that of the sample reflected
/// across the origin.
pub open spec fn cell_of_sample(s: (int, int, int), mode: LevelMode) -> Option<(int, int)> {
    cell_of((-s.0, -s.1, -s.2), mode)
}

/// What `found` says in terms of plain integers.
pub open spec fn cell_view(found: Option<Pixel>) -> Option<(int, int)> {
    match found {
        Some(px) => Some((px.column as int, px.row as int)),
        None => None,
    }
}

/// The cell that shows the corrected reading `p` in `mode`, or `None` where
/// the board does not face up.
pub fn locate(p: Point, mode: LevelMode) -> (found: Option<Pixel>)
    ensures
        cell_view(found) == cell_of((p.0 as int, p.1 as int, p.2 as int), mode),
        found is Some <==> p.2 > 0,
        found matches Some(px) ==> px.column < SIDE && px.row < SIDE,
{
    if !p.z_up() {
        return None;
    }
    let h: i32 = mode.half_range();
    let w: i32 = mode.bucket_width();
    let q = p.clamp(-h, h - 1).translate(h, h, h);
    let across: i32 = q.0 / w;
    let up: i32 = q.1 / w;
    Some(Pixel { column: across as usize, row: 4 - up as usize })
}

/// The sample itself, or the nearest value whose negation an `i32` holds.
fn negatable(v: i32) -> (r: i32)
    ensures
        r == if v == i32::MIN { i32::MIN + 1 } else { v as int },
{
    if v == i32::MIN {
        i32::MIN + 1
    } else {
        v
    }
}

/// The cell that shows the sensor sample `sample` in `mode`, or `None` where
/// the board does not face up. The sample is taken as the sensor gives it,
/// in milli-g, and is reflected across the origin first. Every sample has
/// an answer: a component beyond the mode's range counts as the end of the
/// range.
pub fn locate_sample(sample: (i32, i32, i32), mode: LevelMode) -> (found: Option<Pixel>)
    ensures
        cell_view(found) == cell_of_sample(
            (sample.0 as int, sample.1 as int, sample.2 as int),
            mode,
        ),
        found is Some <==> sample.2 < 0,
        found matches Some(px) ==> px.column < SIDE && px.row < SIDE,
{
    let (x, y, z) = sample;
    let p = Point::new_inverted((negatable(x), negatable(y), negatable(z)));
    locate(p, mode)
}

/// A reading whose corrected `z` is zero or negative shows no pixel, in
/// either mode and whatever its `x` and `y`.
pub proof fn lemma_face_down_shows_nothing(p: (int, int, int), mode: LevelMode)
    requires
        p.2 <= 0,
    ensures
        cell_of(p, mode) is None,
{
}

/// A reading whose corrected `z` is positive shows a pixel on the matrix,
/// however far its `x` and `y` lie beyond the mode's range.
pub proof fn lemma_cell_on_matrix(p: (int, int, int), mode: LevelMode)
    requires
        p.2 > 0,
    ensures
        cell_of(p, mode) matches Some((column, row)) && 0 <= column <= 4 && 0 <= row <= 4,
{
    lemma_bucket_bounds(p.0, mode);
    lemma_bucket_bounds(p.1, mode);
}

/// Every component falls in one of five buckets.
pub proof fn lemma_bucket_bounds(v: int, mode: LevelMode)
    ensures
        0 <= bucket(v, mode) <= 4,
{
    match mode {
        LevelMode::Coarse => {},
        LevelMode::Fine => {},
    }
}

/// Within one mode a larger component never falls in a lower bucket.
pub proof fn lemma_bucket_monotonic(v1: int, v2: int, mode: LevelMode)
    requires
        v1 <= v2,
    ensures
        bucket(v1, mode) <= bucket(v2, mode),
{
    match mode {
        LevelMode::Coarse => {},
        LevelMode::Fine => {},
    }
}

/// Beyond the mode's range the bucket no longer moves: from the half-range
/// up it is the last one, and from minus the half-range down the first.
pub proof fn lemma_bucket_saturates(v: int, mode: LevelMode)
    ensures
        v >= mode.spec_half_range() ==> bucket(v, mode) == 4,
        v <= -mode.spec_half_range() ==> bucket(v, mode) == 0,
{
    match mode {
        LevelMode::Coarse => {},
        LevelMode::Fine => {},
    }
}

/// Within one mode, of two readings that both show a pixel, the one with
/// the larger corrected `x` never shows the lower column, and the one with
/// the larger corrected `y` never shows the higher row.
pub proof fn lemma_cell_monotonic(p1: (int, int, int), p2: (int, int, int), mode: LevelMode)
    requires
        p1.2 > 0,
        p2.2 > 0,
    ensures
        p1.0 <= p2.0 ==> cell_of(p1, mode).unwrap().0 <= cell_of(p2, mode).unwrap().0,
        p1.1 <= p2.1 ==> cell_of(p1, mode).unwrap().1 >= cell_of(p2, mode).unwrap().1,
{
    if p1.0 <= p2.0 {
        lemma_bucket_monotonic(p1.0, p2.0, mode);
    }
    if p1.1 <= p2.1 {
        lemma_bucket_monotonic(p1.1, p2.1, mode);
    }
}

/// Seen from the sensor, whose axes are reflected, the order turns round:
/// of two samples that both show a pixel, the one with the larger `x`
/// never shows the higher column.
pub proof fn lemma_sample_column_monotonic(
    s1: (int, int, int),
    s2: (int, int, int),
    mode: LevelMode,
)
    requires
        s1.2 < 0,
        s2.2 < 0,
        s1.0 <= s2.0,
    ensures
        cell_of_sample(s1, mode).unwrap().0 >= cell_of_sample(s2, mode).unwrap().0,
{
    lemma_bucket_monotonic(-s2.0, -s1.0, mode);
}

/// The ends of a mode's range lie on the matrix: a reading at the full
/// half-range in `x` and at minus the half-range in `y` shows the last
/// column of the bottom row, and the opposite reading the first column of
/// the top row.
pub proof fn lemma_range_ends(z: int, mode: LevelMode)
    requires
        z > 0,
    ensures
        cell_of((mode.spec_half_range(), -mode.spec_half_range(), z), mode) == Some((4int, 4int)),
        cell_of((-mode.spec_half_range(), mode.spec_half_range(), z), mode) == Some((0int, 0int)),
{
    lemma_bucket_saturates(mode.spec_half_range(), mode);
    lemma_bucket_saturates(-mode.spec_half_range(), mode);
}

} // verus!
