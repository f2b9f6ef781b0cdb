use vstd::prelude::*;

verus! {

/// Number of samples the chart shows across its full width.
pub const MAX_POINTS: usize = 60;

/// Number of samples between two vertical gridlines.
pub const CELL_WIDTH_IN_SECONDS: usize = 10;

/// Sample value that stands for 100 %: samples are hundredths of a percent.
pub const FULL_SCALE: i32 = 10000;

/// The gridlines cut the chart into this many equal horizontal bands.
pub const HORIZONTAL_BANDS: usize = 10;

/// Number of vertical gridlines drawn.
pub const VERTICAL_LINES: usize = 10;

/// Subdivisions of a pixel in which x coordinates are given: one pixel is
/// `X_UNIT` x units, so that the pitch between samples is a whole number.
pub const X_UNIT: usize = MAX_POINTS - 1;

/// Subdivisions of a pixel in which y coordinates are given.
pub const Y_UNIT: i32 = FULL_SCALE;

/// A point of the chart, `x` in units of `1 / X_UNIT` pixel and `y` in units
/// of `1 / Y_UNIT` pixel, from the top-left corner.
#[derive(Clone, Copy, Debug, PartialEq, Eq)]
pub struct ChartPoint {
    pub x: i128,
    pub y: i128,
}

/// Everything one redraw paints: the filled outline under the curve, the
/// gridlines, and the border, which spans `width` by `height` pixels.
pub struct ChartGeometry {
    pub width: u64,
    pub height: u64,
    /// Closed contour: baseline anchor, one vertex per sample, baseline again.
    pub outline: Vec<ChartPoint>,
    /// y of each horizontal gridline, top to bottom, in `1 / Y_UNIT` pixel.
    pub rows: Vec<i128>,
    /// x of each vertical gridline, left to right, in `1 / X_UNIT` pixel.
    pub columns: Vec<i128>,
}

/// The x coordinate (in x units) where the curve of `n` samples starts:
/// the curve is right-aligned, so a short history leaves room on the left.
pub open spec fn start_x(n: int, width: int) -> int {
    (MAX_POINTS - n) * width
}

/// The right edge of the chart, in x units.
pub open spec fn right_edge(width: int) -> int {
    X_UNIT as int * width
}

/// The x coordinate of sample `i` of `n`, one pitch (`width / X_UNIT` pixels)
/// apart, clamped to the right edge.
pub open spec fn point_x(n: int, i: int, width: int) -> int {
    let x = start_x(n, width) + i * width;
    if x < right_edge(width) {
        x
    } else {
        right_edge(width)
    }
}

/// The y coordinate (in y units) of a sample: 0 % at the bottom, 100 % at
/// the top, and values outside that range outside the chart.
pub open spec fn point_y(value: int, height: int) -> int {
    (FULL_SCALE - value) * height
}

/// The bottom edge of the chart, in y units.
pub open spec fn baseline_y(height: int) -> int {
    Y_UNIT as int * height
}

/// Where the outline comes back to the baseline: under the last sample, or
/// at the left edge when there is none.
pub open spec fn closing_x(n: int, width: int) -> int {
    if n == 0 {
        0
    } else {
        point_x(n, n - 1, width)
    }
}

/// The outline of the area under the curve of `samples`, as a closed
/// polygon from the baseline up through every sample and back down.
pub open spec fn outline(samples: Seq<i32>, width: int, height: int) -> Seq<(int, int)> {
    let n = samples.len() as int;
    seq![(start_x(n, width), baseline_y(height))]
        + Seq::new(samples.len(), |i: int| (point_x(n, i, width), point_y(samples[i] as int, height)))
        + seq![(closing_x(n, width), baseline_y(height))]
}

/// The y coordinate of horizontal gridline `k` (from 0), `k + 1` tenths of
/// the height down.
pub open spec fn row_y(k: int, height: int) -> int {
    (k + 1) * height * (Y_UNIT as int / HORIZONTAL_BANDS as int)
}

/// The x coordinate of vertical gridline `k` (from 0): one cell of
/// `CELL_WIDTH_IN_SECONDS` samples per line, shifted left by `grid_offset`
/// samples.
pub open spec fn column_x(k: int, grid_offset: int, width: int) -> int {
    ((k + 1) * CELL_WIDTH_IN_SECONDS - grid_offset) * width
}

/// The view of a list of points as pairs of integers.
pub open spec fn points_view(points: Seq<ChartPoint>) -> Seq<(int, int)> {
    points.map_values(|p: ChartPoint| (p.x as int, p.y as int))
}

/// The x coordinate of sample `i` of `n`.
fn sample_x(n: usize, i: usize, width: u64) -> (r: i128)
    requires
        n <= MAX_POINTS,
        i < n,
    ensures
        r == point_x(n as int, i as int, width as int),
{
    let w = width as i128;
    proof {
        assert(0 <= (MAX_POINTS - n + i) * width <= MAX_POINTS * width) by (nonlinear_arith)
            requires
                n <= MAX_POINTS,
                i < n,
        ;
        assert(MAX_POINTS * width <= MAX_POINTS * 0xffff_ffff_ffff_ffffu64) by (nonlinear_arith);
        assert((MAX_POINTS - n) * width + i * width == (MAX_POINTS - n + i) * width)
            by (nonlinear_arith);
    }
    let x = ((MAX_POINTS - n + i) as i128) * w;
    proof {
        assert(X_UNIT as int * width <= X_UNIT as int * 0xffff_ffff_ffff_ffffu64) by (nonlinear_arith);
    }
    let edge = (X_UNIT as i128) * w;
    if x < edge {
        x
    } else {
        edge
    }
}

/// The y coordinate of a sample.
fn sample_y(value: i32, height: u64) -> (r: i128)
    ensures
        r == point_y(value as int, height as int),
{
    let d = (FULL_SCALE as i128) - (value as i128);
    proof {
        let hh = height as int;
        let dd = d as int;
        assert(-0x1_0000_0000 <= dd <= 0x1_0000_0000);
        assert(-0x1_0000_0000 * 0x1_0000_0000_0000_0000 <= dd * hh <= 0x1_0000_0000
            * 0x1_0000_0000_0000_0000) by (nonlinear_arith)
            requires
                -0x1_0000_0000 <= dd <= 0x1_0000_0000,
                0 <= hh < 0x1_0000_0000_0000_0000,
        ;
    }
    d * (height as i128)
}

/// Builds the closed outline of the area under the curve of `samples`
/// (oldest first) on a chart of `width` by `height` pixels.
pub fn build_outline(samples: &Vec<i32>, width: u64, height: u64) -> (r: Vec<ChartPoint>)
    requires
        samples.len() <= MAX_POINTS,
    ensures
        points_view(r@) == outline(samples@, width as int, height as int),
{
    let n = samples.len();
    let base = (Y_UNIT as i128) * (height as i128);
    proof {
        assert(Y_UNIT as int * height <= Y_UNIT as int * 0xffff_ffff_ffff_ffffu64) by (nonlinear_arith);
        assert(0 <= MAX_POINTS * width <= MAX_POINTS * 0xffff_ffff_ffff_ffffu64) by (nonlinear_arith);
        assert(0 <= (MAX_POINTS - n) * width <= MAX_POINTS * width) by (nonlinear_arith)
            requires
                n <= MAX_POINTS,
        ;
    }
    let start = ((MAX_POINTS - n) as i128) * (width as i128);
    let mut r: Vec<ChartPoint> = Vec::with_capacity(n + 2);
    r.push(ChartPoint { x: start, y: base });
    let mut last_x: i128 = 0;
    for i in 0..n
        invariant
            n == samples@.len(),
            n <= MAX_POINTS,
            base == baseline_y(height as int),
            r@.len() == i + 1,
            points_view(r@) == outline(samples@, width as int, height as int).subrange(
                0,
                i + 1,
            ),
            i > 0 ==> last_x == point_x(n as int, i - 1, width as int),
            i == 0 ==> last_x == 0,
    {
        let x = sample_x(n, i, width);
        let y = sample_y(samples[i], height);
        r.push(ChartPoint { x, y });
        last_x = x;
        proof {
            let o = outline(samples@, width as int, height as int);
            assert(o[i + 1] == (x as int, y as int));
            assert(points_view(r@) =~= o.subrange(0, i + 2));
        }
    }
    let ghost before = r@;
    r.push(ChartPoint { x: last_x, y: base });
    proof {
        let o = outline(samples@, width as int, height as int);
        assert(o.len() == n + 2);
        assert(points_view(before) == o.subrange(0, n + 1));
        assert(r@ == before.push(ChartPoint { x: last_x, y: base }));
        assert forall|j: int| 0 <= j < n + 1 implies points_view(r@)[j] == o[j] by {
            assert(points_view(r@)[j] == points_view(before)[j]);
        }
        assert(o[n + 1] == (closing_x(n as int, width as int), baseline_y(height as int)));
        assert(points_view(r@) =~= o);
    }
    r
}

/// Builds the horizontal gridlines of a chart `height` pixels high.
pub fn build_rows(height: u64) -> (r: Vec<i128>)
    ensures
        r@.len() == HORIZONTAL_BANDS - 1,
        forall|k: int| 0 <= k < r@.len() ==> r@[k] == row_y(k, height as int),
{
    let mut r: Vec<i128> = Vec::with_capacity(HORIZONTAL_BANDS - 1);
    let step = (height as i128) * ((Y_UNIT / HORIZONTAL_BANDS as i32) as i128);
    proof {
        assert(height * 1000 <= 0xffff_ffff_ffff_ffffu64 * 1000) by (nonlinear_arith);
    }
    for k in 0..HORIZONTAL_BANDS - 1
        invariant
            step == height * (Y_UNIT as int / HORIZONTAL_BANDS as int),
            r@.len() == k,
            forall|j: int| 0 <= j < k ==> r@[j] == row_y(j, height as int),
    {
        proof {
            assert((k + 1) * step <= 9 * (0xffff_ffff_ffff_ffffu64 * 1000)) by (nonlinear_arith)
                requires
                    k < 9,
                    0 <= step <= 0xffff_ffff_ffff_ffffu64 * 1000,
            ;
            assert((k + 1) * step == (k + 1) * height * (Y_UNIT as int / HORIZONTAL_BANDS as int))
                by (nonlinear_arith)
                requires
                    step == height * (Y_UNIT as int / HORIZONTAL_BANDS as int),
            ;
        }
        r.push(((k + 1) as i128) * step);
    }
    r
}

/// Builds the vertical gridlines of a chart `width` pixels wide, scrolled
/// left by `grid_offset` samples.
pub fn build_columns(width: u64, grid_offset: usize) -> (r: Vec<i128>)
    requires
        grid_offset < CELL_WIDTH_IN_SECONDS,
    ensures
        r@.len() == VERTICAL_LINES,
        forall|k: int| 0 <= k < r@.len() ==> r@[k] == column_x(k, grid_offset as int, width as int),
{
    let mut r: Vec<i128> = Vec::with_capacity(VERTICAL_LINES);
    for k in 0..VERTICAL_LINES
        invariant
            grid_offset < CELL_WIDTH_IN_SECONDS,
            r@.len() == k,
            forall|j: int| 0 <= j < k ==> r@[j] == column_x(j, grid_offset as int, width as int),
    {
        let cells = ((k + 1) * CELL_WIDTH_IN_SECONDS - grid_offset) as i128;
        proof {
            assert(0 <= cells * width <= 100 * 0xffff_ffff_ffff_ffffu64) by (nonlinear_arith)
                requires
                    0 <= cells <= 100,
                    0 <= width <= 0xffff_ffff_ffff_ffffu64,
            ;
        }
        r.push(cells * (width as i128));
    }
    r
}

/// Builds everything a redraw paints for `samples` (oldest first) on a chart
/// of `width` by `height` pixels whose grid is scrolled by `grid_offset`.
pub fn build_geometry(samples: &Vec<i32>, width: u64, height: u64, grid_offset: usize) -> (r:
    ChartGeometry)
    requires
        samples.len() <= MAX_POINTS,
        grid_offset < CELL_WIDTH_IN_SECONDS,
    ensures
        r.width == width,
        r.height == height,
        points_view(r.outline@) == outline(samples@, width as int, height as int),
        r.rows@.len() == HORIZONTAL_BANDS - 1,
        forall|k: int| 0 <= k < r.rows@.len() ==> r.rows@[k] == row_y(k, height as int),
        r.columns@.len() == VERTICAL_LINES,
        forall|k: int|
            0 <= k < r.columns@.len() ==> r.columns@[k] == column_x(
                k,
                grid_offset as int,
                width as int,
            ),
{
    ChartGeometry {
        width,
        height,
        outline: build_outline(samples, width, height),
        rows: build_rows(height),
        columns: build_columns(width, grid_offset),
    }
}

/// Along the curve, x never decreases from one sample to the next, and no
/// vertex of the curve lies past the right edge.
pub proof fn lemma_outline_x_monotonic(samples: Seq<i32>, width: u64, height: u64, i: int, j: int)
    requires
        samples.len() <= MAX_POINTS,
        1 <= i <= j <= samples.len(),
    ensures
        outline(samples, width as int, height as int)[i].0 <= outline(
            samples,
            width as int,
            height as int,
        )[j].0,
        outline(samples, width as int, height as int)[j].0 <= right_edge(width as int),
{
    let n = samples.len() as int;
    let w = width as int;
    assert((i - 1) * w <= (j - 1) * w) by (nonlinear_arith)
        requires
            i <= j,
            w >= 0,
    ;
    assert(outline(samples, w, height as int)[i].0 == point_x(n, i - 1, w));
    assert(outline(samples, w, height as int)[j].0 == point_x(n, j - 1, w));
}

/// With no samples there is no curve: the outline is the anchor on the
/// baseline and the return to the left edge, and the anchor lies at or past
/// the right edge (exactly on it only for a chart of width 0).
pub proof fn lemma_empty_outline(width: u64, height: u64)
    ensures
        outline(Seq::empty(), width as int, height as int) == seq![
            (start_x(0, width as int), baseline_y(height as int)),
            (0int, baseline_y(height as int)),
        ],
        start_x(0, width as int) >= right_edge(width as int),
        start_x(0, width as int) == right_edge(width as int) <==> width == 0,
{
    assert(outline(Seq::empty(), width as int, height as int) =~= seq![
        (start_x(0, width as int), baseline_y(height as int)),
        (0int, baseline_y(height as int)),
    ]);
}

/// With a full history the curve spans the whole chart: it starts on the
/// left edge and its newest sample sits exactly on the right edge.
pub proof fn lemma_full_outline(samples: Seq<i32>, width: u64, height: u64)
    requires
        samples.len() == MAX_POINTS,
    ensures
        start_x(MAX_POINTS as int, width as int) == 0,
        outline(samples, width as int, height as int)[0].0 == 0,
        outline(samples, width as int, height as int)[1].0 == 0,
        outline(samples, width as int, height as int)[MAX_POINTS as int].0 == right_edge(
            width as int,
        ),
        closing_x(MAX_POINTS as int, width as int) == right_edge(width as int),
{
    let w = width as int;
    assert(outline(samples, w, height as int)[MAX_POINTS as int].0 == point_x(
        MAX_POINTS as int,
        MAX_POINTS - 1,
        w,
    ));
    assert(start_x(MAX_POINTS as int, w) + (MAX_POINTS - 1) * w == right_edge(w)) by (nonlinear_arith);
}

} // verus!
