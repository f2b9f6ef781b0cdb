use crate::geometry::{
    build_geometry, column_x, outline, points_view, row_y, ChartGeometry, CELL_WIDTH_IN_SECONDS,
    HORIZONTAL_BANDS, MAX_POINTS, VERTICAL_LINES,
};
use crate::rolling_buffer::{pushed, RollingBuffer};
use vstd::prelude::*;

verus! {

/// Width of the chart in pixels at 100 % scaling.
pub const UNSCALED_WIDTH: u32 = 250;

/// Height of the chart in pixels at 100 % scaling.
pub const UNSCALED_HEIGHT: u32 = 226;

/// The DPI at which a logical pixel is one physical pixel.
pub const BASE_DPI: u32 = 96;

/// `number * numerator / denominator`, rounded to the nearest integer with
/// halves rounded up (the rounding of the Win32 `MulDiv` on non-negative
/// values).
pub open spec fn mul_div_spec(number: int, numerator: int, denominator: int) -> int {
    (number * numerator + denominator / 2) / denominator
}

/// A logical length scaled to `dpi`.
pub open spec fn scaled(value: int, dpi: int) -> int {
    mul_div_spec(value, dpi, BASE_DPI as int)
}

/// The pixel size of the chart at `dpi`: its width and its height.
pub open spec fn size_at_dpi(dpi: int) -> (int, int) {
    (scaled(UNSCALED_WIDTH as int, dpi), scaled(UNSCALED_HEIGHT as int, dpi))
}

/// `number * numerator / denominator` rounded to the nearest integer, halves
/// up.
pub fn mul_div(number: u32, numerator: u32, denominator: u32) -> (r: u64)
    requires
        denominator > 0,
    ensures
        r == mul_div_spec(number as int, numerator as int, denominator as int),
{
    proof {
        assert(number * numerator <= 0xffff_ffffu32 * 0xffff_ffffu32) by (nonlinear_arith);
    }
    let product = (number as u64) * (numerator as u64);
    (product + (denominator / 2) as u64) / (denominator as u64)
}

/// What a chart holds: its samples (oldest first), its DPI, and how far its
/// vertical gridlines have scrolled, in samples.
pub struct ChartState {
    pub points: Seq<i32>,
    pub dpi: u32,
    pub grid_offset: nat,
}

/// The state after a new sample: it joins the history, and the grid
/// scrolls by one sample.
pub open spec fn with_point(s: ChartState, value: i32) -> ChartState {
    ChartState {
        points: pushed(s.points, value, MAX_POINTS as nat),
        dpi: s.dpi,
        grid_offset: ((s.grid_offset + 1) as int % (CELL_WIDTH_IN_SECONDS as int)) as nat,
    }
}

/// The state after a DPI change: only the DPI changes.
pub open spec fn with_dpi(s: ChartState, dpi: u32) -> ChartState {
    ChartState { dpi, ..s }
}

/// Something that changes a chart: a new sample, or a new DPI.
pub enum ChartEvent {
    AddPoint(i32),
    SetDpi(u32),
}

/// The state after one event.
pub open spec fn after(s: ChartState, e: ChartEvent) -> ChartState {
    match e {
        ChartEvent::AddPoint(value) => with_point(s, value),
        ChartEvent::SetDpi(dpi) => with_dpi(s, dpi),
    }
}

/// The state after each of `events` in turn.
pub open spec fn replay(s: ChartState, events: Seq<ChartEvent>) -> ChartState
    decreases events.len(),
{
    if events.len() == 0 {
        s
    } else {
        replay(after(s, events[0]), events.drop_first())
    }
}

/// How many of `events` are new samples.
pub open spec fn samples_in(events: Seq<ChartEvent>) -> nat
    decreases events.len(),
{
    if events.len() == 0 {
        0
    } else {
        (if events[0] is AddPoint {
            1nat
        } else {
            0nat
        }) + samples_in(events.drop_first())
    }
}

/// The state of a chart, with its history bounded and its size derived
/// from its DPI.
pub struct ChartSurface {
    points: RollingBuffer,
    width: u64,
    height: u64,
    dpi: u32,
    grid_offset: usize,
}

impl View for ChartSurface {
    type V = ChartState;

    closed spec fn view(&self) -> ChartState {
        ChartState { points: self.points@, dpi: self.dpi, grid_offset: self.grid_offset as nat }
    }
}

impl ChartSurface {
    /// The history fits the chart, the grid offset stays within one cell,
    /// and the pixel size is the one of the current DPI.
    pub closed spec fn wf(&self) -> bool {
        &&& self.points.wf()
        &&& self.points.spec_capacity() == MAX_POINTS
        &&& self.grid_offset < CELL_WIDTH_IN_SECONDS
        &&& (self.width as int, self.height as int) == size_at_dpi(self.dpi as int)
    }

    /// Creates an empty chart scaled for `dpi`.
    pub fn new(dpi: u32) -> (r: Self)
        ensures
            r.wf(),
            r@ == (ChartState { points: Seq::empty(), dpi, grid_offset: 0 }),
    {
        ChartSurface {
            points: RollingBuffer::new(MAX_POINTS),
            width: mul_div(UNSCALED_WIDTH, dpi, BASE_DPI),
            height: mul_div(UNSCALED_HEIGHT, dpi, BASE_DPI),
            dpi,
            grid_offset: 0,
        }
    }

    /// Records a new sample (hundredths of a percent) and scrolls the grid by
    /// one sample. Nothing is drawn until the next redraw.
    pub fn add_point(&mut self, value: i32)
        requires
            old(self).wf(),
        ensures
            final(self).wf(),
            final(self)@ == with_point(old(self)@, value),
    {
        self.points.push(value);
        self.grid_offset = (self.grid_offset + 1) % CELL_WIDTH_IN_SECONDS;
    }

    /// The chart's size in pixels: width, then height.
    pub fn size(&self) -> (r: (u64, u64))
        requires
            self.wf(),
        ensures
            (r.0 as int, r.1 as int) == size_at_dpi(self@.dpi as int),
    {
        (self.width, self.height)
    }

    /// Rescales the chart for `dpi`. The size is derived afresh from the
    /// logical size, so repeated changes never drift; the samples and the
    /// grid offset stay as they are.
    pub fn set_dpi(&mut self, dpi: u32)
        requires
            old(self).wf(),
        ensures
            final(self).wf(),
            final(self)@ == with_dpi(old(self)@, dpi),
    {
        self.dpi = dpi;
        self.width = mul_div(UNSCALED_WIDTH, dpi, BASE_DPI);
        self.height = mul_div(UNSCALED_HEIGHT, dpi, BASE_DPI);
    }

    /// The current DPI.
    pub fn dpi(&self) -> (r: u32)
        ensures
            r == self@.dpi,
    {
        self.dpi
    }

    /// How far the vertical gridlines have scrolled, in samples.
    pub fn grid_offset(&self) -> (r: usize)
        ensures
            r == self@.grid_offset,
    {
        self.grid_offset
    }

    /// The samples, oldest first.
    pub fn points(&self) -> (r: Vec<i32>)
        ensures
            r@ == self@.points,
    {
        self.points.to_vec()
    }

    /// Rebuilds from scratch everything a redraw paints: the outline of the
    /// samples, right-aligned, the gridlines, and the border.
    pub fn geometry(&self) -> (r: ChartGeometry)
        requires
            self.wf(),
        ensures
            (r.width as int, r.height as int) == size_at_dpi(self@.dpi as int),
            points_view(r.outline@) == outline(self@.points, r.width as int, r.height as int),
            r.rows@.len() == HORIZONTAL_BANDS - 1,
            forall|k: int| 0 <= k < r.rows@.len() ==> r.rows@[k] == row_y(k, r.height as int),
            r.columns@.len() == VERTICAL_LINES,
            forall|k: int|
                0 <= k < r.columns@.len() ==> r.columns@[k] == column_x(
                    k,
                    self@.grid_offset as int,
                    r.width as int,
                ),
    {
        let samples = self.points.to_vec();
        proof {
            self.points.lemma_len_within_capacity();
        }
        build_geometry(&samples, self.width, self.height, self.grid_offset)
    }
}

/// After any sequence of samples and DPI changes, the grid has scrolled by
/// the number of samples, modulo the cell width: DPI changes never reset it.
pub proof fn lemma_grid_offset_counts_samples(s: ChartState, events: Seq<ChartEvent>)
    requires
        s.grid_offset < CELL_WIDTH_IN_SECONDS,
    ensures
        replay(s, events).grid_offset == (s.grid_offset + samples_in(events)) as int % (
        CELL_WIDTH_IN_SECONDS as int),
    decreases events.len(),
{
    if events.len() > 0 {
        let s1 = after(s, events[0]);
        lemma_grid_offset_counts_samples(s1, events.drop_first());
        let c = CELL_WIDTH_IN_SECONDS as int;
        let k = samples_in(events.drop_first()) as int;
        let g = s.grid_offset as int;
        if events[0] is AddPoint {
            assert(((g + 1) % c + k) % c == (g + 1 + k) % c) by {
                vstd::arithmetic::div_mod::lemma_add_mod_noop(g + 1, k, c);
                vstd::arithmetic::div_mod::lemma_add_mod_noop((g + 1) % c, k, c);
                vstd::arithmetic::div_mod::lemma_mod_twice(g + 1, c);
            }
        }
    }
}

/// From a new chart, the grid offset after `K` samples, with DPI changes in
/// between or not, is `K mod CELL_WIDTH_IN_SECONDS`.
pub proof fn lemma_grid_offset_from_new(dpi: u32, events: Seq<ChartEvent>)
    ensures
        replay(ChartState { points: Seq::empty(), dpi, grid_offset: 0 }, events).grid_offset
            == samples_in(events) as int % (CELL_WIDTH_IN_SECONDS as int),
{
    lemma_grid_offset_counts_samples(
        ChartState { points: Seq::empty(), dpi, grid_offset: 0 },
        events,
    );
}

/// Right after a DPI change the chart's size is the logical size scaled to
/// that DPI and rounded, whatever the DPI was before, and the samples and
/// grid offset are kept.
pub proof fn lemma_set_dpi_size(s: ChartState, dpi: u32)
    ensures
        size_at_dpi(with_dpi(s, dpi).dpi as int) == (
            mul_div_spec(UNSCALED_WIDTH as int, dpi as int, 96),
            mul_div_spec(UNSCALED_HEIGHT as int, dpi as int, 96),
        ),
        with_dpi(s, dpi).points == s.points,
        with_dpi(s, dpi).grid_offset == s.grid_offset,
{
}

/// DPI changes never accumulate: after two of them the chart is as if only
/// the second had happened.
pub proof fn lemma_set_dpi_lossless(s: ChartState, first: u32, second: u32)
    ensures
        with_dpi(with_dpi(s, first), second) == with_dpi(s, second),
{
}

} // verus!
