//! The state of a 2D image view with its color bar: whether the histogram is
//! drawn on a log scale, and whether the handles that set the lower and upper
//! limits of the color map are being dragged.
use vstd::prelude::*;
use crate::handle::{HandleInput, HandleStep, handle_step, step};

verus! {

/// The number of intervals between the ticks of an image axis.
pub const TICK_COUNT: u32 = 10;

/// The state of a 2D image view.
pub struct State {
    hist_logscale: bool,
    lut_min_moving: bool,
    lut_max_moving: bool,
}

impl State {
    /// Whether the histogram uses a log scale.
    pub closed spec fn spec_hist_logscale(&self) -> bool {
        self.hist_logscale
    }

    /// Whether the handle of the lower limit of the color map is being
    /// dragged.
    pub closed spec fn spec_lut_min_moving(&self) -> bool {
        self.lut_min_moving
    }

    /// Whether the handle of the upper limit of the color map is being
    /// dragged.
    pub closed spec fn spec_lut_max_moving(&self) -> bool {
        self.lut_max_moving
    }

    /// Whether the histogram uses a log scale.
    pub fn hist_logscale(&self) -> (r: bool)
        ensures
            r == self.spec_hist_logscale(),
    {
        self.hist_logscale
    }

    /// Chooses whether the histogram uses a log scale.
    pub fn set_hist_logscale(&mut self, logscale: bool)
        ensures
            final(self).spec_hist_logscale() == logscale,
            final(self).spec_lut_min_moving() == old(self).spec_lut_min_moving(),
            final(self).spec_lut_max_moving() == old(self).spec_lut_max_moving(),
    {
        self.hist_logscale = logscale;
    }

    /// Whether the handle of the lower limit of the color map is being
    /// dragged.
    pub fn lut_min_moving(&self) -> (r: bool)
        ensures
            r == self.spec_lut_min_moving(),
    {
        self.lut_min_moving
    }

    /// Whether the handle of the upper limit of the color map is being
    /// dragged.
    pub fn lut_max_moving(&self) -> (r: bool)
        ensures
            r == self.spec_lut_max_moving(),
    {
        self.lut_max_moving
    }

    /// One frame of the two handles of the color bar, given what the mouse
    /// did to each. Returns what each handle does, lower limit first; while a
    /// handle follows the mouse, its limit is set from the mouse's height.
    pub fn drag_lut_limits(&mut self, min_handle: HandleInput, max_handle: HandleInput) -> (r: (
        HandleStep,
        HandleStep,
    ))
        ensures
            r.0 == handle_step(old(self).spec_lut_min_moving(), min_handle),
            r.1 == handle_step(old(self).spec_lut_max_moving(), max_handle),
            final(self).spec_lut_min_moving() == r.0.moving,
            final(self).spec_lut_max_moving() == r.1.moving,
            final(self).spec_hist_logscale() == old(self).spec_hist_logscale(),
    {
        let min_step = step(self.lut_min_moving, min_handle);
        self.lut_min_moving = min_step.moving;
        let max_step = step(self.lut_max_moving, max_handle);
        self.lut_max_moving = max_step.moving;
        (min_step, max_step)
    }
}

impl Default for State {
    /// A log-scaled histogram, and no handle being dragged.
    fn default() -> (s: Self)
        ensures
            s.spec_hist_logscale(),
            !s.spec_lut_min_moving(),
            !s.spec_lut_max_moving(),
    {
        State { hist_logscale: true, lut_min_moving: false, lut_max_moving: false }
    }
}

/// The label of tick `i` of an axis that spans `extent` pixels.
pub open spec fn tick_label(i: int, extent: int) -> int {
    i * extent / (TICK_COUNT as int)
}

/// The labels of the ticks of an image axis that spans `extent` pixels:
/// `TICK_COUNT + 1` ticks, evenly spaced from 0 to `extent`, each labelled
/// with its pixel position rounded down.
pub fn axis_tick_labels(extent: u32) -> (r: Vec<u32>)
    requires
        extent <= u32::MAX / TICK_COUNT,
    ensures
        r@.len() == TICK_COUNT + 1,
        forall|i: int| 0 <= i <= TICK_COUNT ==> #[trigger] r@[i] == tick_label(i, extent as int),
{
    let mut r: Vec<u32> = Vec::new();
    let mut i: u32 = 0;
    while i <= TICK_COUNT
        invariant
            i <= TICK_COUNT + 1,
            extent <= u32::MAX / TICK_COUNT,
            r@.len() == i,
            forall|k: int| 0 <= k < i ==> #[trigger] r@[k] == tick_label(k, extent as int),
        decreases TICK_COUNT + 1 - i,
    {
        assert(i * extent <= TICK_COUNT * extent) by (nonlinear_arith)
            requires
                i <= TICK_COUNT,
        ;
        assert(TICK_COUNT * extent <= u32::MAX) by (nonlinear_arith)
            requires
                extent <= u32::MAX / TICK_COUNT,
        ;
        r.push(i * extent / TICK_COUNT);
        i = i + 1;
    }
    r
}

/// The tick labels run from 0 to the axis's extent and never decrease.
pub proof fn lemma_tick_labels_span(extent: nat)
    ensures
        tick_label(0, extent as int) == 0,
        tick_label(TICK_COUNT as int, extent as int) == extent,
        forall|i: int, j: int|
            0 <= i <= j ==> #[trigger] tick_label(i, extent as int) <= #[trigger] tick_label(
                j,
                extent as int,
            ),
{
    assert forall|i: int, j: int| 0 <= i <= j implies #[trigger] tick_label(i, extent as int)
        <= #[trigger] tick_label(j, extent as int) by {
        assert(i * extent <= j * extent) by (nonlinear_arith)
            requires
                0 <= i <= j,
        ;
        vstd::arithmetic::div_mod::lemma_div_is_ordered(i * extent, j * extent, 10);
    }
    assert(TICK_COUNT * extent / 10 == extent) by (nonlinear_arith);
}

/// Whatever the mouse does, when the left button is up neither handle of
/// the color bar is being dragged after the frame.
pub proof fn lemma_release_stops_both(
    before: State,
    after: State,
    min_handle: HandleInput,
    max_handle: HandleInput,
)
    requires
        !min_handle.left_down,
        !max_handle.left_down,
        after.spec_lut_min_moving() == handle_step(before.spec_lut_min_moving(), min_handle).moving,
        after.spec_lut_max_moving() == handle_step(before.spec_lut_max_moving(), max_handle).moving,
    ensures
        !after.spec_lut_min_moving(),
        !after.spec_lut_max_moving(),
{
}


/// Each tick label is the tick's pixel position rounded down: ten times the
/// label is at most `i * extent`, and ten times the next integer exceeds it.
pub proof fn lemma_tick_label_rounds_down(i: nat, extent: nat)
    ensures
        tick_label(i as int, extent as int) * (TICK_COUNT as int) <= i * extent,
        i * extent < (tick_label(i as int, extent as int) + 1) * (TICK_COUNT as int),
{
    let p = i * extent;
    vstd::arithmetic::div_mod::lemma_fundamental_div_mod(p as int, 10);
    assert(0 <= p % 10 < 10);
}

} // verus!
