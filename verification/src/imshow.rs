//! The state of the visualization of a 2D image: the color bar's handles,
//! the histogram's scale, and the interaction handles placed on the image.
use vstd::prelude::*;
use crate::handle::{HandleInput, HandleStep, handle_step, step};
use crate::interactions::{
    drag_spec, is_moving, HorizontalLine, Interaction, InteractionId, Interactions, VerticalLine,
};
use crate::text::{push_coordinate, push_decimal, push_measurement, tooltip_text, Measurement};

verus! {

/// Current state of the visualization of a 2D image.
pub struct State {
    hist_logscale: bool,
    lut_min_moving: bool,
    lut_max_moving: bool,
    interactions: Interactions,
}

impl State {
    /// Whether the histogram uses a log scale.
    pub closed spec fn spec_hist_logscale(&self) -> bool {
        self.hist_logscale
    }

    /// Whether the handle of the lower limit of the color map is being
    /// dragged.
    pub closed spec fn spec_lut_min_moving(&self) -> bool {
        self.lut_min_moving
    }

    /// Whether the handle of the upper limit of the color map is being
    /// dragged.
    pub closed spec fn spec_lut_max_moving(&self) -> bool {
        self.lut_max_moving
    }

    /// The interaction handles placed on the image.
    pub closed spec fn spec_interactions(&self) -> Interactions {
        self.interactions
    }

    /// Whether the histogram uses a log scale.
    pub fn hist_logscale(&self) -> (r: bool)
        ensures
            r == self.spec_hist_logscale(),
    {
        self.hist_logscale
    }

    /// Chooses whether the histogram uses a log scale.
    pub fn set_hist_logscale(&mut self, logscale: bool)
        ensures
            final(self).spec_hist_logscale() == logscale,
            final(self).spec_lut_min_moving() == old(self).spec_lut_min_moving(),
            final(self).spec_lut_max_moving() == old(self).spec_lut_max_moving(),
            final(self).spec_interactions() == old(self).spec_interactions(),
    {
        self.hist_logscale = logscale;
    }

    /// Whether the handle of the lower limit of the color map is being
    /// dragged.
    pub fn lut_min_moving(&self) -> (r: bool)
        ensures
            r == self.spec_lut_min_moving(),
    {
        self.lut_min_moving
    }

    /// Whether the handle of the upper limit of the color map is being
    /// dragged.
    pub fn lut_max_moving(&self) -> (r: bool)
        ensures
            r == self.spec_lut_max_moving(),
    {
        self.lut_max_moving
    }

    /// The position stored by each interaction handle, with its identifier,
    /// in the order in which the handles were placed.
    pub fn stored_values(&self) -> (r: Vec<(InteractionId, i64)>)
        ensures
            r@.len() == self.spec_interactions().entries().len(),
            forall|i: int|
                0 <= i < r@.len() ==> #[trigger] r@[i] == (
                    self.spec_interactions().entries()[i].0,
                    self.spec_interactions().entries()[i].1.spec_value(),
                ),
    {
        self.interactions.values()
    }

    /// The interaction handles, to be changed in place.
    pub fn stored_values_mut(&mut self) -> (r: &mut Interactions)
        ensures
            *r == old(self).spec_interactions(),
            final(self).spec_interactions() == *final(r),
            final(self).spec_hist_logscale() == old(self).spec_hist_logscale(),
            final(self).spec_lut_min_moving() == old(self).spec_lut_min_moving(),
            final(self).spec_lut_max_moving() == old(self).spec_lut_max_moving(),
    {
        &mut self.interactions
    }

    /// One frame of the two handles of the color bar, given what the mouse
    /// did to each. Returns what each handle does, lower limit first; while a
    /// handle follows the mouse, its limit is set from the mouse's height.
    pub fn drag_lut_limits(&mut self, min_handle: HandleInput, max_handle: HandleInput) -> (r: (
        HandleStep,
        HandleStep,
    ))
        ensures
            r.0 == handle_step(old(self).spec_lut_min_moving(), min_handle),
            r.1 == handle_step(old(self).spec_lut_max_moving(), max_handle),
            final(self).spec_lut_min_moving() == r.0.moving,
            final(self).spec_lut_max_moving() == r.1.moving,
            final(self).spec_hist_logscale() == old(self).spec_hist_logscale(),
            final(self).spec_interactions() == old(self).spec_interactions(),
    {
        let min_step = step(self.lut_min_moving, min_handle);
        self.lut_min_moving = min_step.moving;
        let max_step = step(self.lut_max_moving, max_handle);
        self.lut_max_moving = max_step.moving;
        (min_step, max_step)
    }

    /// Places a horizontal line at row `height` (the mouse's row, rounded),
    /// after the other handles; returns its identifier.
    pub fn add_horizontal_line(&mut self, height: i64) -> (id: InteractionId)
        requires
            old(self).spec_interactions().spec_next_id() < usize::MAX,
        ensures
            id.spec_id() == old(self).spec_interactions().spec_next_id(),
            !old(self).spec_interactions().contains_id(id),
            final(self).spec_interactions().entries() == old(self).spec_interactions().entries().push(
                (id, Interaction::HorizontalLine(HorizontalLine { height, moving: false })),
            ),
            final(self).spec_interactions().spec_next_id() == old(self).spec_interactions().spec_next_id() + 1,
            final(self).spec_hist_logscale() == old(self).spec_hist_logscale(),
            final(self).spec_lut_min_moving() == old(self).spec_lut_min_moving(),
            final(self).spec_lut_max_moving() == old(self).spec_lut_max_moving(),
    {
        let new = Interaction::HorizontalLine(HorizontalLine::new(height));
        self.interactions.insert(new)
    }

    /// Places a vertical line at column `x_pos` (the mouse's column,
    /// rounded), after the other handles; returns its identifier.
    pub fn add_vertical_line(&mut self, x_pos: i64) -> (id: InteractionId)
        requires
            old(self).spec_interactions().spec_next_id() < usize::MAX,
        ensures
            id.spec_id() == old(self).spec_interactions().spec_next_id(),
            !old(self).spec_interactions().contains_id(id),
            final(self).spec_interactions().entries() == old(self).spec_interactions().entries().push(
                (id, Interaction::VerticalLine(VerticalLine { x_pos, moving: false })),
            ),
            final(self).spec_interactions().spec_next_id() == old(self).spec_interactions().spec_next_id() + 1,
            final(self).spec_hist_logscale() == old(self).spec_hist_logscale(),
            final(self).spec_lut_min_moving() == old(self).spec_lut_min_moving(),
            final(self).spec_lut_max_moving() == old(self).spec_lut_max_moving(),
    {
        let new = Interaction::VerticalLine(VerticalLine::new(x_pos));
        self.interactions.insert(new)
    }

    /// One frame of the interaction handle at position `index`, given what
    /// the mouse did to it, the mouse's pixel (column, row), rounded, and the
    /// image's extent (width, height) in pixels. Returns what the handle
    /// does; see `drag_spec` for its new position.
    pub fn drag_interaction(
        &mut self,
        index: usize,
        input: HandleInput,
        mouse: (i64, i64),
        extent: (u32, u32),
    ) -> (r: HandleStep)
        requires
            index < old(self).spec_interactions().entries().len(),
        ensures
            r == handle_step(is_moving(old(self).spec_interactions().entries()[index as int].1), input),
            final(self).spec_interactions().spec_next_id() == old(self).spec_interactions().spec_next_id(),
            final(self).spec_interactions().entries() == old(self).spec_interactions().entries().update(
                index as int,
                (
                    old(self).spec_interactions().entries()[index as int].0,
                    drag_spec(
                        old(self).spec_interactions().entries()[index as int].1,
                        input,
                        mouse,
                        extent,
                    ),
                ),
            ),
            final(self).spec_hist_logscale() == old(self).spec_hist_logscale(),
            final(self).spec_lut_min_moving() == old(self).spec_lut_min_moving(),
            final(self).spec_lut_max_moving() == old(self).spec_lut_max_moving(),
    {
        self.interactions.drag(index, input, mouse, extent)
    }

    /// Deletes the interaction handle with identifier `id`, if there is one,
    /// and returns it; the other handles keep their order.
    pub fn remove_interaction(&mut self, id: &InteractionId) -> (r: Option<Interaction>)
        ensures
            final(self).spec_interactions().spec_next_id() == old(self).spec_interactions().spec_next_id(),
            !final(self).spec_interactions().contains_id(*id),
            r is None <==> !old(self).spec_interactions().contains_id(*id),
            r is None ==> final(self).spec_interactions().entries() == old(self).spec_interactions().entries(),
            r matches Some(x) ==> exists|i: int|
                0 <= i < old(self).spec_interactions().entries().len()
                    && (#[trigger] old(self).spec_interactions().entries()[i]) == (*id, x)
                    && final(self).spec_interactions().entries()
                    == old(self).spec_interactions().entries().remove(i),
            final(self).spec_hist_logscale() == old(self).spec_hist_logscale(),
            final(self).spec_lut_min_moving() == old(self).spec_lut_min_moving(),
            final(self).spec_lut_max_moving() == old(self).spec_lut_max_moving(),
    {
        self.interactions.remove(id)
    }

    /// The tooltip of the pixel at `point` (column, row), as `tooltip_text`
    /// says: its coordinates, measured on the axes where `x` or `y` is given,
    /// and its value `val`.
    pub fn make_tooltip(
        &self,
        point: (usize, usize),
        x: Option<Measurement<'_>>,
        y: Option<Measurement<'_>>,
        val: Measurement<'_>,
    ) -> (s: String)
        ensures
            s@ == tooltip_text(point.0, point.1, x, y, val),
    {
        let (x_p, y_p) = point;
        let mut s = String::new();
        s.append("(X, Y): (");
        push_coordinate(&mut s, x_p, &x);
        s.append(", ");
        push_coordinate(&mut s, y_p, &y);
        s.append(")");
        if x.is_some() || y.is_some() {
            s.append(" [at point (");
            push_decimal(&mut s, x_p);
            s.append(", ");
            push_decimal(&mut s, y_p);
            s.append(")]\n");
        } else {
            s.append("\n");
        }
        s.append("VAL:    ");
        push_measurement(&mut s, &val);
        assert(s@ =~= tooltip_text(x_p, y_p, x, y, val));
        s
    }
}

impl Default for State {
    /// A log-scaled histogram, no handle being dragged, and no interaction
    /// handle placed.
    fn default() -> (s: Self)
        ensures
            s.spec_hist_logscale(),
            !s.spec_lut_min_moving(),
            !s.spec_lut_max_moving(),
            s.spec_interactions().entries() == Seq::<(InteractionId, Interaction)>::empty(),
            s.spec_interactions().spec_next_id() == 0,
    {
        State {
            hist_logscale: true,
            lut_min_moving: false,
            lut_max_moving: false,
            interactions: Interactions::new(),
        }
    }
}

/// The pixel of an image of `rows` rows and `cols` columns that lies under
/// the mouse at (`x`, `y`), counted in pixels from the image's lower left
/// corner, as an index (row, column) with rows counted from the top; `None`
/// where the mouse is outside the image.
pub open spec fn hovered_pixel_spec(x: usize, y: usize, rows: usize, cols: usize) -> Option<
    (usize, usize),
> {
    if y < rows && x < cols {
        Some(((rows - 1 - y) as usize, x))
    } else {
        None
    }
}

/// The pixel under the mouse, as `hovered_pixel_spec` says.
pub fn hovered_pixel(x: usize, y: usize, rows: usize, cols: usize) -> (r: Option<(usize, usize)>)
    ensures
        r == hovered_pixel_spec(x, y, rows, cols),
{
    if y < rows {
        let index = (rows - 1 - y, x);
        if index.1 < cols {
            Some(index)
        } else {
            None
        }
    } else {
        None
    }
}

/// The pixel under the mouse lies within the image, and the mouse's row is
/// got back from the pixel's row: rows are counted from the top in the image
/// and from the bottom on the screen.
pub proof fn lemma_hovered_pixel_in_image(x: usize, y: usize, rows: usize, cols: usize)
    requires
        hovered_pixel_spec(x, y, rows, cols) is Some,
    ensures
        ({
            let (r, c) = hovered_pixel_spec(x, y, rows, cols)->0;
            &&& r < rows
            &&& c < cols
            &&& c == x
            &&& rows - 1 - r == y
        }),
{
}

/// While an interaction handle follows the mouse, its position stays within
/// the image, whatever the mouse's position.
pub proof fn lemma_drag_stays_in_image(
    interaction: Interaction,
    input: HandleInput,
    mouse: (i64, i64),
    extent: (u32, u32),
)
    requires
        handle_step(is_moving(interaction), input).follow_mouse,
    ensures
        ({
            let v = drag_spec(interaction, input, mouse, extent).spec_value();
            &&& 0 <= v
            &&& match interaction {
                Interaction::HorizontalLine(_) => v <= extent.1,
                Interaction::VerticalLine(_) => v <= extent.0,
            }
        }),
{
}

/// A handle that is not being dragged and is not clicked while hovered stays
/// where it is.
pub proof fn lemma_idle_handle_unchanged(
    interaction: Interaction,
    input: HandleInput,
    mouse: (i64, i64),
    extent: (u32, u32),
)
    requires
        !is_moving(interaction),
        !(input.hovered && input.left_clicked),
    ensures
        drag_spec(interaction, input, mouse, extent) == interaction,
{
}


/// Whenever the mouse is over the image, there is a pixel under it: the
/// one in the mouse's column, at the mouse's row counted from the top. Off
/// the image there is none.
pub proof fn lemma_hovered_pixel_exact(x: usize, y: usize, rows: usize, cols: usize)
    ensures
        y < rows && x < cols ==> hovered_pixel_spec(x, y, rows, cols) == Some(
            ((rows - 1 - y) as usize, x),
        ),
        !(y < rows && x < cols) ==> hovered_pixel_spec(x, y, rows, cols) is None,
{
}

/// Every pixel (row `r`, column `c`) of the image is under the mouse at
/// column `c` and height `rows - 1 - r`.
pub proof fn lemma_every_pixel_reachable(r: usize, c: usize, rows: usize, cols: usize)
    requires
        r < rows,
        c < cols,
    ensures
        hovered_pixel_spec(c, (rows - 1 - r) as usize, rows, cols) == Some((r, c)),
{
}

} // verus!
