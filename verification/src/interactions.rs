//! The interaction handles that the user places on an image: horizontal and
//! vertical lines, each under an identifier of its own. Positions are in
//! pixels of the image.
use vstd::prelude::*;
use crate::handle::{HandleInput, HandleStep, handle_step, step};

verus! {

/// The identifier of an interaction handle, unique within its collection.
#[derive(PartialEq, Eq, Structural, Clone, Copy, Debug)]
pub struct InteractionId(usize);

impl InteractionId {
    pub closed spec fn spec_id(self) -> usize {
        self.0
    }

    /// The identifier as a number.
    pub fn id(&self) -> (r: usize)
        ensures
            r == self.spec_id(),
    {
        self.0
    }
}

/// A horizontal line at a row of the image.
#[derive(PartialEq, Eq, Structural, Clone, Copy, Debug)]
pub struct HorizontalLine {
    pub height: i64,
    pub moving: bool,
}

/// A vertical line at a column of the image.
#[derive(PartialEq, Eq, Structural, Clone, Copy, Debug)]
pub struct VerticalLine {
    pub x_pos: i64,
    pub moving: bool,
}

impl HorizontalLine {
    /// A line at `height`, not being dragged.
    pub fn new(height: i64) -> (l: Self)
        ensures
            l == (HorizontalLine { height, moving: false }),
    {
        HorizontalLine { height, moving: false }
    }
}

impl VerticalLine {
    /// A line at `x_pos`, not being dragged.
    pub fn new(x_pos: i64) -> (l: Self)
        ensures
            l == (VerticalLine { x_pos, moving: false }),
    {
        VerticalLine { x_pos, moving: false }
    }
}

/// An interaction handle.
#[derive(PartialEq, Eq, Structural, Clone, Copy, Debug)]
pub enum Interaction {
    HorizontalLine(HorizontalLine),
    VerticalLine(VerticalLine),
}

impl Interaction {
    /// The position that the handle stores: the row of a horizontal line or
    /// the column of a vertical one.
    pub open spec fn spec_value(self) -> i64 {
        match self {
            Interaction::HorizontalLine(l) => l.height,
            Interaction::VerticalLine(l) => l.x_pos,
        }
    }

    /// The position that the handle stores.
    pub fn value(&self) -> (v: i64)
        ensures
            v == self.spec_value(),
    {
        match self {
            Interaction::HorizontalLine(l) => l.height,
            Interaction::VerticalLine(l) => l.x_pos,
        }
    }
}

/// `v` brought into `[min, max]`.
pub open spec fn clamp_spec(v: int, min: int, max: int) -> int {
    if v < min {
        min
    } else if v > max {
        max
    } else {
        v
    }
}

/// `v` brought into `[0, max]`.
pub fn clamp_to_extent(v: i64, max: u32) -> (r: i64)
    ensures
        r == clamp_spec(v as int, 0, max as int),
{
    if v < 0 {
        0
    } else if v > max as i64 {
        max as i64
    } else {
        v
    }
}

/// One frame of dragging an interaction handle: the handle steps as
/// `handle_step` says, and while it follows the mouse its position becomes
/// the mouse's pixel, row for a horizontal line and column for a vertical
/// one, brought into the image's extent.
pub open spec fn drag_spec(
    interaction: Interaction,
    input: HandleInput,
    mouse: (i64, i64),
    extent: (u32, u32),
) -> Interaction {
    match interaction {
        Interaction::HorizontalLine(l) => {
            let s = handle_step(l.moving, input);
            Interaction::HorizontalLine(
                HorizontalLine {
                    height: if s.follow_mouse {
                        clamp_spec(mouse.1 as int, 0, extent.1 as int) as i64
                    } else {
                        l.height
                    },
                    moving: s.moving,
                },
            )
        },
        Interaction::VerticalLine(l) => {
            let s = handle_step(l.moving, input);
            Interaction::VerticalLine(
                VerticalLine {
                    x_pos: if s.follow_mouse {
                        clamp_spec(mouse.0 as int, 0, extent.0 as int) as i64
                    } else {
                        l.x_pos
                    },
                    moving: s.moving,
                },
            )
        },
    }
}

/// The handle moved to position `v` (row of a horizontal line, column of a
/// vertical one), whether or not it is being dragged kept as it was.
pub open spec fn with_value(interaction: Interaction, v: i64) -> Interaction {
    match interaction {
        Interaction::HorizontalLine(l) => Interaction::HorizontalLine(
            HorizontalLine { height: v, moving: l.moving },
        ),
        Interaction::VerticalLine(l) => Interaction::VerticalLine(
            VerticalLine { x_pos: v, moving: l.moving },
        ),
    }
}

/// Whether the handle is being dragged.
pub open spec fn is_moving(interaction: Interaction) -> bool {
    match interaction {
        Interaction::HorizontalLine(l) => l.moving,
        Interaction::VerticalLine(l) => l.moving,
    }
}

/// The interaction handles of an image, in the order in which they were
/// placed.
pub struct Interactions {
    next_id: usize,
    entries: Vec<(InteractionId, Interaction)>,
}

impl Interactions {
    /// The handles with their identifiers, in the order in which they were
    /// placed.
    pub closed spec fn entries(&self) -> Seq<(InteractionId, Interaction)> {
        self.entries@
    }

    /// The identifier that the next handle placed will get.
    pub closed spec fn spec_next_id(&self) -> usize {
        self.next_id
    }

    /// Identifiers increase in the order of placement, and each is below the
    /// next one to be given out.
    #[verifier::type_invariant]
    pub closed spec fn well_formed(&self) -> bool {
        &&& forall|i: int, j: int|
            0 <= i < j < self.entries@.len() ==> (#[trigger] self.entries@[i]).0.spec_id()
                < (#[trigger] self.entries@[j]).0.spec_id()
        &&& forall|i: int|
            0 <= i < self.entries@.len() ==> (#[trigger] self.entries@[i]).0.spec_id()
                < self.next_id
    }

    /// Whether some handle has identifier `id`.
    pub open spec fn contains_id(&self, id: InteractionId) -> bool {
        exists|i: int| 0 <= i < self.entries().len() && (#[trigger] self.entries()[i]).0 == id
    }

    /// No handles.
    pub fn new() -> (r: Self)
        ensures
            r.entries() == Seq::<(InteractionId, Interaction)>::empty(),
            r.spec_next_id() == 0,
    {
        Interactions { next_id: 0, entries: Vec::new() }
    }

    /// The number of handles.
    pub fn len(&self) -> (n: usize)
        ensures
            n == self.entries().len(),
    {
        self.entries.len()
    }

    /// The identifier that the next handle placed will get.
    pub fn next_id(&self) -> (n: usize)
        ensures
            n == self.spec_next_id(),
    {
        self.next_id
    }

    /// Two handles at different positions of the collection have different
    /// identifiers.
    pub proof fn lemma_ids_unique(&self, i: int, j: int)
        requires
            0 <= i < self.entries().len(),
            0 <= j < self.entries().len(),
            i != j,
            self.well_formed(),
        ensures
            self.entries()[i].0 != self.entries()[j].0,
    {
        if i < j {
            assert(self.entries@[i].0.spec_id() < self.entries@[j].0.spec_id());
        } else {
            assert(self.entries@[j].0.spec_id() < self.entries@[i].0.spec_id());
        }
    }

    /// Every handle's identifier is below the one that the next handle will
    /// get.
    pub proof fn lemma_ids_below_next(&self)
        requires
            self.well_formed(),
        ensures
            forall|i: int|
                0 <= i < self.entries().len() ==> (#[trigger] self.entries()[i]).0.spec_id()
                    < self.spec_next_id(),
    {
    }

    /// Places a new handle after the others, under a fresh identifier, which
    /// is returned.
    pub fn insert(&mut self, interaction: Interaction) -> (id: InteractionId)
        requires
            old(self).spec_next_id() < usize::MAX,
        ensures
            id.spec_id() == old(self).spec_next_id(),
            !old(self).contains_id(id),
            final(self).entries() == old(self).entries().push((id, interaction)),
            final(self).spec_next_id() == old(self).spec_next_id() + 1,
    {
        proof {
            use_type_invariant(&*self);
            self.lemma_ids_below_next();
        }
        let id = InteractionId(self.next_id);
        let mut entries: Vec<(InteractionId, Interaction)> = Vec::new();
        std::mem::swap(&mut entries, &mut self.entries);
        entries.push((id, interaction));
        self.next_id = self.next_id + 1;
        self.entries = entries;
        id
    }

    /// The position in the collection of the handle with identifier `id`.
    fn find(&self, id: &InteractionId) -> (r: Option<usize>)
        ensures
            r matches Some(i) ==> i < self.entries().len() && self.entries()[i as int].0 == *id,
            r is None ==> !self.contains_id(*id),
    {
        let mut i: usize = 0;
        while i < self.entries.len()
            invariant
                i <= self.entries@.len(),
                forall|k: int| 0 <= k < i ==> (#[trigger] self.entries@[k]).0 != *id,
            decreases self.entries@.len() - i,
        {
            if self.entries[i].0.0 == id.0 {
                return Some(i);
            }
            i = i + 1;
        }
        None
    }

    /// Takes out the handle with identifier `id`, if there is one, and
    /// returns it; the others keep their order.
    pub fn remove(&mut self, id: &InteractionId) -> (r: Option<Interaction>)
        ensures
            final(self).spec_next_id() == old(self).spec_next_id(),
            !final(self).contains_id(*id),
            r is None <==> !old(self).contains_id(*id),
            r is None ==> final(self).entries() == old(self).entries(),
            r matches Some(x) ==> exists|i: int|
                0 <= i < old(self).entries().len() && (#[trigger] old(self).entries()[i]) == (*id, x)
                    && final(self).entries() == old(self).entries().remove(i),
    {
        proof {
            use_type_invariant(&*self);
        }
        match self.find(id) {
            None => None,
            Some(i) => {
                let ghost before = self.entries@;
                let mut entries: Vec<(InteractionId, Interaction)> = Vec::new();
                std::mem::swap(&mut entries, &mut self.entries);
                let (_, x) = entries.remove(i);
                proof {
                    assert forall|a: int, b: int| 0 <= a < b < entries@.len() implies (#[trigger] entries@[a]).0.spec_id()
                        < (#[trigger] entries@[b]).0.spec_id() by {
                        let a0 = if a < i { a } else { a + 1 };
                        let b0 = if b < i { b } else { b + 1 };
                        assert(entries@[a] == before[a0]);
                        assert(entries@[b] == before[b0]);
                    }
                    assert forall|a: int| 0 <= a < entries@.len() implies (#[trigger] entries@[a]).0.spec_id()
                        < self.next_id by {
                        let a0 = if a < i { a } else { a + 1 };
                        assert(entries@[a] == before[a0]);
                    }
                }
                self.entries = entries;
                proof {
                    assert(before[i as int] == (*id, x));
                    assert forall|k: int| 0 <= k < self.entries@.len() implies (#[trigger] self.entries@[k]).0
                        != *id by {
                        if k < i {
                            assert(self.entries@[k] == before[k]);
                            assert(before[k].0.spec_id() < before[i as int].0.spec_id());
                        } else {
                            assert(self.entries@[k] == before[k + 1]);
                            assert(before[i as int].0.spec_id() < before[k + 1].0.spec_id());
                        }
                    }
                }
                Some(x)
            },
        }
    }

    /// The handle at position `index`, with its identifier.
    pub fn get(&self, index: usize) -> (r: (InteractionId, Interaction))
        requires
            index < self.entries().len(),
        ensures
            r == self.entries()[index as int],
    {
        self.entries[index]
    }

    /// One frame of dragging the handle at position `index`, given the
    /// mouse's pixel (column, row) and the image's extent (width, height).
    /// Returns what the handle does in this frame.
    pub fn drag(&mut self, index: usize, input: HandleInput, mouse: (i64, i64), extent: (u32, u32)) -> (r: HandleStep)
        requires
            index < old(self).entries().len(),
        ensures
            r == handle_step(is_moving(old(self).entries()[index as int].1), input),
            final(self).spec_next_id() == old(self).spec_next_id(),
            final(self).entries() == old(self).entries().update(
                index as int,
                (
                    old(self).entries()[index as int].0,
                    drag_spec(old(self).entries()[index as int].1, input, mouse, extent),
                ),
            ),
    {
        proof {
            use_type_invariant(&*self);
        }
        let (id, interaction) = self.entries[index];
        let (updated, s) = match interaction {
            Interaction::HorizontalLine(l) => {
                let s = step(l.moving, input);
                let height = if s.follow_mouse {
                    clamp_to_extent(mouse.1, extent.1)
                } else {
                    l.height
                };
                (Interaction::HorizontalLine(HorizontalLine { height, moving: s.moving }), s)
            },
            Interaction::VerticalLine(l) => {
                let s = step(l.moving, input);
                let x_pos = if s.follow_mouse {
                    clamp_to_extent(mouse.0, extent.0)
                } else {
                    l.x_pos
                };
                (Interaction::VerticalLine(VerticalLine { x_pos, moving: s.moving }), s)
            },
        };
        let ghost before = self.entries@;
        let mut entries: Vec<(InteractionId, Interaction)> = Vec::new();
        std::mem::swap(&mut entries, &mut self.entries);
        entries.set(index, (id, updated));
        proof {
            assert forall|a: int, b: int| 0 <= a < b < entries@.len() implies (#[trigger] entries@[a]).0.spec_id()
                < (#[trigger] entries@[b]).0.spec_id() by {
                assert(entries@[a].0 == before[a].0);
                assert(entries@[b].0 == before[b].0);
            }
            assert forall|a: int| 0 <= a < entries@.len() implies (#[trigger] entries@[a]).0.spec_id()
                < self.next_id by {
                assert(entries@[a].0 == before[a].0);
            }
        }
        self.entries = entries;
        s
    }

    /// Moves the handle at position `index` to `v`: the row of a horizontal
    /// line or the column of a vertical one. Any value is taken as it is.
    pub fn set_value(&mut self, index: usize, v: i64)
        requires
            index < old(self).entries().len(),
        ensures
            final(self).spec_next_id() == old(self).spec_next_id(),
            final(self).entries() == old(self).entries().update(
                index as int,
                (old(self).entries()[index as int].0, with_value(old(self).entries()[index as int].1, v)),
            ),
    {
        proof {
            use_type_invariant(&*self);
        }
        let (id, interaction) = self.entries[index];
        let updated = match interaction {
            Interaction::HorizontalLine(l) => Interaction::HorizontalLine(
                HorizontalLine { height: v, moving: l.moving },
            ),
            Interaction::VerticalLine(l) => Interaction::VerticalLine(
                VerticalLine { x_pos: v, moving: l.moving },
            ),
        };
        let ghost before = self.entries@;
        let mut entries: Vec<(InteractionId, Interaction)> = Vec::new();
        std::mem::swap(&mut entries, &mut self.entries);
        entries.set(index, (id, updated));
        proof {
            assert forall|a: int, b: int| 0 <= a < b < entries@.len() implies (#[trigger] entries@[a]).0.spec_id()
                < (#[trigger] entries@[b]).0.spec_id() by {
                assert(entries@[a].0 == before[a].0);
                assert(entries@[b].0 == before[b].0);
            }
            assert forall|a: int| 0 <= a < entries@.len() implies (#[trigger] entries@[a]).0.spec_id()
                < self.next_id by {
                assert(entries@[a].0 == before[a].0);
            }
        }
        self.entries = entries;
    }

    /// The position stored by each handle, with its identifier, in the order
    /// of the collection.
    pub fn values(&self) -> (r: Vec<(InteractionId, i64)>)
        ensures
            r@.len() == self.entries().len(),
            forall|i: int|
                0 <= i < r@.len() ==> #[trigger] r@[i] == (
                    self.entries()[i].0,
                    self.entries()[i].1.spec_value(),
                ),
    {
        let mut r: Vec<(InteractionId, i64)> = Vec::new();
        let mut i: usize = 0;
        while i < self.entries.len()
            invariant
                i <= self.entries@.len(),
                r@.len() == i,
                forall|k: int|
                    0 <= k < i ==> #[trigger] r@[k] == (
                        self.entries@[k].0,
                        self.entries@[k].1.spec_value(),
                    ),
            decreases self.entries@.len() - i,
        {
            let (id, interaction) = self.entries[i];
            r.push((id, interaction.value()));
            i = i + 1;
        }
        r
    }
}

/// Removing the handle that was just placed gives back the handles as they
/// were before it was placed.
pub proof fn lemma_remove_undoes_insert(
    before: Interactions,
    after: Interactions,
    id: InteractionId,
    x: Interaction,
    i: int,
)
    requires
        !before.contains_id(id),
        after.entries() == before.entries().push((id, x)),
        0 <= i < after.entries().len(),
        after.entries()[i] == (id, x),
    ensures
        i == before.entries().len(),
        after.entries().remove(i) == before.entries(),
{
    if i < before.entries().len() {
        assert(before.entries()[i] == after.entries()[i]);
        assert(before.contains_id(id));
    }
    assert(after.entries().remove(i) =~= before.entries());
}


/// Whether a handle is grabbed during a frame: it was being dragged, or the
/// left button went down on it while the mouse was over it.
pub open spec fn grabbed_in_frame(was_moving: bool, input: HandleInput) -> bool {
    was_moving || (input.hovered && input.left_clicked)
}

/// Dragging a vertical line: it stays a vertical line; it is still being
/// dragged after the frame exactly when it was grabbed and the left button
/// is still held; a line that is not grabbed keeps its column; a grabbed line
/// takes the mouse's column when that lies within the image's width, and the
/// nearest edge of the width otherwise. Neither the mouse's row nor the
/// image's height matter.
pub proof fn lemma_drag_vertical_line(
    l: VerticalLine,
    input: HandleInput,
    mouse: (i64, i64),
    extent: (u32, u32),
    other_row: i64,
    other_height: u32,
)
    ensures
        ({
            let r = drag_spec(Interaction::VerticalLine(l), input, mouse, extent);
            let g = grabbed_in_frame(l.moving, input);
            &&& r is VerticalLine
            &&& is_moving(r) == (g && input.left_down)
            &&& !g ==> r.spec_value() == l.x_pos
            &&& g && 0 <= mouse.0 <= extent.0 ==> r.spec_value() == mouse.0
            &&& g && mouse.0 < 0 ==> r.spec_value() == 0
            &&& g && mouse.0 > extent.0 ==> r.spec_value() == extent.0
            &&& r == drag_spec(
                Interaction::VerticalLine(l),
                input,
                (mouse.0, other_row),
                (extent.0, other_height),
            )
        }),
{
}

/// Dragging a horizontal line: it stays a horizontal line; it is still
/// being dragged after the frame exactly when it was grabbed and the left
/// button is still held; a line that is not grabbed keeps its row; a grabbed
/// line takes the mouse's row when that lies within the image's height, and
/// the nearest edge of the height otherwise. Neither the mouse's column nor
/// the image's width matter.
pub proof fn lemma_drag_horizontal_line(
    l: HorizontalLine,
    input: HandleInput,
    mouse: (i64, i64),
    extent: (u32, u32),
    other_column: i64,
    other_width: u32,
)
    ensures
        ({
            let r = drag_spec(Interaction::HorizontalLine(l), input, mouse, extent);
            let g = grabbed_in_frame(l.moving, input);
            &&& r is HorizontalLine
            &&& is_moving(r) == (g && input.left_down)
            &&& !g ==> r.spec_value() == l.height
            &&& g && 0 <= mouse.1 <= extent.1 ==> r.spec_value() == mouse.1
            &&& g && mouse.1 < 0 ==> r.spec_value() == 0
            &&& g && mouse.1 > extent.1 ==> r.spec_value() == extent.1
            &&& r == drag_spec(
                Interaction::HorizontalLine(l),
                input,
                (other_column, mouse.1),
                (other_width, extent.1),
            )
        }),
{
}

/// The dragging flag that a handle keeps after a frame is the one its step
/// reports, and the handle follows the mouse in the frame exactly when it is
/// grabbed; in particular, once the left button is up the handle is let go.
pub proof fn lemma_drag_flag_matches_step(
    interaction: Interaction,
    input: HandleInput,
    mouse: (i64, i64),
    extent: (u32, u32),
)
    ensures
        is_moving(drag_spec(interaction, input, mouse, extent)) == handle_step(
            is_moving(interaction),
            input,
        ).moving,
        handle_step(is_moving(interaction), input).follow_mouse == grabbed_in_frame(
            is_moving(interaction),
            input,
        ),
        !input.left_down ==> !is_moving(drag_spec(interaction, input, mouse, extent)),
{
}

} // verus!
