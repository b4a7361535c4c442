//! A draggable handle: a small region of the screen that the user grabs with
//! the left mouse button and drags while the button is held.
use vstd::prelude::*;

verus! {

/// What the mouse did to a handle during one frame.
#[derive(PartialEq, Eq, Structural, Clone, Copy, Debug)]
pub struct HandleInput {
    /// The mouse is over the handle.
    pub hovered: bool,
    /// The left button went down during this frame.
    pub left_clicked: bool,
    /// The right button went down during this frame.
    pub right_clicked: bool,
    /// The left button is held at the end of this frame.
    pub left_down: bool,
}

/// What a handle does in one frame.
#[derive(PartialEq, Eq, Structural, Clone, Copy, Debug)]
pub struct HandleStep {
    /// Whether the handle is being dragged at the end of the frame.
    pub moving: bool,
    /// The handle follows the mouse during this frame.
    pub follow_mouse: bool,
    /// The handle's context menu opens during this frame.
    pub open_menu: bool,
}

/// One frame of a handle: a left click on the hovered handle grabs it, a
/// grabbed handle follows the mouse, and the handle is let go as soon as the
/// left button is up. A right click on the hovered handle opens its menu.
pub open spec fn handle_step(moving: bool, input: HandleInput) -> HandleStep {
    let grabbed = moving || (input.hovered && input.left_clicked);
    HandleStep {
        moving: grabbed && input.left_down,
        follow_mouse: grabbed,
        open_menu: input.hovered && input.right_clicked,
    }
}

/// One frame of a handle that was being dragged (`moving`) or not.
pub fn step(moving: bool, input: HandleInput) -> (r: HandleStep)
    ensures
        r == handle_step(moving, input),
{
    let mut moving = moving;
    if input.hovered && input.left_clicked {
        moving = true;
    }
    let follow_mouse = moving;
    if !input.left_down {
        moving = false;
    }
    HandleStep { moving, follow_mouse, open_menu: input.hovered && input.right_clicked }
}

/// A handle is never being dragged once the left button is up.
pub proof fn lemma_release_stops(moving: bool, input: HandleInput)
    requires
        !input.left_down,
    ensures
        !handle_step(moving, input).moving,
{
}

/// A handle that is not being dragged, and is not clicked while hovered,
/// stays where it is and is still not being dragged.
pub proof fn lemma_idle_stays_idle(input: HandleInput)
    requires
        !(input.hovered && input.left_clicked),
    ensures
        !handle_step(false, input).moving,
        !handle_step(false, input).follow_mouse,
{
}

/// A handle that is being dragged keeps following the mouse, wherever the
/// mouse is, and stays grabbed for as long as the left button is held.
pub proof fn lemma_drag_continues(input: HandleInput)
    ensures
        handle_step(true, input).follow_mouse,
        handle_step(true, input).moving == input.left_down,
{
}

/// A left click on the hovered handle, with the button still held, grabs it.
pub proof fn lemma_click_grabs(moving: bool, input: HandleInput)
    requires
        input.hovered,
        input.left_clicked,
        input.left_down,
    ensures
        handle_step(moving, input).moving,
        handle_step(moving, input).follow_mouse,
{
}


/// The menu opens exactly on a right click over the handle, whether or not
/// the handle is being dragged and whatever the left button does.
pub proof fn lemma_menu_on_right_click(moving: bool, input: HandleInput)
    ensures
        handle_step(moving, input).open_menu <==> (input.hovered && input.right_clicked),
        handle_step(moving, input).open_menu == handle_step(
            !moving,
            HandleInput { left_clicked: !input.left_clicked, left_down: !input.left_down, ..input },
        ).open_menu,
{
}

} // verus!
