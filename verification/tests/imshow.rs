use aflak::handle::HandleInput;
use aflak::imshow::{hovered_pixel, State};
use aflak::interactions::{HorizontalLine, Interaction, Interactions, VerticalLine};
use aflak::text::Measurement;

fn grab() -> HandleInput {
    HandleInput { hovered: true, left_clicked: true, right_clicked: false, left_down: true }
}

fn idle() -> HandleInput {
    HandleInput { hovered: false, left_clicked: false, right_clicked: false, left_down: false }
}

fn held() -> HandleInput {
    HandleInput { hovered: false, left_clicked: false, right_clicked: false, left_down: true }
}

fn m(v: &str, unit: &'static str) -> Measurement<'static> {
    Measurement { v: v.to_string(), unit }
}

#[test]
fn default_state_has_no_interaction() {
    let s = State::default();
    assert!(s.hist_logscale());
    assert!(!s.lut_min_moving());
    assert!(!s.lut_max_moving());
    assert!(s.stored_values().is_empty());
}

#[test]
fn lines_get_fresh_identifiers_in_order() {
    let mut s = State::default();
    let a = s.add_horizontal_line(12);
    let b = s.add_vertical_line(-3);
    assert_eq!(a.id(), 0);
    assert_eq!(b.id(), 1);
    assert_eq!(s.stored_values(), vec![(a, 12), (b, -3)]);
}

#[test]
fn removing_the_last_line_placed_restores_the_lines() {
    let mut s = State::default();
    let a = s.add_horizontal_line(5);
    let before = s.stored_values();
    let b = s.add_vertical_line(9);
    assert_eq!(
        s.remove_interaction(&b),
        Some(Interaction::VerticalLine(VerticalLine { x_pos: 9, moving: false }))
    );
    assert_eq!(s.stored_values(), before);
    assert_eq!(s.remove_interaction(&b), None);
    assert_eq!(s.remove_interaction(&a), Some(Interaction::HorizontalLine(HorizontalLine { height: 5, moving: false })));
    assert!(s.stored_values().is_empty());
    let c = s.add_horizontal_line(1);
    assert_eq!(c.id(), 2);
}

#[test]
fn removing_a_middle_line_keeps_the_order() {
    let mut s = State::default();
    let a = s.add_horizontal_line(1);
    let b = s.add_horizontal_line(2);
    let c = s.add_vertical_line(3);
    assert!(s.remove_interaction(&b).is_some());
    assert_eq!(s.stored_values(), vec![(a, 1), (c, 3)]);
}

#[test]
fn dragged_horizontal_line_follows_the_row_within_the_image() {
    let mut s = State::default();
    s.add_horizontal_line(10);
    let r = s.drag_interaction(0, grab(), (4, 500), (64, 100));
    assert!(r.follow_mouse && r.moving);
    assert_eq!(s.stored_values()[0].1, 100);
    let r = s.drag_interaction(0, held(), (4, 42), (64, 100));
    assert!(r.follow_mouse);
    assert_eq!(s.stored_values()[0].1, 42);
    let r = s.drag_interaction(0, idle(), (4, -7), (64, 100));
    assert!(r.follow_mouse && !r.moving);
    assert_eq!(s.stored_values()[0].1, 0);
    let r = s.drag_interaction(0, held(), (4, 80), (64, 100));
    assert!(!r.follow_mouse);
    assert_eq!(s.stored_values()[0].1, 0);
}

#[test]
fn dragged_vertical_line_follows_the_column() {
    let mut s = State::default();
    s.add_vertical_line(3);
    s.drag_interaction(0, grab(), (70, 5), (64, 100));
    assert_eq!(s.stored_values()[0].1, 64);
    s.drag_interaction(0, held(), (-1, 5), (64, 100));
    assert_eq!(s.stored_values()[0].1, 0);
    s.drag_interaction(0, held(), (33, 5), (64, 100));
    assert_eq!(s.stored_values()[0].1, 33);
}

#[test]
fn idle_line_does_not_move() {
    let mut s = State::default();
    s.add_vertical_line(3);
    let hovered = HandleInput { hovered: true, left_clicked: false, right_clicked: true, left_down: false };
    let r = s.drag_interaction(0, hovered, (20, 20), (64, 100));
    assert!(r.open_menu);
    assert!(!r.follow_mouse);
    assert_eq!(s.stored_values()[0].1, 3);
}

#[test]
fn interactions_can_be_changed_in_place() {
    let mut s = State::default();
    let id = s.add_horizontal_line(8);
    let inter: &mut Interactions = s.stored_values_mut();
    assert_eq!(inter.len(), 1);
    inter.drag(0, grab(), (0, 20), (10, 10));
    assert_eq!(inter.get(0), (id, Interaction::HorizontalLine(HorizontalLine { height: 10, moving: true })));
    assert_eq!(s.stored_values(), vec![(id, 10)]);
}

#[test]
fn hovered_pixel_counts_rows_from_the_top() {
    assert_eq!(hovered_pixel(2, 0, 4, 3), Some((3, 2)));
    assert_eq!(hovered_pixel(0, 3, 4, 3), Some((0, 0)));
    assert_eq!(hovered_pixel(3, 1, 4, 3), None);
    assert_eq!(hovered_pixel(1, 4, 4, 3), None);
    assert_eq!(hovered_pixel(0, 0, 0, 0), None);
}

#[test]
fn tooltip_with_pixel_coordinates_only() {
    let s = State::default();
    let t = s.make_tooltip((12, 305), None, None, m("1.50", ""));
    assert_eq!(t, "(X, Y): (12, 305)\nVAL:    1.50");
}

#[test]
fn tooltip_with_measured_axes_and_units() {
    let s = State::default();
    let t = s.make_tooltip(
        (1000, 7),
        Some(m("3.25", "deg")),
        Some(m("-0.50", "")),
        m("12.00", "Jy"),
    );
    assert_eq!(t, "(X, Y): (3.25 deg, -0.50) [at point (1000, 7)]\nVAL:    12.00 Jy");
}

#[test]
fn tooltip_with_one_measured_axis() {
    let s = State::default();
    let t = s.make_tooltip((0, 10), None, Some(m("2.00", "m")), m("0.00", ""));
    assert_eq!(t, "(X, Y): (0, 2.00 m) [at point (0, 10)]\nVAL:    0.00");
}

#[test]
fn positions_can_be_set_to_any_value() {
    let mut s = State::default();
    let a = s.add_horizontal_line(4);
    let b = s.add_vertical_line(6);
    let inter = s.stored_values_mut();
    inter.set_value(0, -25);
    inter.set_value(1, 1_000_000);
    assert_eq!(inter.get(0), (a, Interaction::HorizontalLine(HorizontalLine { height: -25, moving: false })));
    assert_eq!(inter.get(1), (b, Interaction::VerticalLine(VerticalLine { x_pos: 1_000_000, moving: false })));
    assert_eq!(s.stored_values(), vec![(a, -25), (b, 1_000_000)]);
}
