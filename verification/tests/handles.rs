use aflak::handle::{step, HandleInput, HandleStep};

fn input(hovered: bool, left_clicked: bool, right_clicked: bool, left_down: bool) -> HandleInput {
    HandleInput { hovered, left_clicked, right_clicked, left_down }
}

#[test]
fn click_on_hovered_handle_grabs_it() {
    let s = step(false, input(true, true, false, true));
    assert_eq!(s, HandleStep { moving: true, follow_mouse: true, open_menu: false });
}

#[test]
fn click_and_release_in_one_frame_follows_once() {
    let s = step(false, input(true, true, false, false));
    assert_eq!(s, HandleStep { moving: false, follow_mouse: true, open_menu: false });
}

#[test]
fn release_stops_a_drag() {
    let s = step(true, input(false, false, false, false));
    assert_eq!(s, HandleStep { moving: false, follow_mouse: true, open_menu: false });
}

#[test]
fn drag_continues_away_from_the_handle() {
    let s = step(true, input(false, false, false, true));
    assert_eq!(s, HandleStep { moving: true, follow_mouse: true, open_menu: false });
}

#[test]
fn hovering_alone_does_nothing() {
    let s = step(false, input(true, false, false, true));
    assert_eq!(s, HandleStep { moving: false, follow_mouse: false, open_menu: false });
}

#[test]
fn click_elsewhere_does_not_grab() {
    let s = step(false, input(false, true, false, true));
    assert_eq!(s, HandleStep { moving: false, follow_mouse: false, open_menu: false });
}

#[test]
fn right_click_on_hovered_handle_opens_menu() {
    let s = step(false, input(true, false, true, false));
    assert_eq!(s, HandleStep { moving: false, follow_mouse: false, open_menu: true });
    let s = step(false, input(false, false, true, false));
    assert!(!s.open_menu);
}
