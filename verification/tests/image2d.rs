use aflak::handle::HandleInput;
use aflak::histogram::max_count;
use aflak::image2d::{axis_tick_labels, State};

fn idle() -> HandleInput {
    HandleInput { hovered: false, left_clicked: false, right_clicked: false, left_down: false }
}

#[test]
fn default_state() {
    let s = State::default();
    assert!(s.hist_logscale());
    assert!(!s.lut_min_moving());
    assert!(!s.lut_max_moving());
}

#[test]
fn log_scale_can_be_switched_off() {
    let mut s = State::default();
    s.set_hist_logscale(false);
    assert!(!s.hist_logscale());
}

#[test]
fn color_bar_handles_move_independently() {
    let mut s = State::default();
    let grab = HandleInput { hovered: true, left_clicked: true, right_clicked: false, left_down: true };
    let (min, max) = s.drag_lut_limits(grab, idle());
    assert!(min.follow_mouse && min.moving);
    assert!(!max.follow_mouse && !max.moving);
    assert!(s.lut_min_moving());
    assert!(!s.lut_max_moving());
    let held = HandleInput { hovered: false, left_clicked: false, right_clicked: false, left_down: true };
    let (min, _) = s.drag_lut_limits(held, held);
    assert!(min.follow_mouse);
    assert!(s.lut_min_moving());
    let (min, max) = s.drag_lut_limits(idle(), idle());
    assert!(min.follow_mouse);
    assert!(!max.follow_mouse);
    assert!(!s.lut_min_moving());
    assert!(!s.lut_max_moving());
}

#[test]
fn tick_labels_of_a_512_pixel_axis() {
    assert_eq!(
        axis_tick_labels(512),
        vec![0, 51, 102, 153, 204, 256, 307, 358, 409, 460, 512]
    );
}

#[test]
fn tick_labels_of_a_short_axis() {
    assert_eq!(axis_tick_labels(7), vec![0, 0, 1, 2, 2, 3, 4, 4, 5, 6, 7]);
    assert_eq!(axis_tick_labels(0), vec![0; 11]);
}

#[test]
fn max_count_of_bins() {
    assert_eq!(max_count(&vec![]), None);
    assert_eq!(max_count(&vec![3, 9, 2, 9, 0]), Some(9));
    assert_eq!(max_count(&vec![0]), Some(0));
}
