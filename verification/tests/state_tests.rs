use prtools::annotation::Selection;
use prtools::color::Rgba;
use prtools::geom::{Dims, Point};
use prtools::state::AppState;

fn fresh() -> AppState {
    AppState::new(Dims { w: 400, h: 200 }, "jpg".to_string(), Rgba::red())
}

#[test]
fn a_fresh_editor_has_the_documented_defaults() {
    let s = fresh();
    assert_eq!(s.selection, Selection::Pen);
    assert!(s.transforms.is_empty());
    assert_eq!(s.image, Dims { w: 400, h: 200 });
    assert_eq!(s.extension, "jpg");
    assert!(s.actions.is_empty());
    assert!(s.redo_actions.is_empty());
    assert!(!s.is_drawing);
    assert!(!s.is_writing_text);
    assert!(!s.is_picking_color);
    assert_eq!(s.color, Rgba::red());
    assert!(!s.custom_color);
    assert!(!s.fill_color);
    assert_eq!(s.stroke, 2);
    assert_eq!(s.font_size, 24);
    assert!(!s.crop_active);
    assert!(!s.repaint);
    assert!(!s.save_requested);
}

#[test]
fn a_save_request_is_always_cleared_after_the_attempt() {
    let mut s = fresh();
    s.request_save();
    assert!(s.save_requested);
    assert!(s.repaint);
    // The host clears the request whether its capture and write succeeded
    // or failed, so a failing save cannot loop forever.
    s.clear_save_request();
    assert!(!s.save_requested);
}

#[test]
fn take_repaint_hands_the_mark_over_once() {
    let mut s = fresh();
    s.undo();
    assert!(s.take_repaint());
    assert!(!s.take_repaint());
}

#[test]
fn pointer_moves_outside_a_drag_draw_nothing() {
    let mut s = fresh();
    s.pointer_move(Point { x: 10, y: 10 });
    assert!(s.actions.is_empty());
    s.pointer_up(Point { x: 10, y: 10 }, Dims { w: 200, h: 100 });
    assert!(s.actions.is_empty());
}

#[test]
fn selecting_the_crop_tool_arms_the_overlay() {
    let mut s = fresh();
    s.set_selection(Selection::Crop);
    assert_eq!(s.selection, Selection::Crop);
    assert!(s.crop_active);
    assert!(s.repaint);
}

#[test]
fn style_setters_round_trip() {
    let mut s = fresh();
    s.set_stroke(5);
    s.set_font_size(72);
    s.toggle_fill();
    assert_eq!(s.stroke, 5);
    assert_eq!(s.font_size, 72);
    assert!(s.fill_color);
    s.toggle_fill();
    assert!(!s.fill_color);
}
