use prtools::annotation::{Action, Selection};
use prtools::color::Rgba;
use prtools::coords::{crop_rect, PixelRect};
use prtools::events::UpEffect;
use prtools::geom::{Dims, Point};
use prtools::state::AppState;

fn view() -> Dims {
    Dims { w: 200, h: 100 }
}

fn capture() -> Dims {
    Dims { w: 400, h: 200 }
}

fn fresh() -> AppState {
    AppState::new(capture(), "png".to_string(), Rgba::red())
}

#[test]
fn crop_drag_maps_proportionally_floor_origin_ceil_extent() {
    // A 200x100 viewport over a 400x200 capture: dragging (50,25) to
    // (100,75) must cut the pixel rectangle from (100,50) to (200,150).
    let r = crop_rect(
        capture(),
        view(),
        Point { x: 50, y: 25 },
        Point { x: 100, y: 75 },
    );
    assert_eq!(r, Some(PixelRect { x: 100, y: 50, w: 100, h: 100 }));
}

#[test]
fn crop_commit_rebases_image_clears_history_and_resets_the_tool() {
    let mut s = fresh();
    s.pointer_down(Point { x: 0, y: 0 }, None);
    s.pointer_up(Point { x: 5, y: 5 }, view());
    s.pointer_down(Point { x: 9, y: 9 }, None);
    s.pointer_up(Point { x: 12, y: 12 }, view());
    s.undo();
    assert_eq!(s.actions.len(), 1);
    assert_eq!(s.redo_actions.len(), 1);
    s.set_selection(Selection::Crop);
    assert!(s.crop_active);
    s.pointer_down(Point { x: 50, y: 25 }, Some(capture()));
    s.pointer_move(Point { x: 80, y: 60 });
    let eff = s.pointer_up(Point { x: 100, y: 75 }, view());
    assert_eq!(eff, UpEffect::CropCommitted(PixelRect { x: 100, y: 50, w: 100, h: 100 }));
    // Both stacks are cleared unconditionally, even though both were
    // non-empty, and the tool falls back to the pen.
    assert!(s.actions.is_empty());
    assert!(s.redo_actions.is_empty());
    assert_eq!(s.selection, Selection::Pen);
    assert!(!s.crop_active);
    assert_eq!(s.image, Dims { w: 100, h: 100 });
}

#[test]
fn zero_area_crop_is_rejected_and_leaves_everything_alone() {
    let mut s = fresh();
    s.pointer_down(Point { x: 0, y: 0 }, None);
    s.pointer_up(Point { x: 5, y: 5 }, view());
    let kept = s.actions.clone();
    s.set_selection(Selection::Crop);
    s.pointer_down(Point { x: 30, y: 30 }, Some(capture()));
    let eff = s.pointer_up(Point { x: 30, y: 30 }, view());
    assert_eq!(eff, UpEffect::CropRejected);
    // The pending crop annotation is discarded; image, history and redo
    // stack are untouched.
    assert_eq!(s.actions, kept);
    assert_eq!(s.image, capture());
}

#[test]
fn backwards_crop_drag_is_rejected() {
    let mut s = fresh();
    s.set_selection(Selection::Crop);
    s.pointer_down(Point { x: 60, y: 60 }, Some(capture()));
    let eff = s.pointer_up(Point { x: 10, y: 10 }, view());
    assert_eq!(eff, UpEffect::CropRejected);
    assert!(s.actions.is_empty());
    assert_eq!(s.image, capture());
}

#[test]
fn crop_without_a_capture_is_rejected() {
    let mut s = fresh();
    s.set_selection(Selection::Crop);
    s.pointer_down(Point { x: 10, y: 10 }, None);
    let eff = s.pointer_up(Point { x: 50, y: 50 }, view());
    assert_eq!(eff, UpEffect::CropRejected);
}

#[test]
fn crop_rectangle_is_clipped_to_the_capture() {
    // Dragging past the right edge: the pixel extent stops at the capture.
    let r = crop_rect(
        capture(),
        view(),
        Point { x: 150, y: 50 },
        Point { x: 260, y: 90 },
    );
    assert_eq!(r, Some(PixelRect { x: 300, y: 100, w: 100, h: 80 }));
}

#[test]
fn crop_starting_off_canvas_is_rejected() {
    let r = crop_rect(capture(), view(), Point { x: -5, y: 10 }, Point { x: 50, y: 50 });
    assert_eq!(r, None);
}

#[test]
fn crop_records_the_capture_dimensions_and_drag() {
    let mut s = fresh();
    s.set_selection(Selection::Crop);
    s.pointer_down(Point { x: 10, y: 10 }, Some(Dims { w: 640, h: 480 }));
    s.pointer_move(Point { x: 40, y: 50 });
    assert_eq!(
        s.actions[0],
        Action::Crop {
            pre_image: Dims { w: 640, h: 480 },
            start: Point { x: 10, y: 10 },
            end: Point { x: 40, y: 50 },
        }
    );
}
