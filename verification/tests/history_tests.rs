use prtools::annotation::{Action, Selection};
use prtools::color::Rgba;
use prtools::geom::{Dims, Point};
use prtools::state::AppState;

fn fresh() -> AppState {
    AppState::new(Dims { w: 400, h: 200 }, "png".to_string(), Rgba::red())
}

fn draw_stroke(s: &mut AppState, x: i64, y: i64) {
    s.pointer_down(Point { x, y }, None);
    s.pointer_move(Point { x: x + 5, y: y + 5 });
    s.pointer_up(Point { x: x + 5, y: y + 5 }, Dims { w: 200, h: 100 });
}

#[test]
fn creations_then_equal_undos_reverse_onto_redo_stack() {
    let mut s = fresh();
    draw_stroke(&mut s, 0, 0);
    draw_stroke(&mut s, 10, 10);
    draw_stroke(&mut s, 20, 20);
    let recorded = s.actions.clone();
    assert_eq!(recorded.len(), 3);
    s.undo();
    s.undo();
    s.undo();
    assert!(s.actions.is_empty());
    assert_eq!(s.redo_actions.len(), 3);
    // Newest first: the redo stack holds the undone annotations in reverse.
    assert_eq!(s.redo_actions[0], recorded[2]);
    assert_eq!(s.redo_actions[1], recorded[1]);
    assert_eq!(s.redo_actions[2], recorded[0]);
}

#[test]
fn redo_after_undo_restores_the_exact_annotation() {
    let mut s = fresh();
    s.set_color(Rgba::blue());
    s.set_stroke(5);
    s.apply_flip(prtools::geom::Flip::Vertical);
    draw_stroke(&mut s, 30, 40);
    let before = s.actions.clone();
    s.undo();
    assert!(s.actions.is_empty());
    s.redo();
    assert_eq!(s.actions, before);
}

#[test]
fn undo_on_empty_stack_is_a_no_op() {
    let mut s = fresh();
    s.undo();
    assert!(s.actions.is_empty());
    assert!(s.redo_actions.is_empty());
}

#[test]
fn redo_on_empty_stack_is_a_no_op() {
    let mut s = fresh();
    s.redo();
    assert!(s.actions.is_empty());
    assert!(s.redo_actions.is_empty());
}

#[test]
fn a_new_annotation_clears_the_redo_stack() {
    let mut s = fresh();
    draw_stroke(&mut s, 0, 0);
    s.undo();
    assert_eq!(s.redo_actions.len(), 1);
    draw_stroke(&mut s, 50, 50);
    assert!(s.redo_actions.is_empty());
    assert_eq!(s.actions.len(), 1);
}

#[test]
fn undo_redo_enabled_follow_the_stacks() {
    let mut s = fresh();
    assert!(!s.undo_enabled());
    assert!(!s.redo_enabled());
    draw_stroke(&mut s, 0, 0);
    assert!(s.undo_enabled());
    assert!(!s.redo_enabled());
    s.undo();
    assert!(!s.undo_enabled());
    assert!(s.redo_enabled());
}

#[test]
fn undo_labels_name_the_top_annotation_kind() {
    let mut s = fresh();
    assert_eq!(s.undo_label(), "Undo");
    assert_eq!(s.redo_label(), "Redo");
    draw_stroke(&mut s, 0, 0);
    assert_eq!(s.undo_label(), "Undo Pen");
    s.set_selection(Selection::Rectangle);
    draw_stroke(&mut s, 10, 10);
    assert_eq!(s.undo_label(), "Undo Rectangle");
    s.undo();
    assert_eq!(s.redo_label(), "Redo Rectangle");
    assert_eq!(s.undo_label(), "Undo Pen");
}

#[test]
fn a_pending_crop_has_no_label_of_its_own() {
    let mut s = fresh();
    s.set_selection(Selection::Crop);
    s.pointer_down(Point { x: 0, y: 0 }, Some(Dims { w: 400, h: 200 }));
    assert!(matches!(s.actions[0], Action::Crop { .. }));
    assert_eq!(s.undo_label(), "Undo");
}
