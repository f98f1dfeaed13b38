use prtools::annotation::Selection;
use prtools::color::Rgba;
use prtools::geom::{Dims, Flip, Point};
use prtools::render::{RenderOp, Shape};
use prtools::state::AppState;

fn view() -> Dims {
    Dims { w: 200, h: 100 }
}

fn fresh() -> AppState {
    AppState::new(Dims { w: 400, h: 200 }, "png".to_string(), Rgba::red())
}

#[test]
fn the_base_image_is_drawn_first_under_the_live_stack() {
    let mut s = fresh();
    s.apply_flip(Flip::Vertical);
    let plan: Vec<RenderOp> = s.render_plan();
    assert_eq!(plan.len(), 1);
    assert_eq!(plan[0].shape, Shape::Image);
    assert_eq!(plan[0].transforms, vec![Flip::Vertical]);
}

#[test]
fn annotations_replay_the_live_stack_and_then_their_snapshot() {
    let mut s = fresh();
    s.apply_flip(Flip::Vertical);
    s.pointer_down(Point { x: 1, y: 1 }, None);
    s.pointer_up(Point { x: 1, y: 1 }, view());
    s.apply_flip(Flip::Horizontal);
    let plan = s.render_plan();
    assert_eq!(plan.len(), 2);
    // The base image sees the whole live stack.
    assert_eq!(plan[0].transforms, vec![Flip::Vertical, Flip::Horizontal]);
    // The stroke, authored between the flips, is drawn under the live
    // stack again and then its own creation-time snapshot.
    assert_eq!(plan[1].transforms, vec![Flip::Vertical, Flip::Horizontal, Flip::Vertical]);
}

#[test]
fn a_single_point_stroke_renders_as_a_dot() {
    let mut s = fresh();
    s.pointer_down(Point { x: 10, y: 10 }, None);
    s.pointer_up(Point { x: 10, y: 10 }, view());
    let plan = s.render_plan();
    assert_eq!(plan.len(), 2);
    assert_eq!(
        plan[1].shape,
        Shape::PenDot { center: Point { x: 10, y: 10 }, color: Rgba::red(), width: 2 }
    );
}

#[test]
fn a_stroke_renders_one_line_per_consecutive_point_pair() {
    let mut s = fresh();
    s.pointer_down(Point { x: 0, y: 0 }, None);
    s.pointer_move(Point { x: 10, y: 0 });
    s.pointer_move(Point { x: 10, y: 10 });
    s.pointer_up(Point { x: 10, y: 10 }, view());
    let plan = s.render_plan();
    assert_eq!(plan.len(), 3);
    assert_eq!(
        plan[1].shape,
        Shape::PenLine {
            from: Point { x: 0, y: 0 },
            to: Point { x: 10, y: 0 },
            color: Rgba::red(),
            width: 2,
        }
    );
    assert_eq!(
        plan[2].shape,
        Shape::PenLine {
            from: Point { x: 10, y: 0 },
            to: Point { x: 10, y: 10 },
            color: Rgba::red(),
            width: 2,
        }
    );
}

#[test]
fn a_single_point_highlighter_renders_as_a_wide_dot() {
    let mut s = fresh();
    s.set_selection(Selection::Highlighter);
    s.pointer_down(Point { x: 4, y: 5 }, None);
    s.pointer_up(Point { x: 4, y: 5 }, view());
    let plan = s.render_plan();
    assert_eq!(
        plan[1].shape,
        Shape::HighlightDot { center: Point { x: 4, y: 5 }, color: Rgba::red(), width: 2 }
    );
}

#[test]
fn the_crop_overlay_is_drawn_untransformed_only_while_armed() {
    let mut s = fresh();
    s.apply_flip(Flip::Vertical);
    s.set_selection(Selection::Crop);
    s.pointer_down(Point { x: 10, y: 10 }, Some(Dims { w: 400, h: 200 }));
    s.pointer_move(Point { x: 50, y: 60 });
    let plan = s.render_plan();
    assert_eq!(plan.len(), 2);
    assert_eq!(
        plan[1].shape,
        Shape::CropOverlay { start: Point { x: 10, y: 10 }, end: Point { x: 50, y: 60 } }
    );
    assert!(plan[1].transforms.is_empty());
}

#[test]
fn annotations_render_oldest_first() {
    let mut s = fresh();
    s.pointer_down(Point { x: 1, y: 1 }, None);
    s.pointer_up(Point { x: 1, y: 1 }, view());
    s.set_selection(Selection::Rectangle);
    s.pointer_down(Point { x: 2, y: 2 }, None);
    s.pointer_up(Point { x: 8, y: 8 }, view());
    let plan = s.render_plan();
    assert_eq!(plan.len(), 3);
    assert!(matches!(plan[0].shape, Shape::Image));
    assert!(matches!(plan[1].shape, Shape::PenDot { .. }));
    assert!(matches!(plan[2].shape, Shape::Rect { .. }));
}

#[test]
fn shapes_render_with_their_style_and_fill() {
    let mut s = fresh();
    s.set_color(Rgba::blue());
    s.set_stroke(3);
    s.toggle_fill();
    s.set_selection(Selection::Circle);
    s.pointer_down(Point { x: 10, y: 10 }, None);
    s.pointer_up(Point { x: 13, y: 14 }, view());
    s.set_selection(Selection::Ellipse);
    s.pointer_down(Point { x: 0, y: 0 }, None);
    s.pointer_up(Point { x: 6, y: 3 }, view());
    s.set_selection(Selection::Arrow);
    s.pointer_down(Point { x: 1, y: 1 }, None);
    s.pointer_up(Point { x: 9, y: 1 }, view());
    let plan = s.render_plan();
    assert_eq!(plan.len(), 4);
    assert_eq!(
        plan[1].shape,
        Shape::Circle {
            center: Point { x: 10, y: 10 },
            radius_sq: 25,
            color: Rgba::blue(),
            filled: true,
            width: 3,
        }
    );
    assert_eq!(
        plan[2].shape,
        Shape::Ellipse {
            corner1: Point { x: 0, y: 0 },
            corner2: Point { x: 6, y: 3 },
            color: Rgba::blue(),
            filled: true,
            width: 3,
        }
    );
    assert_eq!(
        plan[3].shape,
        Shape::Arrow {
            start: Point { x: 1, y: 1 },
            end: Point { x: 9, y: 1 },
            color: Rgba::blue(),
            width: 3,
        }
    );
}

#[test]
fn a_highlighter_drag_renders_highlight_lines() {
    let mut s = fresh();
    s.set_selection(Selection::Highlighter);
    s.pointer_down(Point { x: 0, y: 0 }, None);
    s.pointer_move(Point { x: 5, y: 5 });
    s.pointer_up(Point { x: 5, y: 5 }, view());
    let plan = s.render_plan();
    assert_eq!(plan.len(), 2);
    assert_eq!(
        plan[1].shape,
        Shape::HighlightLine {
            from: Point { x: 0, y: 0 },
            to: Point { x: 5, y: 5 },
            color: Rgba::red(),
            width: 2,
        }
    );
}

#[test]
fn text_renders_its_content_and_font_size() {
    let mut s = fresh();
    s.set_font_size(32);
    s.set_selection(Selection::Text);
    s.pointer_down(Point { x: 3, y: 4 }, None);
    s.key_down(prtools::events::Key::Char('o'));
    s.key_down(prtools::events::Key::Char('k'));
    let plan = s.render_plan();
    assert_eq!(
        plan[1].shape,
        Shape::Text {
            position: Point { x: 3, y: 4 },
            content: vec!['o', 'k'],
            color: Rgba::red(),
            font_size: 32,
        }
    );
}
