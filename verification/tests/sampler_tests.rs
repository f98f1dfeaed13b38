use prtools::color::Rgba;
use prtools::coords::sample_point;
use prtools::events::UpEffect;
use prtools::geom::{Dims, Point};
use prtools::state::AppState;

fn image() -> Dims {
    Dims { w: 400, h: 200 }
}

fn view() -> Dims {
    Dims { w: 200, h: 100 }
}

#[test]
fn sampling_rescales_proportionally_with_floor() {
    // floor(400 * 50 / 200) = 100, floor(200 * 25 / 100) = 50
    assert_eq!(sample_point(image(), view(), Point { x: 50, y: 25 }), (100, 50));
    // floor(400 * 99 / 200) = 198, floor(200 * 99 / 100) = 198
    assert_eq!(sample_point(image(), view(), Point { x: 99, y: 99 }), (198, 198));
    // An odd rescale truly floors: floor(3 * 1 / 2) = 1.
    assert_eq!(
        sample_point(Dims { w: 3, h: 3 }, Dims { w: 2, h: 2 }, Point { x: 1, y: 1 }),
        (1, 1)
    );
}

#[test]
fn sampling_clamps_to_the_image_bounds() {
    // A click left of or above the canvas clamps to pixel zero.
    assert_eq!(sample_point(image(), view(), Point { x: -30, y: -1 }), (0, 0));
    // A click at or past the far edge clamps to the last pixel.
    assert_eq!(sample_point(image(), view(), Point { x: 200, y: 100 }), (399, 199));
    assert_eq!(sample_point(image(), view(), Point { x: 5000, y: 5000 }), (399, 199));
}

#[test]
fn color_pick_resolves_on_release_without_drawing() {
    let mut s = AppState::new(image(), "png".to_string(), Rgba::red());
    s.start_color_pick();
    assert!(s.is_picking_color);
    // While picking, presses and moves create nothing.
    s.pointer_down(Point { x: 10, y: 10 }, None);
    s.pointer_move(Point { x: 20, y: 20 });
    assert!(s.actions.is_empty());
    // The release only disarms picking and asks the host for the sample.
    let eff = s.pointer_up(Point { x: 20, y: 20 }, view());
    assert_eq!(eff, UpEffect::SampleRequested);
    assert!(!s.is_picking_color);
    assert!(s.actions.is_empty());
    // The host reads the pixel and hands the color back.
    s.set_sampled_color(Rgba::rgba(1, 2, 3, 4));
    assert_eq!(s.color, Rgba::rgba(1, 2, 3, 4));
    assert!(s.custom_color);
}

#[test]
fn palette_choice_clears_the_custom_mark() {
    let mut s = AppState::new(image(), "png".to_string(), Rgba::red());
    s.set_sampled_color(Rgba::rgba(9, 9, 9, 255));
    assert!(s.custom_color);
    s.set_color(Rgba::blue());
    assert!(!s.custom_color);
    assert_eq!(s.color, Rgba { r: 0, g: 0, b: 255, a: 255 });
}
