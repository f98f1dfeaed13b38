use prtools::color::{hex_label, Rgba};
use prtools::formats::{has_alpha, is_supported_extension};
use prtools::Args;

#[test]
fn only_the_five_image_formats_are_accepted() {
    for good in ["png", "jpeg", "jpg", "tiff", "bmp"] {
        assert!(is_supported_extension(&good.to_string()), "{} should open", good);
    }
    for bad in ["gif", "webp", "txt", "", "PNG", "jpeg "] {
        assert!(!is_supported_extension(&bad.to_string()), "{} should be turned away", bad);
    }
}

#[test]
fn alpha_is_kept_for_png_tiff_and_bmp_only() {
    assert!(has_alpha(&"png".to_string()));
    assert!(has_alpha(&"tiff".to_string()));
    assert!(has_alpha(&"bmp".to_string()));
    assert!(!has_alpha(&"jpg".to_string()));
    assert!(!has_alpha(&"jpeg".to_string()));
}

#[test]
fn hex_labels_are_uppercase_rgb() {
    let label: Vec<char> = hex_label(Rgba { r: 255, g: 10, b: 0, a: 255 });
    assert_eq!(label, vec!['#', 'F', 'F', '0', 'A', '0', '0']);
    let label: Vec<char> = hex_label(Rgba { r: 0x1a, g: 0x2b, b: 0x3c, a: 0 });
    assert_eq!(label, vec!['#', '1', 'A', '2', 'B', '3', 'C']);
}

#[test]
fn the_palette_matches_the_menu_colors() {
    assert_eq!(Rgba::red(), Rgba { r: 255, g: 0, b: 0, a: 255 });
    assert_eq!(Rgba::green(), Rgba { r: 0, g: 128, b: 0, a: 255 });
    assert_eq!(Rgba::black(), Rgba { r: 0, g: 0, b: 0, a: 255 });
    assert_eq!(Rgba::white(), Rgba { r: 255, g: 255, b: 255, a: 255 });
    assert_eq!(Rgba::aqua(), Rgba { r: 0, g: 255, b: 255, a: 255 });
    assert_eq!(Rgba::blue(), Rgba { r: 0, g: 0, b: 255, a: 255 });
    assert_eq!(Rgba::fuchsia(), Rgba { r: 255, g: 0, b: 255, a: 255 });
    assert_eq!(Rgba::gray(), Rgba { r: 128, g: 128, b: 128, a: 255 });
    assert_eq!(Rgba::maroon(), Rgba { r: 128, g: 0, b: 0, a: 255 });
    assert_eq!(Rgba::yellow(), Rgba { r: 255, g: 255, b: 0, a: 255 });
    assert_eq!(Rgba::silver(), Rgba { r: 192, g: 192, b: 192, a: 255 });
}

#[test]
fn args_carry_the_image_path() {
    let args = Args { path: "shot.png".to_string() };
    assert_eq!(args.path, "shot.png");
}
