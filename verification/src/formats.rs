//! The image file formats the tool accepts, and which of them carry an
//! alpha channel: the two gating decisions made before and during painting.

use vstd::prelude::*;

verus! {

/// The lower-case extensions of the formats the tool opens.
pub open spec fn supported_extension_spec(ext: Seq<char>) -> bool {
    ||| ext == "png"@
    ||| ext == "jpeg"@
    ||| ext == "jpg"@
    ||| ext == "tiff"@
    ||| ext == "bmp"@
}

/// Whether a file with this lower-case extension can be opened; anything
/// else is turned away before the editor starts.
pub fn is_supported_extension(ext: &String) -> (r: bool)
    ensures
        r == supported_extension_spec(ext@),
{
    ext.eq(&"png".to_owned()) || ext.eq(&"jpeg".to_owned()) || ext.eq(&"jpg".to_owned())
        || ext.eq(&"tiff".to_owned()) || ext.eq(&"bmp".to_owned())
}

/// The formats whose pixels keep an alpha channel through the editor.
pub open spec fn alpha_extension_spec(ext: Seq<char>) -> bool {
    ||| ext == "png"@
    ||| ext == "tiff"@
    ||| ext == "bmp"@
}

/// Whether the working image keeps its alpha channel, which decides the
/// pixel format both painting and crop re-basing use.
pub fn has_alpha(ext: &String) -> (r: bool)
    ensures
        r == alpha_extension_spec(ext@),
{
    ext.eq(&"png".to_owned()) || ext.eq(&"tiff".to_owned()) || ext.eq(&"bmp".to_owned())
}

} // verus!
