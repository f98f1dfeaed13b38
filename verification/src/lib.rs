//! Core engine of a screenshot annotation tool.
//!
//! The library models the drawable annotations, the per-tool pointer and
//! keyboard state machine that builds them, the undo/redo history, the
//! append-only stack of canvas flips, the crop sub-flow that re-bases the
//! working image, and the order in which a renderer must replay all of it.
//! Everything is stated over plain integer coordinates; decoding, rasterizing
//! and window plumbing live outside the library.

use vstd::prelude::*;

pub mod annotation;
pub mod color;
pub mod coords;
pub mod events;
pub mod formats;
pub mod geom;
pub mod history;
pub mod render;
pub mod state;

verus! {

/// Command-line arguments accepted by the surrounding program: the path of
/// the image file to annotate.
pub struct Args {
    pub path: String,
}

} // verus!
