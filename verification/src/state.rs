//! The editor state: active tool, style settings, flip stack, working-image
//! dimensions, the undo/redo history and the interaction-mode flags, owned by
//! a single event-handling thread of the host.

use vstd::prelude::*;
use crate::annotation::{action_wf, Action, ActionV, Selection};
use crate::color::Rgba;
use crate::geom::{Dims, Flip};

verus! {

/// The whole editor state. The host constructs it from a decoded image and
/// routes every pointer and keyboard event through it; rendering reads it.
pub struct AppState {
    /// The active tool.
    pub selection: Selection,
    /// The live canvas flip stack, append-only.
    pub transforms: Vec<Flip>,
    /// Pixel dimensions of the working image; crop commits replace them.
    pub image: Dims,
    /// Lower-case extension of the image file, which decides alpha handling.
    pub extension: String,
    /// Undo stack, oldest annotation first.
    pub actions: Vec<Action>,
    /// Redo stack, most recently undone annotation last.
    pub redo_actions: Vec<Action>,
    /// A pointer-drag gesture is in progress.
    pub is_drawing: bool,
    /// Keyboard input is being routed into the newest text annotation.
    pub is_writing_text: bool,
    /// The next pointer release resolves to a sampled color.
    pub is_picking_color: bool,
    /// The active drawing color.
    pub color: Rgba,
    /// The active color came from sampling rather than the palette.
    pub custom_color: bool,
    /// Shapes are drawn filled rather than outlined.
    pub fill_color: bool,
    /// Stroke width for pens, highlighters, shapes and arrows.
    pub stroke: u32,
    /// Font size for text annotations.
    pub font_size: u32,
    /// A crop gesture has been armed from the menu; the crop rectangle is
    /// shown while it is dragged.
    pub crop_active: bool,
    /// The host owes the canvas a repaint.
    pub repaint: bool,
    /// The host owes the user a save of the canvas.
    pub save_requested: bool,
}

/// The mathematical value of the editor state.
#[verifier::ext_equal]
pub struct AppStateV {
    pub selection: Selection,
    pub transforms: Seq<Flip>,
    pub image: Dims,
    pub extension: Seq<char>,
    pub actions: Seq<ActionV>,
    pub redo_actions: Seq<ActionV>,
    pub is_drawing: bool,
    pub is_writing_text: bool,
    pub is_picking_color: bool,
    pub color: Rgba,
    pub custom_color: bool,
    pub fill_color: bool,
    pub stroke: u32,
    pub font_size: u32,
    pub crop_active: bool,
    pub repaint: bool,
    pub save_requested: bool,
}

impl View for AppState {
    type V = AppStateV;

    open spec fn view(&self) -> AppStateV {
        AppStateV {
            selection: self.selection,
            transforms: self.transforms@,
            image: self.image,
            extension: self.extension@,
            actions: self.actions@.map_values(|a: Action| a@),
            redo_actions: self.redo_actions@.map_values(|a: Action| a@),
            is_drawing: self.is_drawing,
            is_writing_text: self.is_writing_text,
            is_picking_color: self.is_picking_color,
            color: self.color,
            custom_color: self.custom_color,
            fill_color: self.fill_color,
            stroke: self.stroke,
            font_size: self.font_size,
            crop_active: self.crop_active,
            repaint: self.repaint,
            save_requested: self.save_requested,
        }
    }
}

impl AppStateV {
    /// Every annotation on either stack keeps its geometry in coordinate
    /// range, and strokes keep at least the point they were born with.
    pub open spec fn wf(self) -> bool {
        &&& forall|i: int| 0 <= i < self.actions.len() ==> action_wf(#[trigger] self.actions[i])
        &&& forall|i: int|
            0 <= i < self.redo_actions.len() ==> action_wf(#[trigger] self.redo_actions[i])
    }
}

/// The state the editor starts in: pen selected, red, stroke width 2, font
/// size 24, outlined shapes, empty history, empty flip stack, no gesture in
/// progress.
pub open spec fn initial_spec(image: Dims, extension: Seq<char>, color: Rgba) -> AppStateV {
    AppStateV {
        selection: Selection::Pen,
        transforms: Seq::empty(),
        image,
        extension,
        actions: Seq::empty(),
        redo_actions: Seq::empty(),
        is_drawing: false,
        is_writing_text: false,
        is_picking_color: false,
        color,
        custom_color: false,
        fill_color: false,
        stroke: 2,
        font_size: 24,
        crop_active: false,
        repaint: false,
        save_requested: false,
    }
}

impl AppState {
    /// A fresh editor over a decoded image of the given dimensions.
    pub fn new(image: Dims, extension: String, color: Rgba) -> (s: AppState)
        ensures
            s@ == initial_spec(image, extension@, color),
            s@.wf(),
    {
        let s = AppState {
            selection: Selection::Pen,
            transforms: Vec::new(),
            image,
            extension,
            actions: Vec::new(),
            redo_actions: Vec::new(),
            is_drawing: false,
            is_writing_text: false,
            is_picking_color: false,
            color,
            custom_color: false,
            fill_color: false,
            stroke: 2,
            font_size: 24,
            crop_active: false,
            repaint: false,
            save_requested: false,
        };
        proof {
            assert(s@ =~= initial_spec(image, s.extension@, color));
        }
        s
    }

    /// Selects a tool. Selecting the crop tool also arms the crop overlay
    /// and asks for a repaint, as the host menu's crop entry does.
    pub fn set_selection(&mut self, s: Selection)
        ensures
            final(self)@ == (AppStateV {
                selection: s,
                crop_active: if s == Selection::Crop { true } else { old(self)@.crop_active },
                repaint: if s == Selection::Crop { true } else { old(self)@.repaint },
                ..old(self)@
            }),
    {
        self.selection = s;
        if matches!(s, Selection::Crop) {
            self.crop_active = true;
            self.repaint = true;
        }
        proof {
            assert(self@ =~= (AppStateV {
                selection: s,
                crop_active: if s == Selection::Crop { true } else { old(self)@.crop_active },
                repaint: if s == Selection::Crop { true } else { old(self)@.repaint },
                ..old(self)@
            }));
        }
    }

    /// Appends one flip to the live stack; entries are never removed or
    /// simplified, and the canvas is repainted.
    pub fn apply_flip(&mut self, f: Flip)
        ensures
            final(self)@ == (AppStateV {
                transforms: old(self)@.transforms.push(f),
                repaint: true,
                ..old(self)@
            }),
    {
        self.transforms.push(f);
        self.repaint = true;
        proof {
            assert(self@ =~= (AppStateV {
                transforms: old(self)@.transforms.push(f),
                repaint: true,
                ..old(self)@
            }));
        }
    }

    /// Picks a palette color, leaving sampling mode's custom mark behind.
    pub fn set_color(&mut self, c: Rgba)
        ensures
            final(self)@ == (AppStateV { color: c, custom_color: false, ..old(self)@ }),
    {
        self.color = c;
        self.custom_color = false;
        proof {
            assert(self@ =~= (AppStateV { color: c, custom_color: false, ..old(self)@ }));
        }
    }

    /// Adopts a color sampled from the image as the active custom color.
    pub fn set_sampled_color(&mut self, c: Rgba)
        ensures
            final(self)@ == (AppStateV { color: c, custom_color: true, ..old(self)@ }),
    {
        self.color = c;
        self.custom_color = true;
        proof {
            assert(self@ =~= (AppStateV { color: c, custom_color: true, ..old(self)@ }));
        }
    }

    /// Toggles between filled and outlined shapes.
    pub fn toggle_fill(&mut self)
        ensures
            final(self)@ == (AppStateV { fill_color: !old(self)@.fill_color, ..old(self)@ }),
    {
        self.fill_color = !self.fill_color;
        proof {
            assert(self@ =~= (AppStateV { fill_color: !old(self)@.fill_color, ..old(self)@ }));
        }
    }

    pub fn set_stroke(&mut self, w: u32)
        ensures
            final(self)@ == (AppStateV { stroke: w, ..old(self)@ }),
    {
        self.stroke = w;
        proof {
            assert(self@ =~= (AppStateV { stroke: w, ..old(self)@ }));
        }
    }

    pub fn set_font_size(&mut self, sz: u32)
        ensures
            final(self)@ == (AppStateV { font_size: sz, ..old(self)@ }),
    {
        self.font_size = sz;
        proof {
            assert(self@ =~= (AppStateV { font_size: sz, ..old(self)@ }));
        }
    }

    /// Arms one-shot color sampling: only the cursor changes until the next
    /// pointer release resolves the color.
    pub fn start_color_pick(&mut self)
        ensures
            final(self)@ == (AppStateV { is_picking_color: true, ..old(self)@ }),
    {
        self.is_picking_color = true;
        proof {
            assert(self@ =~= (AppStateV { is_picking_color: true, ..old(self)@ }));
        }
    }

    /// Asks the host to save the canvas over the original file.
    pub fn request_save(&mut self)
        ensures
            final(self)@ == (AppStateV { save_requested: true, repaint: true, ..old(self)@ }),
    {
        self.save_requested = true;
        self.repaint = true;
        proof {
            assert(self@ =~= (AppStateV { save_requested: true, repaint: true, ..old(self)@ }));
        }
    }

    /// Clears the save request; the host calls this whether its attempt to
    /// capture and write the file succeeded or not, so a failed save cannot
    /// leave the editor asking forever.
    pub fn clear_save_request(&mut self)
        ensures
            final(self)@ == (AppStateV { save_requested: false, ..old(self)@ }),
    {
        self.save_requested = false;
        proof {
            assert(self@ =~= (AppStateV { save_requested: false, ..old(self)@ }));
        }
    }

    /// Hands the pending repaint mark to the host, clearing it.
    pub fn take_repaint(&mut self) -> (r: bool)
        ensures
            r == old(self)@.repaint,
            final(self)@ == (AppStateV { repaint: false, ..old(self)@ }),
    {
        let r = self.repaint;
        self.repaint = false;
        proof {
            assert(self@ =~= (AppStateV { repaint: false, ..old(self)@ }));
        }
        r
    }
}

} // verus!
