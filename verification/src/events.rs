//! The tool state machine: how pointer, keyboard and paste events create
//! and mutate annotations, drive the color sampler and commit crops.

use vstd::prelude::*;
use crate::annotation::{finalized_spec, moved_spec, Action, ActionV, Selection};
use crate::coords::{crop_rect, crop_rect_spec, PixelRect};
use crate::geom::{copy_flips, dist_sq, Dims, Point};
use crate::history::record_spec;
use crate::state::{AppState, AppStateV};

verus! {

/// A keyboard event while text is being written. The host maps raw key
/// codes: enter and backspace keep their meaning, shift, tab, alt and meta
/// arrive as `Modifier`, and any other key arrives as the first character
/// of its name.
#[derive(Clone, Copy, PartialEq, Eq, Structural, Debug)]
pub enum Key {
    Enter,
    Backspace,
    Modifier,
    Char(char),
}

/// What the host owes the editor after a pointer release: nothing, a pixel
/// sample at the position the release resolved to, or the crop of the
/// captured image to the given rectangle. A degenerate crop drag is
/// rejected and leaves everything but the discarded crop annotation as it
/// was.
#[derive(Clone, Copy, PartialEq, Eq, Structural, Debug)]
pub enum UpEffect {
    Nothing,
    SampleRequested,
    CropCommitted(PixelRect),
    CropRejected,
}

/// The annotation a pointer press creates: seeded at the press position
/// with the live style settings and a snapshot of the live flip stack. A
/// crop instead records the dimensions of the screen capture the host just
/// took, or zero extent if the host took none.
pub open spec fn new_action_spec(s: AppStateV, pos: Point, capture: Option<Dims>) -> ActionV {
    match s.selection {
        Selection::Pen => ActionV::Pen {
            transforms: s.transforms,
            points: seq![pos],
            color: s.color,
            width: s.stroke,
        },
        Selection::Highlighter => ActionV::Highlighter {
            transforms: s.transforms,
            points: seq![pos],
            color: s.color,
            width: s.stroke,
        },
        Selection::Rectangle => ActionV::Rectangle {
            transforms: s.transforms,
            corner1: pos,
            corner2: pos,
            color: s.color,
            filled: s.fill_color,
            width: s.stroke,
        },
        Selection::Circle => ActionV::Circle {
            transforms: s.transforms,
            center: pos,
            radius_sq: 0,
            color: s.color,
            filled: s.fill_color,
            width: s.stroke,
        },
        Selection::Ellipse => ActionV::Ellipse {
            transforms: s.transforms,
            corner1: pos,
            corner2: pos,
            color: s.color,
            filled: s.fill_color,
            width: s.stroke,
        },
        Selection::Arrow => ActionV::Arrow {
            transforms: s.transforms,
            start: pos,
            end: pos,
            color: s.color,
            width: s.stroke,
        },
        Selection::Text => ActionV::Text {
            transforms: s.transforms,
            position: pos,
            content: Seq::empty(),
            color: s.color,
            font_size: s.font_size,
        },
        Selection::Crop => ActionV::Crop {
            pre_image: match capture {
                Some(d) => d,
                None => Dims { w: 0, h: 0 },
            },
            start: pos,
            end: pos,
        },
    }
}

/// What a pointer press does. While color picking is armed the press does
/// nothing: the sample resolves at the release. A press while a text edit
/// is still open and the text tool is selected is ignored: that edit must
/// finish first. Otherwise the new annotation is recorded — onto the undo
/// stack, clearing the redo stack — a drag begins, and pressing with the
/// text tool opens a text edit.
pub open spec fn pointer_down_spec(s: AppStateV, pos: Point, capture: Option<Dims>) -> AppStateV {
    if s.is_picking_color {
        s
    } else if s.selection == Selection::Text && s.is_writing_text {
        s
    } else {
        let s1 = record_spec(s, new_action_spec(s, pos, capture));
        AppStateV {
            is_drawing: true,
            is_writing_text: if s.selection == Selection::Text {
                true
            } else {
                s.is_writing_text
            },
            ..s1
        }
    }
}

/// What a pointer move does: while a drag is in progress the newest
/// annotation's mutable geometry tracks the pointer, as `moved_spec` says;
/// nothing else changes, and nothing at all while color picking is armed.
pub open spec fn pointer_move_spec(s: AppStateV, pos: Point) -> AppStateV {
    if s.is_picking_color {
        s
    } else if s.is_drawing && s.actions.len() > 0 {
        AppStateV {
            actions: s.actions.update(
                s.actions.len() - 1,
                moved_spec(s.actions.last(), pos),
            ),
            ..s
        }
    } else {
        s
    }
}

/// What a crop release does to the state, after the pending crop annotation
/// has been taken off the undo stack. A valid rectangle re-bases the
/// working image to the cropped capture and clears both history stacks
/// unconditionally — every earlier annotation was authored against the old
/// coordinate space — disarms the crop overlay and falls back to the
/// default tool. A degenerate rectangle changes nothing further: the image
/// and the remaining history stay as they were.
pub open spec fn crop_commit_spec(
    s: AppStateV,
    pre: Dims,
    start: Point,
    pos: Point,
    viewport: Dims,
) -> AppStateV {
    match crop_rect_spec(pre, viewport, start, pos) {
        Some(rect) => AppStateV {
            image: Dims { w: rect.w, h: rect.h },
            actions: Seq::empty(),
            redo_actions: Seq::empty(),
            crop_active: false,
            selection: Selection::Pen,
            ..s
        },
        None => s,
    }
}

/// What a pointer release does. A release while color picking is armed
/// only disarms it: the host samples the pixel and hands the color back.
/// Otherwise the drag ends and a repaint is owed; the newest annotation's
/// geometry is frozen as a last move would have set it, a text annotation
/// instead (re)opens its text edit, and a crop annotation commits.
pub open spec fn pointer_up_spec(s: AppStateV, pos: Point, viewport: Dims) -> AppStateV {
    if s.is_picking_color {
        AppStateV { is_picking_color: false, ..s }
    } else {
        let s1 = AppStateV { is_drawing: false, repaint: true, ..s };
        if s.actions.len() == 0 {
            s1
        } else {
            match s.actions.last() {
                ActionV::Text { .. } => AppStateV { is_writing_text: true, ..s1 },
                ActionV::Crop { pre_image, start, .. } => crop_commit_spec(
                    AppStateV { actions: s1.actions.drop_last(), ..s1 },
                    pre_image,
                    start,
                    pos,
                    viewport,
                ),
                _ => AppStateV {
                    actions: s1.actions.update(
                        s1.actions.len() - 1,
                        finalized_spec(s.actions.last(), pos),
                    ),
                    ..s1
                },
            }
        }
    }
}

/// Which follow-up work a pointer release asks of the host.
pub open spec fn pointer_up_effect(s: AppStateV, pos: Point, viewport: Dims) -> UpEffect {
    if s.is_picking_color {
        UpEffect::SampleRequested
    } else if s.actions.len() == 0 {
        UpEffect::Nothing
    } else {
        match s.actions.last() {
            ActionV::Crop { pre_image, start, .. } => match crop_rect_spec(
                pre_image,
                viewport,
                start,
                pos,
            ) {
                Some(rect) => UpEffect::CropCommitted(rect),
                None => UpEffect::CropRejected,
            },
            _ => UpEffect::Nothing,
        }
    }
}

/// What a key does while a text edit is open: enter closes the edit,
/// backspace drops the last character if there is one, modifier keys leave
/// the content alone, and any other key appends its character. Every key
/// but enter also refreshes the annotation's transform snapshot to the live
/// flip stack. With no open edit, keys do nothing.
pub open spec fn key_down_spec(s: AppStateV, k: Key) -> AppStateV {
    if !s.is_writing_text {
        s
    } else if k == Key::Enter {
        AppStateV { is_writing_text: false, ..s }
    } else if s.actions.len() > 0 {
        match s.actions.last() {
            ActionV::Text { position, content, color, font_size, .. } => {
                let edited = ActionV::Text {
                    transforms: s.transforms,
                    position,
                    content: match k {
                        Key::Backspace => if content.len() > 0 {
                            content.drop_last()
                        } else {
                            content
                        },
                        Key::Char(c) => content.push(c),
                        _ => content,
                    },
                    color,
                    font_size,
                };
                AppStateV { actions: s.actions.update(s.actions.len() - 1, edited), ..s }
            },
            _ => s,
        }
    } else {
        s
    }
}

/// What a paste does while a text edit is open: the clipboard text replaces
/// the whole content — it is not inserted — and the transform snapshot is
/// refreshed. With no open edit, nothing happens.
pub open spec fn paste_spec(s: AppStateV, text: Seq<char>) -> AppStateV {
    if !s.is_writing_text {
        s
    } else if s.actions.len() > 0 {
        match s.actions.last() {
            ActionV::Text { position, color, font_size, .. } => {
                let edited = ActionV::Text {
                    transforms: s.transforms,
                    position,
                    content: text,
                    color,
                    font_size,
                };
                AppStateV { actions: s.actions.update(s.actions.len() - 1, edited), ..s }
            },
            _ => s,
        }
    } else {
        s
    }
}

impl AppState {
    /// Handles a pointer press, as `pointer_down_spec` states. When the
    /// crop tool is selected the host passes the dimensions of the screen
    /// capture it took for this gesture.
    pub fn pointer_down(&mut self, pos: Point, capture: Option<Dims>)
        requires
            pos.in_range(),
            old(self)@.wf(),
        ensures
            final(self)@ == pointer_down_spec(old(self)@, pos, capture),
            final(self)@.wf(),
    {
        if self.is_picking_color {
            return;
        }
        if matches!(self.selection, Selection::Text) && self.is_writing_text {
            return;
        }
        self.is_drawing = true;
        self.redo_actions.clear();
        let a: Action = match self.selection {
            Selection::Pen => {
                let mut points: Vec<Point> = Vec::new();
                points.push(pos);
                Action::Pen {
                    transforms: copy_flips(&self.transforms),
                    points,
                    color: self.color,
                    width: self.stroke,
                }
            },
            Selection::Highlighter => {
                let mut points: Vec<Point> = Vec::new();
                points.push(pos);
                Action::Highlighter {
                    transforms: copy_flips(&self.transforms),
                    points,
                    color: self.color,
                    width: self.stroke,
                }
            },
            Selection::Rectangle => Action::Rectangle {
                transforms: copy_flips(&self.transforms),
                corner1: pos,
                corner2: pos,
                color: self.color,
                filled: self.fill_color,
                width: self.stroke,
            },
            Selection::Circle => Action::Circle {
                transforms: copy_flips(&self.transforms),
                center: pos,
                radius_sq: 0,
                color: self.color,
                filled: self.fill_color,
                width: self.stroke,
            },
            Selection::Ellipse => Action::Ellipse {
                transforms: copy_flips(&self.transforms),
                corner1: pos,
                corner2: pos,
                color: self.color,
                filled: self.fill_color,
                width: self.stroke,
            },
            Selection::Arrow => Action::Arrow {
                transforms: copy_flips(&self.transforms),
                start: pos,
                end: pos,
                color: self.color,
                width: self.stroke,
            },
            Selection::Text => {
                self.is_writing_text = true;
                Action::Text {
                    transforms: copy_flips(&self.transforms),
                    position: pos,
                    content: Vec::new(),
                    color: self.color,
                    font_size: self.font_size,
                }
            },
            Selection::Crop => {
                let pre = match capture {
                    Some(d) => d,
                    None => Dims { w: 0, h: 0 },
                };
                Action::Crop { pre_image: pre, start: pos, end: pos }
            },
        };
        self.actions.push(a);
        proof {
            assert(self@ =~= pointer_down_spec(old(self)@, pos, capture));
        }
    }

    /// Handles a pointer move, as `pointer_move_spec` states.
    pub fn pointer_move(&mut self, pos: Point)
        requires
            pos.in_range(),
            old(self)@.wf(),
        ensures
            final(self)@ == pointer_move_spec(old(self)@, pos),
            final(self)@.wf(),
    {
        if self.is_picking_color {
            return;
        }
        if !self.is_drawing {
            return;
        }
        if self.actions.len() == 0 {
            return;
        }
        let mut a = self.actions.pop().unwrap();
        match &mut a {
            Action::Pen { points, .. } => {
                points.push(pos);
            },
            Action::Highlighter { points, .. } => {
                points.push(pos);
            },
            Action::Rectangle { corner2, .. } => {
                *corner2 = pos;
            },
            Action::Circle { center, radius_sq, .. } => {
                *radius_sq = dist_sq(*center, pos);
            },
            Action::Ellipse { corner2, .. } => {
                *corner2 = pos;
            },
            Action::Arrow { end, .. } => {
                *end = pos;
            },
            Action::Text { .. } => {},
            Action::Crop { end, .. } => {
                *end = pos;
            },
        }
        self.actions.push(a);
        proof {
            assert(self@ =~= pointer_move_spec(old(self)@, pos));
        }
    }

    /// Handles a pointer release, as `pointer_up_spec` states, and returns
    /// the follow-up work the host owes, as `pointer_up_effect` states:
    /// sampling a pixel after a color pick, or cutting the captured image
    /// after a crop commit.
    pub fn pointer_up(&mut self, pos: Point, viewport: Dims) -> (eff: UpEffect)
        requires
            pos.in_range(),
            1 <= viewport.w,
            1 <= viewport.h,
            old(self)@.wf(),
        ensures
            final(self)@ == pointer_up_spec(old(self)@, pos, viewport),
            eff == pointer_up_effect(old(self)@, pos, viewport),
            final(self)@.wf(),
    {
        if self.is_picking_color {
            self.is_picking_color = false;
            proof {
                assert(self@ =~= pointer_up_spec(old(self)@, pos, viewport));
            }
            return UpEffect::SampleRequested;
        }
        self.is_drawing = false;
        self.repaint = true;
        if self.actions.len() == 0 {
            proof {
                assert(self@ =~= pointer_up_spec(old(self)@, pos, viewport));
            }
            return UpEffect::Nothing;
        }
        let mut a = self.actions.pop().unwrap();
        match &mut a {
            Action::Pen { .. } => {},
            Action::Highlighter { .. } => {},
            Action::Rectangle { corner2, .. } => {
                *corner2 = pos;
            },
            Action::Circle { center, radius_sq, .. } => {
                *radius_sq = dist_sq(*center, pos);
            },
            Action::Ellipse { corner2, .. } => {
                *corner2 = pos;
            },
            Action::Arrow { end, .. } => {
                *end = pos;
            },
            Action::Text { .. } => {
                self.is_writing_text = true;
            },
            Action::Crop { .. } => {},
        }
        if let Action::Crop { pre_image, start, .. } = &a {
            match crop_rect(*pre_image, viewport, *start, pos) {
                Some(rect) => {
                    self.image = Dims { w: rect.w, h: rect.h };
                    self.actions.clear();
                    self.redo_actions.clear();
                    self.crop_active = false;
                    self.selection = Selection::Pen;
                    proof {
                        assert(self@ =~= pointer_up_spec(old(self)@, pos, viewport));
                    }
                    return UpEffect::CropCommitted(rect);
                },
                None => {
                    proof {
                        assert(self@ =~= pointer_up_spec(old(self)@, pos, viewport));
                    }
                    return UpEffect::CropRejected;
                },
            }
        }
        self.actions.push(a);
        proof {
            assert(self@ =~= pointer_up_spec(old(self)@, pos, viewport));
        }
        UpEffect::Nothing
    }

    /// Handles a key press, as `key_down_spec` states.
    pub fn key_down(&mut self, k: Key)
        requires
            old(self)@.wf(),
        ensures
            final(self)@ == key_down_spec(old(self)@, k),
            final(self)@.wf(),
    {
        if !self.is_writing_text {
            return;
        }
        if matches!(k, Key::Enter) {
            self.is_writing_text = false;
            proof {
                assert(self@ =~= key_down_spec(old(self)@, k));
            }
            return;
        }
        if self.actions.len() == 0 {
            return;
        }
        let mut a = self.actions.pop().unwrap();
        if let Action::Text { transforms, content, .. } = &mut a {
            *transforms = copy_flips(&self.transforms);
            match k {
                Key::Enter => {},
                Key::Backspace => {
                    let _popped = content.pop();
                },
                Key::Modifier => {},
                Key::Char(c) => {
                    content.push(c);
                },
            }
        }
        self.actions.push(a);
        proof {
            assert(self@ =~= key_down_spec(old(self)@, k));
        }
    }

    /// Handles a paste, as `paste_spec` states: the whole content of the
    /// open text edit is replaced. A host whose clipboard holds no text
    /// simply does not call this.
    pub fn paste(&mut self, text: Vec<char>)
        requires
            old(self)@.wf(),
        ensures
            final(self)@ == paste_spec(old(self)@, text@),
            final(self)@.wf(),
    {
        if !self.is_writing_text {
            return;
        }
        if self.actions.len() == 0 {
            return;
        }
        let mut a = self.actions.pop().unwrap();
        if let Action::Text { transforms, content, .. } = &mut a {
            *transforms = copy_flips(&self.transforms);
            *content = text;
        }
        self.actions.push(a);
        proof {
            assert(self@ =~= paste_spec(old(self)@, text@));
        }
    }
}

/// Committing a crop clears both history stacks unconditionally — however
/// full they were — and resets the tool to the default pen.
pub proof fn lemma_crop_commit_clears(
    s: AppStateV,
    pre: Dims,
    start: Point,
    endp: Point,
    pos: Point,
    viewport: Dims,
)
    requires
        !s.is_picking_color,
        s.actions.len() > 0,
        s.actions.last() == (ActionV::Crop { pre_image: pre, start, end: endp }),
        crop_rect_spec(pre, viewport, start, pos).is_some(),
    ensures
        pointer_up_spec(s, pos, viewport).actions.len() == 0,
        pointer_up_spec(s, pos, viewport).redo_actions.len() == 0,
        pointer_up_spec(s, pos, viewport).selection == Selection::Pen,
        !pointer_up_spec(s, pos, viewport).crop_active,
{
}

} // verus!
