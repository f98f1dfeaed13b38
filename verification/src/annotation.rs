//! The annotation model: the tool palette and the tagged annotation value
//! each tool produces, together with its mathematical view.

use vstd::prelude::*;
use crate::color::Rgba;
use crate::geom::{dist_sq_spec, Dims, Flip, Point};

verus! {

/// The currently active tool.
#[derive(Clone, Copy, PartialEq, Eq, Structural, Debug)]
pub enum Selection {
    Pen,
    Highlighter,
    Rectangle,
    Circle,
    Ellipse,
    Arrow,
    Text,
    Crop,
}

impl Default for Selection {
    /// The tool that is active when the editor opens.
    fn default() -> (s: Self)
        ensures
            s == Selection::Pen,
    {
        Selection::Pen
    }
}

/// One drawable annotation. Every non-crop variant carries the snapshot of
/// the canvas flip stack taken when it was created; a renderer replays that
/// snapshot in addition to the live stack. A circle stores the square of its
/// radius, which integer arithmetic represents exactly; a renderer takes the
/// root. A crop records the dimensions of the screen capture taken when the
/// gesture started; the capture's pixels stay with the host.
#[derive(Clone, PartialEq, Debug)]
pub enum Action {
    Pen { transforms: Vec<Flip>, points: Vec<Point>, color: Rgba, width: u32 },
    Highlighter { transforms: Vec<Flip>, points: Vec<Point>, color: Rgba, width: u32 },
    Rectangle { transforms: Vec<Flip>, corner1: Point, corner2: Point, color: Rgba, filled: bool, width: u32 },
    Circle { transforms: Vec<Flip>, center: Point, radius_sq: u64, color: Rgba, filled: bool, width: u32 },
    Ellipse { transforms: Vec<Flip>, corner1: Point, corner2: Point, color: Rgba, filled: bool, width: u32 },
    Arrow { transforms: Vec<Flip>, start: Point, end: Point, color: Rgba, width: u32 },
    Text { transforms: Vec<Flip>, position: Point, content: Vec<char>, color: Rgba, font_size: u32 },
    Crop { pre_image: Dims, start: Point, end: Point },
}

/// The mathematical value of an annotation.
#[verifier::ext_equal]
pub enum ActionV {
    Pen { transforms: Seq<Flip>, points: Seq<Point>, color: Rgba, width: u32 },
    Highlighter { transforms: Seq<Flip>, points: Seq<Point>, color: Rgba, width: u32 },
    Rectangle { transforms: Seq<Flip>, corner1: Point, corner2: Point, color: Rgba, filled: bool, width: u32 },
    Circle { transforms: Seq<Flip>, center: Point, radius_sq: u64, color: Rgba, filled: bool, width: u32 },
    Ellipse { transforms: Seq<Flip>, corner1: Point, corner2: Point, color: Rgba, filled: bool, width: u32 },
    Arrow { transforms: Seq<Flip>, start: Point, end: Point, color: Rgba, width: u32 },
    Text { transforms: Seq<Flip>, position: Point, content: Seq<char>, color: Rgba, font_size: u32 },
    Crop { pre_image: Dims, start: Point, end: Point },
}

impl View for Action {
    type V = ActionV;

    open spec fn view(&self) -> ActionV {
        match self {
            Action::Pen { transforms, points, color, width } => ActionV::Pen {
                transforms: transforms@,
                points: points@,
                color: *color,
                width: *width,
            },
            Action::Highlighter { transforms, points, color, width } => ActionV::Highlighter {
                transforms: transforms@,
                points: points@,
                color: *color,
                width: *width,
            },
            Action::Rectangle { transforms, corner1, corner2, color, filled, width } => ActionV::Rectangle {
                transforms: transforms@,
                corner1: *corner1,
                corner2: *corner2,
                color: *color,
                filled: *filled,
                width: *width,
            },
            Action::Circle { transforms, center, radius_sq, color, filled, width } => ActionV::Circle {
                transforms: transforms@,
                center: *center,
                radius_sq: *radius_sq,
                color: *color,
                filled: *filled,
                width: *width,
            },
            Action::Ellipse { transforms, corner1, corner2, color, filled, width } => ActionV::Ellipse {
                transforms: transforms@,
                corner1: *corner1,
                corner2: *corner2,
                color: *color,
                filled: *filled,
                width: *width,
            },
            Action::Arrow { transforms, start, end, color, width } => ActionV::Arrow {
                transforms: transforms@,
                start: *start,
                end: *end,
                color: *color,
                width: *width,
            },
            Action::Text { transforms, position, content, color, font_size } => ActionV::Text {
                transforms: transforms@,
                position: *position,
                content: content@,
                color: *color,
                font_size: *font_size,
            },
            Action::Crop { pre_image, start, end } => ActionV::Crop {
                pre_image: *pre_image,
                start: *start,
                end: *end,
            },
        }
    }
}

impl Action {
    /// A blank annotation for the given tool, carrying the default style:
    /// red, stroke width 2, font size 24, unfilled, no points yet and an
    /// empty transform snapshot.
    pub fn new(selection: &Selection) -> (a: Action)
        ensures
            a@ == blank_spec(*selection),
    {
        match selection {
            Selection::Pen => Action::Pen {
                transforms: Vec::new(),
                points: Vec::new(),
                color: Rgba::red(),
                width: 2,
            },
            Selection::Highlighter => Action::Highlighter {
                transforms: Vec::new(),
                points: Vec::new(),
                color: Rgba::red(),
                width: 2,
            },
            Selection::Rectangle => Action::Rectangle {
                transforms: Vec::new(),
                corner1: Point::origin(),
                corner2: Point::origin(),
                color: Rgba::red(),
                filled: false,
                width: 2,
            },
            Selection::Circle => Action::Circle {
                transforms: Vec::new(),
                center: Point::origin(),
                radius_sq: 0,
                color: Rgba::red(),
                filled: false,
                width: 2,
            },
            Selection::Ellipse => Action::Ellipse {
                transforms: Vec::new(),
                corner1: Point::origin(),
                corner2: Point::origin(),
                color: Rgba::red(),
                filled: false,
                width: 2,
            },
            Selection::Arrow => Action::Arrow {
                transforms: Vec::new(),
                start: Point::origin(),
                end: Point::origin(),
                color: Rgba::red(),
                width: 2,
            },
            Selection::Text => Action::Text {
                transforms: Vec::new(),
                position: Point::origin(),
                content: Vec::new(),
                color: Rgba::red(),
                font_size: 24,
            },
            Selection::Crop => Action::Crop {
                pre_image: Dims { w: 0, h: 0 },
                start: Point::origin(),
                end: Point::origin(),
            },
        }
    }
}

/// The blank annotation `Action::new` yields for each tool.
pub open spec fn blank_spec(selection: Selection) -> ActionV {
    let o = Point::origin_spec();
    match selection {
        Selection::Pen => ActionV::Pen {
            transforms: Seq::empty(),
            points: Seq::empty(),
            color: Rgba::red_spec(),
            width: 2,
        },
        Selection::Highlighter => ActionV::Highlighter {
            transforms: Seq::empty(),
            points: Seq::empty(),
            color: Rgba::red_spec(),
            width: 2,
        },
        Selection::Rectangle => ActionV::Rectangle {
            transforms: Seq::empty(),
            corner1: o,
            corner2: o,
            color: Rgba::red_spec(),
            filled: false,
            width: 2,
        },
        Selection::Circle => ActionV::Circle {
            transforms: Seq::empty(),
            center: o,
            radius_sq: 0,
            color: Rgba::red_spec(),
            filled: false,
            width: 2,
        },
        Selection::Ellipse => ActionV::Ellipse {
            transforms: Seq::empty(),
            corner1: o,
            corner2: o,
            color: Rgba::red_spec(),
            filled: false,
            width: 2,
        },
        Selection::Arrow => ActionV::Arrow {
            transforms: Seq::empty(),
            start: o,
            end: o,
            color: Rgba::red_spec(),
            width: 2,
        },
        Selection::Text => ActionV::Text {
            transforms: Seq::empty(),
            position: o,
            content: Seq::empty(),
            color: Rgba::red_spec(),
            font_size: 24,
        },
        Selection::Crop => ActionV::Crop {
            pre_image: Dims { w: 0, h: 0 },
            start: o,
            end: o,
        },
    }
}

/// Geometry every event handler keeps inside coordinate range, and the
/// guarantee that a stroke never loses the point it was born with.
pub open spec fn action_wf(a: ActionV) -> bool {
    match a {
        ActionV::Pen { points, .. } => points.len() >= 1
            && forall|i: int| 0 <= i < points.len() ==> (#[trigger] points[i]).in_range(),
        ActionV::Highlighter { points, .. } => points.len() >= 1
            && forall|i: int| 0 <= i < points.len() ==> (#[trigger] points[i]).in_range(),
        ActionV::Rectangle { corner1, corner2, .. } => corner1.in_range() && corner2.in_range(),
        ActionV::Circle { center, .. } => center.in_range(),
        ActionV::Ellipse { corner1, corner2, .. } => corner1.in_range() && corner2.in_range(),
        ActionV::Arrow { start, end, .. } => start.in_range() && end.in_range(),
        ActionV::Text { position, .. } => position.in_range(),
        ActionV::Crop { start, end, .. } => start.in_range() && end.in_range(),
    }
}

/// How a pointer move at `pos` changes an annotation under construction:
/// strokes grow by the point, rectangles, ellipses and crops track the far
/// corner, circles track the squared distance from their center, arrows
/// track their tip; a text annotation's geometry is fixed at creation.
pub open spec fn moved_spec(a: ActionV, pos: Point) -> ActionV {
    match a {
        ActionV::Pen { transforms, points, color, width } => ActionV::Pen {
            transforms,
            points: points.push(pos),
            color,
            width,
        },
        ActionV::Highlighter { transforms, points, color, width } => ActionV::Highlighter {
            transforms,
            points: points.push(pos),
            color,
            width,
        },
        ActionV::Rectangle { transforms, corner1, corner2, color, filled, width } => ActionV::Rectangle {
            transforms,
            corner1,
            corner2: pos,
            color,
            filled,
            width,
        },
        ActionV::Circle { transforms, center, radius_sq, color, filled, width } => ActionV::Circle {
            transforms,
            center,
            radius_sq: dist_sq_spec(center, pos) as u64,
            color,
            filled,
            width,
        },
        ActionV::Ellipse { transforms, corner1, corner2, color, filled, width } => ActionV::Ellipse {
            transforms,
            corner1,
            corner2: pos,
            color,
            filled,
            width,
        },
        ActionV::Arrow { transforms, start, end, color, width } => ActionV::Arrow {
            transforms,
            start,
            end: pos,
            color,
            width,
        },
        ActionV::Text { .. } => a,
        ActionV::Crop { pre_image, start, end } => ActionV::Crop {
            pre_image,
            start,
            end: pos,
        },
    }
}

/// How the pointer's release at `pos` freezes an annotation's geometry:
/// like a final move for the shapes that track the pointer, while strokes
/// keep the points already gathered and text and crop are handled by their
/// own flows.
pub open spec fn finalized_spec(a: ActionV, pos: Point) -> ActionV {
    match a {
        ActionV::Rectangle { .. } => moved_spec(a, pos),
        ActionV::Circle { .. } => moved_spec(a, pos),
        ActionV::Ellipse { .. } => moved_spec(a, pos),
        ActionV::Arrow { .. } => moved_spec(a, pos),
        _ => a,
    }
}

} // verus!
