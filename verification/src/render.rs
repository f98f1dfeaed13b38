//! The compositor's contract: the exact sequence of draw operations a
//! renderer must perform for a given editor state, each under its exact
//! transform list. The base image is drawn under the live flip stack; every
//! annotation is then drawn, oldest first, under the live stack followed by
//! its own creation-time snapshot — the live stack is deliberately applied
//! again for every annotation, which is what keeps already-drawn
//! annotations locked to the canvas as new flips arrive.

use vstd::prelude::*;
use crate::annotation::{action_wf, Action, ActionV};
use crate::color::Rgba;
use crate::geom::{
    apply_flips, concat_flips, copy_flips, lemma_apply_flips_concat, lemma_double_flip_identity,
    Flip, Point,
};
use crate::state::{AppState, AppStateV};

verus! {

/// One drawable primitive. A renderer chooses the pixels: a `PenDot` is a
/// filled disc of half the stroke width, a `HighlightDot` a disc of twice
/// the stroke width at quarter opacity, highlighter lines are drawn at
/// triple width and quarter opacity, and a circle's radius is the square
/// root of `radius_sq`. The crop overlay is the translucent drag rectangle.
#[derive(Clone, PartialEq, Debug)]
pub enum Shape {
    Image,
    PenDot { center: Point, color: Rgba, width: u32 },
    PenLine { from: Point, to: Point, color: Rgba, width: u32 },
    HighlightDot { center: Point, color: Rgba, width: u32 },
    HighlightLine { from: Point, to: Point, color: Rgba, width: u32 },
    Rect { corner1: Point, corner2: Point, color: Rgba, filled: bool, width: u32 },
    Circle { center: Point, radius_sq: u64, color: Rgba, filled: bool, width: u32 },
    Ellipse { corner1: Point, corner2: Point, color: Rgba, filled: bool, width: u32 },
    Arrow { start: Point, end: Point, color: Rgba, width: u32 },
    Text { position: Point, content: Vec<char>, color: Rgba, font_size: u32 },
    CropOverlay { start: Point, end: Point },
}

/// The mathematical value of a primitive.
#[verifier::ext_equal]
pub enum ShapeV {
    Image,
    PenDot { center: Point, color: Rgba, width: u32 },
    PenLine { from: Point, to: Point, color: Rgba, width: u32 },
    HighlightDot { center: Point, color: Rgba, width: u32 },
    HighlightLine { from: Point, to: Point, color: Rgba, width: u32 },
    Rect { corner1: Point, corner2: Point, color: Rgba, filled: bool, width: u32 },
    Circle { center: Point, radius_sq: u64, color: Rgba, filled: bool, width: u32 },
    Ellipse { corner1: Point, corner2: Point, color: Rgba, filled: bool, width: u32 },
    Arrow { start: Point, end: Point, color: Rgba, width: u32 },
    Text { position: Point, content: Seq<char>, color: Rgba, font_size: u32 },
    CropOverlay { start: Point, end: Point },
}

impl View for Shape {
    type V = ShapeV;

    open spec fn view(&self) -> ShapeV {
        match self {
            Shape::Image => ShapeV::Image,
            Shape::PenDot { center, color, width } => ShapeV::PenDot {
                center: *center,
                color: *color,
                width: *width,
            },
            Shape::PenLine { from, to, color, width } => ShapeV::PenLine {
                from: *from,
                to: *to,
                color: *color,
                width: *width,
            },
            Shape::HighlightDot { center, color, width } => ShapeV::HighlightDot {
                center: *center,
                color: *color,
                width: *width,
            },
            Shape::HighlightLine { from, to, color, width } => ShapeV::HighlightLine {
                from: *from,
                to: *to,
                color: *color,
                width: *width,
            },
            Shape::Rect { corner1, corner2, color, filled, width } => ShapeV::Rect {
                corner1: *corner1,
                corner2: *corner2,
                color: *color,
                filled: *filled,
                width: *width,
            },
            Shape::Circle { center, radius_sq, color, filled, width } => ShapeV::Circle {
                center: *center,
                radius_sq: *radius_sq,
                color: *color,
                filled: *filled,
                width: *width,
            },
            Shape::Ellipse { corner1, corner2, color, filled, width } => ShapeV::Ellipse {
                corner1: *corner1,
                corner2: *corner2,
                color: *color,
                filled: *filled,
                width: *width,
            },
            Shape::Arrow { start, end, color, width } => ShapeV::Arrow {
                start: *start,
                end: *end,
                color: *color,
                width: *width,
            },
            Shape::Text { position, content, color, font_size } => ShapeV::Text {
                position: *position,
                content: content@,
                color: *color,
                font_size: *font_size,
            },
            Shape::CropOverlay { start, end } => ShapeV::CropOverlay {
                start: *start,
                end: *end,
            },
        }
    }
}

/// One draw operation: the flips to replay onto a fresh canvas transform —
/// each flip followed by its anchoring translation — and the primitive to
/// draw under them.
#[derive(Clone, PartialEq, Debug)]
pub struct RenderOp {
    pub transforms: Vec<Flip>,
    pub shape: Shape,
}

/// The mathematical value of a draw operation.
#[verifier::ext_equal]
pub struct RenderOpV {
    pub transforms: Seq<Flip>,
    pub shape: ShapeV,
}

impl View for RenderOp {
    type V = RenderOpV;

    open spec fn view(&self) -> RenderOpV {
        RenderOpV { transforms: self.transforms@, shape: self.shape@ }
    }
}

/// The values of a sequence of draw operations.
pub open spec fn ops_view(ops: Seq<RenderOp>) -> Seq<RenderOpV> {
    ops.map_values(|op: RenderOp| op@)
}

/// The draw operations one annotation contributes, each under the live
/// flip stack followed by the annotation's own snapshot. A stroke of a
/// single point becomes a dot; a longer stroke becomes one line per
/// consecutive pair of points. The crop overlay is drawn untransformed and
/// only while the crop gesture is armed.
pub open spec fn action_ops(a: ActionV, live: Seq<Flip>, crop_active: bool) -> Seq<RenderOpV> {
    match a {
        ActionV::Pen { transforms, points, color, width } => {
            if points.len() < 2 {
                seq![
                    RenderOpV {
                        transforms: live + transforms,
                        shape: ShapeV::PenDot { center: points.last(), color, width },
                    },
                ]
            } else {
                Seq::new(
                    (points.len() - 1) as nat,
                    |i: int| RenderOpV {
                        transforms: live + transforms,
                        shape: ShapeV::PenLine {
                            from: points[i],
                            to: points[i + 1],
                            color,
                            width,
                        },
                    },
                )
            }
        },
        ActionV::Highlighter { transforms, points, color, width } => {
            if points.len() < 2 {
                seq![
                    RenderOpV {
                        transforms: live + transforms,
                        shape: ShapeV::HighlightDot { center: points.last(), color, width },
                    },
                ]
            } else {
                Seq::new(
                    (points.len() - 1) as nat,
                    |i: int| RenderOpV {
                        transforms: live + transforms,
                        shape: ShapeV::HighlightLine {
                            from: points[i],
                            to: points[i + 1],
                            color,
                            width,
                        },
                    },
                )
            }
        },
        ActionV::Rectangle { transforms, corner1, corner2, color, filled, width } => seq![
            RenderOpV {
                transforms: live + transforms,
                shape: ShapeV::Rect { corner1, corner2, color, filled, width },
            },
        ],
        ActionV::Circle { transforms, center, radius_sq, color, filled, width } => seq![
            RenderOpV {
                transforms: live + transforms,
                shape: ShapeV::Circle { center, radius_sq, color, filled, width },
            },
        ],
        ActionV::Ellipse { transforms, corner1, corner2, color, filled, width } => seq![
            RenderOpV {
                transforms: live + transforms,
                shape: ShapeV::Ellipse { corner1, corner2, color, filled, width },
            },
        ],
        ActionV::Arrow { transforms, start, end, color, width } => seq![
            RenderOpV {
                transforms: live + transforms,
                shape: ShapeV::Arrow { start, end, color, width },
            },
        ],
        ActionV::Text { transforms, position, content, color, font_size } => seq![
            RenderOpV {
                transforms: live + transforms,
                shape: ShapeV::Text { position, content, color, font_size },
            },
        ],
        ActionV::Crop { start, end, .. } => {
            if crop_active {
                seq![
                    RenderOpV {
                        transforms: Seq::empty(),
                        shape: ShapeV::CropOverlay { start, end },
                    },
                ]
            } else {
                Seq::empty()
            }
        },
    }
}

/// The draw operations of the base image and the first `n` annotations.
pub open spec fn plan_upto(s: AppStateV, n: int) -> Seq<RenderOpV>
    decreases n,
{
    if n <= 0 {
        seq![RenderOpV { transforms: s.transforms, shape: ShapeV::Image }]
    } else {
        plan_upto(s, n - 1) + action_ops(s.actions[n - 1], s.transforms, s.crop_active)
    }
}

/// The full frame: the base image under the live stack, then every
/// annotation of the undo stack, oldest first.
pub open spec fn render_plan_spec(s: AppStateV) -> Seq<RenderOpV> {
    plan_upto(s, s.actions.len() as int)
}

/// Copies a text annotation's content for its draw operation.
fn copy_chars(v: &Vec<char>) -> (r: Vec<char>)
    ensures
        r@ == v@,
{
    let mut r: Vec<char> = Vec::new();
    let mut i: usize = 0;
    while i < v.len()
        invariant
            i <= v.len(),
            r@ == v@.take(i as int),
        decreases v.len() - i,
    {
        r.push(v[i]);
        i += 1;
        proof {
            assert(r@ =~= v@.take(i as int));
        }
    }
    proof {
        assert(v@.take(v.len() as int) =~= v@);
    }
    r
}

/// The draw operations of one annotation, as `action_ops` states them.
fn action_ops_exec(a: &Action, live: &Vec<Flip>, crop_active: bool) -> (ops: Vec<RenderOp>)
    requires
        action_wf(a@),
    ensures
        ops_view(ops@) == action_ops(a@, live@, crop_active),
{
    let mut ops: Vec<RenderOp> = Vec::new();
    match a {
        Action::Pen { transforms, points, color, width } => {
            if points.len() < 2 {
                ops.push(RenderOp {
                    transforms: concat_flips(live, transforms),
                    shape: Shape::PenDot {
                        center: points[points.len() - 1],
                        color: *color,
                        width: *width,
                    },
                });
            } else {
                let full = concat_flips(live, transforms);
                let mut j: usize = 0;
                while j < points.len() - 1
                    invariant
                        points.len() >= 2,
                        j <= points.len() - 1,
                        full@ == live@ + transforms@,
                        action_wf(a@),
                        a@ == (ActionV::Pen {
                            transforms: transforms@,
                            points: points@,
                            color: *color,
                            width: *width,
                        }),
                        ops_view(ops@) == action_ops(a@, live@, crop_active).take(j as int),
                    decreases points.len() - 1 - j,
                {
                    proof {
                        let target0 = action_ops(a@, live@, crop_active);
                        assert(target0.len() == points@.len() - 1);
                        assert(target0.take(j as int).len() == j);
                        assert(ops_view(ops@).len() == ops@.len());
                        assert(ops@.len() == j);
                    }
                    ops.push(RenderOp {
                        transforms: copy_flips(&full),
                        shape: Shape::PenLine {
                            from: points[j],
                            to: points[j + 1],
                            color: *color,
                            width: *width,
                        },
                    });
                    j += 1;
                    proof {
                        assert(ops_view(ops@) =~= action_ops(a@, live@, crop_active).take(
                            j as int,
                        ));
                    }
                }
                proof {
                    assert(action_ops(a@, live@, crop_active).take(
                        (points@.len() - 1) as int,
                    ) =~= action_ops(a@, live@, crop_active));
                }
            }
        },
        Action::Highlighter { transforms, points, color, width } => {
            if points.len() < 2 {
                ops.push(RenderOp {
                    transforms: concat_flips(live, transforms),
                    shape: Shape::HighlightDot {
                        center: points[points.len() - 1],
                        color: *color,
                        width: *width,
                    },
                });
            } else {
                let full = concat_flips(live, transforms);
                let mut j: usize = 0;
                while j < points.len() - 1
                    invariant
                        points.len() >= 2,
                        j <= points.len() - 1,
                        full@ == live@ + transforms@,
                        action_wf(a@),
                        a@ == (ActionV::Highlighter {
                            transforms: transforms@,
                            points: points@,
                            color: *color,
                            width: *width,
                        }),
                        ops_view(ops@) == action_ops(a@, live@, crop_active).take(j as int),
                    decreases points.len() - 1 - j,
                {
                    proof {
                        let target0 = action_ops(a@, live@, crop_active);
                        assert(target0.len() == points@.len() - 1);
                        assert(target0.take(j as int).len() == j);
                        assert(ops_view(ops@).len() == ops@.len());
                        assert(ops@.len() == j);
                    }
                    ops.push(RenderOp {
                        transforms: copy_flips(&full),
                        shape: Shape::HighlightLine {
                            from: points[j],
                            to: points[j + 1],
                            color: *color,
                            width: *width,
                        },
                    });
                    j += 1;
                    proof {
                        assert(ops_view(ops@) =~= action_ops(a@, live@, crop_active).take(
                            j as int,
                        ));
                    }
                }
                proof {
                    assert(action_ops(a@, live@, crop_active).take(
                        (points@.len() - 1) as int,
                    ) =~= action_ops(a@, live@, crop_active));
                }
            }
        },
        Action::Rectangle { transforms, corner1, corner2, color, filled, width } => {
            ops.push(RenderOp {
                transforms: concat_flips(live, transforms),
                shape: Shape::Rect {
                    corner1: *corner1,
                    corner2: *corner2,
                    color: *color,
                    filled: *filled,
                    width: *width,
                },
            });
        },
        Action::Circle { transforms, center, radius_sq, color, filled, width } => {
            ops.push(RenderOp {
                transforms: concat_flips(live, transforms),
                shape: Shape::Circle {
                    center: *center,
                    radius_sq: *radius_sq,
                    color: *color,
                    filled: *filled,
                    width: *width,
                },
            });
        },
        Action::Ellipse { transforms, corner1, corner2, color, filled, width } => {
            ops.push(RenderOp {
                transforms: concat_flips(live, transforms),
                shape: Shape::Ellipse {
                    corner1: *corner1,
                    corner2: *corner2,
                    color: *color,
                    filled: *filled,
                    width: *width,
                },
            });
        },
        Action::Arrow { transforms, start, end, color, width } => {
            ops.push(RenderOp {
                transforms: concat_flips(live, transforms),
                shape: Shape::Arrow {
                    start: *start,
                    end: *end,
                    color: *color,
                    width: *width,
                },
            });
        },
        Action::Text { transforms, position, content, color, font_size } => {
            ops.push(RenderOp {
                transforms: concat_flips(live, transforms),
                shape: Shape::Text {
                    position: *position,
                    content: copy_chars(content),
                    color: *color,
                    font_size: *font_size,
                },
            });
        },
        Action::Crop { start, end, .. } => {
            if crop_active {
                ops.push(RenderOp {
                    transforms: Vec::new(),
                    shape: Shape::CropOverlay { start: *start, end: *end },
                });
            }
        },
    }
    proof {
        assert(ops_view(ops@) =~= action_ops(a@, live@, crop_active));
    }
    ops
}

impl AppState {
    /// The frame to draw for this state, as `render_plan_spec` states: the
    /// base image under the live flip stack first, then every annotation
    /// oldest to newest, each under the live stack followed by its own
    /// snapshot.
    pub fn render_plan(&self) -> (plan: Vec<RenderOp>)
        requires
            self@.wf(),
        ensures
            ops_view(plan@) == render_plan_spec(self@),
    {
        let mut plan: Vec<RenderOp> = Vec::new();
        plan.push(RenderOp { transforms: copy_flips(&self.transforms), shape: Shape::Image });
        proof {
            assert(ops_view(plan@) =~= plan_upto(self@, 0));
        }
        let mut i: usize = 0;
        while i < self.actions.len()
            invariant
                self@.wf(),
                i <= self.actions.len(),
                ops_view(plan@) == plan_upto(self@, i as int),
            decreases self.actions.len() - i,
        {
            proof {
                assert(action_wf(self@.actions[i as int]));
            }
            let mut ops = action_ops_exec(&self.actions[i], &self.transforms, self.crop_active);
            plan.append(&mut ops);
            i += 1;
            proof {
                assert(ops_view(plan@) =~= plan_upto(self@, i as int));
            }
        }
        plan
    }
}

/// The ops of one annotation after two identical flips were appended to
/// the live stack: as many, with the same shapes, and each transform list
/// maps every canvas point exactly as before.
proof fn lemma_action_ops_double_flip(
    a: ActionV,
    live: Seq<Flip>,
    f: Flip,
    crop_active: bool,
    w: int,
    h: int,
    p: (int, int),
)
    ensures
        ({
            let ops1 = action_ops(a, live, crop_active);
            let ops2 = action_ops(a, live.push(f).push(f), crop_active);
            ops2.len() == ops1.len() && forall|i: int|
                0 <= i < ops1.len() ==> (#[trigger] ops2[i]).shape == ops1[i].shape
                    && apply_flips(ops2[i].transforms, w, h, p) == apply_flips(
                    ops1[i].transforms,
                    w,
                    h,
                    p,
                )
        }),
{
    let live2 = live.push(f).push(f);
    let ops1 = action_ops(a, live, crop_active);
    let ops2 = action_ops(a, live2, crop_active);
    assert forall|i: int| 0 <= i < ops1.len() implies (#[trigger] ops2[i]).shape == ops1[i].shape
        && apply_flips(ops2[i].transforms, w, h, p) == apply_flips(ops1[i].transforms, w, h, p) by {
        let t1 = ops1[i].transforms;
        let t2 = ops2[i].transforms;
        if t1 =~= Seq::<Flip>::empty() && t2 =~= Seq::<Flip>::empty() {
        } else {
            let snap = match a {
                ActionV::Pen { transforms, .. } => transforms,
                ActionV::Highlighter { transforms, .. } => transforms,
                ActionV::Rectangle { transforms, .. } => transforms,
                ActionV::Circle { transforms, .. } => transforms,
                ActionV::Ellipse { transforms, .. } => transforms,
                ActionV::Arrow { transforms, .. } => transforms,
                ActionV::Text { transforms, .. } => transforms,
                ActionV::Crop { .. } => Seq::empty(),
            };
            assert(t1 == live + snap);
            assert(t2 == live2 + snap);
            let q = apply_flips(snap, w, h, p);
            lemma_apply_flips_concat(live, snap, w, h, p);
            lemma_apply_flips_concat(live2, snap, w, h, p);
            lemma_double_flip_identity(live, f, w, h, q);
        }
    }
}

/// Appending a flip and then the same flip again does not cancel in the
/// stack — the plan's transform lists grow by both entries — yet the frame
/// drawn is the same: operation for operation, the same shapes under
/// transform lists that send every canvas point exactly where they did
/// before.
pub proof fn lemma_plan_double_flip(s: AppStateV, f: Flip, w: int, h: int, p: (int, int))
    ensures
        ({
            let s2 = AppStateV { transforms: s.transforms.push(f).push(f), ..s };
            let plan1 = render_plan_spec(s);
            let plan2 = render_plan_spec(s2);
            s2.transforms.len() == s.transforms.len() + 2 && plan2.len() == plan1.len()
                && forall|i: int|
                0 <= i < plan1.len() ==> (#[trigger] plan2[i]).shape == plan1[i].shape
                    && apply_flips(plan2[i].transforms, w, h, p) == apply_flips(
                    plan1[i].transforms,
                    w,
                    h,
                    p,
                )
        }),
{
    let s2 = AppStateV { transforms: s.transforms.push(f).push(f), ..s };
    lemma_plan_upto_double_flip(s, f, s.actions.len() as int, w, h, p);
    assert(render_plan_spec(s) == plan_upto(s, s.actions.len() as int));
    assert(render_plan_spec(s2) == plan_upto(s2, s.actions.len() as int));
}

/// Induction behind `lemma_plan_double_flip`, over the annotation prefix.
proof fn lemma_plan_upto_double_flip(s: AppStateV, f: Flip, n: int, w: int, h: int, p: (int, int))
    requires
        n <= s.actions.len(),
    ensures
        ({
            let s2 = AppStateV { transforms: s.transforms.push(f).push(f), ..s };
            let plan1 = plan_upto(s, n);
            let plan2 = plan_upto(s2, n);
            plan2.len() == plan1.len() && forall|i: int|
                0 <= i < plan1.len() ==> (#[trigger] plan2[i]).shape == plan1[i].shape
                    && apply_flips(plan2[i].transforms, w, h, p) == apply_flips(
                    plan1[i].transforms,
                    w,
                    h,
                    p,
                )
        }),
    decreases n,
{
    let s2 = AppStateV { transforms: s.transforms.push(f).push(f), ..s };
    let plan1 = plan_upto(s, n);
    let plan2 = plan_upto(s2, n);
    if n <= 0 {
        lemma_double_flip_identity(s.transforms, f, w, h, p);
        assert(plan2[0].shape == plan1[0].shape);
    } else {
        lemma_plan_upto_double_flip(s, f, n - 1, w, h, p);
        lemma_action_ops_double_flip(s.actions[n - 1], s.transforms, f, s.crop_active, w, h, p);
        let pre1 = plan_upto(s, n - 1);
        let pre2 = plan_upto(s2, n - 1);
        let ops1 = action_ops(s.actions[n - 1], s.transforms, s.crop_active);
        let ops2 = action_ops(s.actions[n - 1], s2.transforms, s.crop_active);
        assert forall|i: int| 0 <= i < plan1.len() implies (#[trigger] plan2[i]).shape
            == plan1[i].shape && apply_flips(plan2[i].transforms, w, h, p) == apply_flips(
            plan1[i].transforms,
            w,
            h,
            p,
        ) by {
            if i < pre1.len() {
                assert(plan1[i] == pre1[i]);
                assert(plan2[i] == pre2[i]);
            } else {
                assert(plan1[i] == ops1[i - pre1.len()]);
                assert(plan2[i] == ops2[i - pre1.len()]);
            }
        }
    }
}

} // verus!
