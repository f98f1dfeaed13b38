//! Plain geometry: viewport points, pixel dimensions, canvas flips and the
//! point mapping a replayed flip stack performs.

use vstd::prelude::*;

verus! {

/// Largest coordinate magnitude the engine accepts from a pointer event.
/// Keeping coordinates this small lets every geometric computation stay
/// inside `i64`/`u64` arithmetic.
pub const COORD_BOUND: i64 = 0x4000_0000;

/// A position in viewport coordinates (canvas pixels, origin top-left).
#[derive(Clone, Copy, PartialEq, Eq, Structural, Debug)]
pub struct Point {
    pub x: i64,
    pub y: i64,
}

impl Point {
    /// Coordinates small enough for overflow-free squared distances.
    pub open spec fn in_range(self) -> bool {
        -COORD_BOUND <= self.x <= COORD_BOUND && -COORD_BOUND <= self.y <= COORD_BOUND
    }

    pub fn new(x: i64, y: i64) -> (p: Point)
        ensures
            p == (Point { x, y }),
    {
        Point { x, y }
    }

    pub open spec fn origin_spec() -> Point {
        Point { x: 0, y: 0 }
    }

    pub fn origin() -> (p: Point)
        ensures
            p == Point::origin_spec(),
    {
        Point { x: 0, y: 0 }
    }
}

/// Pixel dimensions of an image or of the viewport.
#[derive(Clone, Copy, PartialEq, Eq, Structural, Debug)]
pub struct Dims {
    pub w: u32,
    pub h: u32,
}

impl Dims {
    pub fn new(w: u32, h: u32) -> (d: Dims)
        ensures
            d == (Dims { w, h }),
    {
        Dims { w, h }
    }
}

/// The squared euclidean distance between two points.
pub open spec fn dist_sq_spec(a: Point, b: Point) -> int {
    (a.x - b.x) * (a.x - b.x) + (a.y - b.y) * (a.y - b.y)
}

/// Squared euclidean distance; exact, since the engine stores a circle's
/// radius as this square rather than as the rounded root.
pub fn dist_sq(a: Point, b: Point) -> (d: u64)
    requires
        a.in_range(),
        b.in_range(),
    ensures
        d == dist_sq_spec(a, b),
{
    let dx: i64 = a.x - b.x;
    let dy: i64 = a.y - b.y;
    proof {
        assert(dx * dx <= 0x4000_0000_0000_0000 && dx * dx >= 0) by (nonlinear_arith)
            requires
                -0x8000_0000 <= dx <= 0x8000_0000,
        ;
        assert(dy * dy <= 0x4000_0000_0000_0000 && dy * dy >= 0) by (nonlinear_arith)
            requires
                -0x8000_0000 <= dy <= 0x8000_0000,
        ;
    }
    let sx: u64 = (dx * dx) as u64;
    let sy: u64 = (dy * dy) as u64;
    sx + sy
}

/// One canvas-wide flip, applied about the canvas center.
#[derive(Clone, Copy, PartialEq, Eq, Structural, Debug)]
pub enum Flip {
    Vertical,
    Horizontal,
}

/// Where a single flip sends a canvas point, on a canvas of extent `w` by
/// `h`. A renderer realizes this as the axis mirror followed by the
/// translation that keeps the canvas anchored to its viewport rectangle.
pub open spec fn flip_point(f: Flip, w: int, h: int, p: (int, int)) -> (int, int) {
    match f {
        Flip::Vertical => (p.0, h - p.1),
        Flip::Horizontal => (w - p.0, p.1),
    }
}

/// Where a whole flip stack sends a canvas point when replayed in order.
/// Replaying appends each entry to the render transform, so the entry
/// appended last acts on the drawn point first.
pub open spec fn apply_flips(fs: Seq<Flip>, w: int, h: int, p: (int, int)) -> (int, int)
    decreases fs.len(),
{
    if fs.len() == 0 {
        p
    } else {
        apply_flips(fs.drop_last(), w, h, flip_point(fs.last(), w, h, p))
    }
}

/// Copies a flip stack, for taking an annotation's transform snapshot.
pub fn copy_flips(ts: &Vec<Flip>) -> (r: Vec<Flip>)
    ensures
        r@ == ts@,
{
    let mut r: Vec<Flip> = Vec::new();
    let mut i: usize = 0;
    while i < ts.len()
        invariant
            i <= ts.len(),
            r@ == ts@.take(i as int),
        decreases ts.len() - i,
    {
        r.push(ts[i]);
        i += 1;
        proof {
            assert(r@ =~= ts@.take(i as int));
        }
    }
    proof {
        assert(ts@.take(ts.len() as int) =~= ts@);
    }
    r
}

/// Concatenates two flip stacks, for composing the live stack with an
/// annotation's snapshot.
pub fn concat_flips(a: &Vec<Flip>, b: &Vec<Flip>) -> (r: Vec<Flip>)
    ensures
        r@ == a@ + b@,
{
    let mut r = copy_flips(a);
    let mut i: usize = 0;
    while i < b.len()
        invariant
            i <= b.len(),
            r@ == a@ + b@.take(i as int),
        decreases b.len() - i,
    {
        r.push(b[i]);
        i += 1;
        proof {
            assert(r@ =~= a@ + b@.take(i as int));
        }
    }
    proof {
        assert(a@ + b@.take(b.len() as int) =~= a@ + b@);
    }
    r
}

/// A flip undoes itself pointwise.
pub proof fn lemma_flip_involution(f: Flip, w: int, h: int, p: (int, int))
    ensures
        flip_point(f, w, h, flip_point(f, w, h, p)) == p,
{
}

/// Replaying a concatenation of flip stacks maps a point through the
/// second stack first: exactly how a renderer that applies the live stack
/// and then an annotation's snapshot composes them.
pub proof fn lemma_apply_flips_concat(a: Seq<Flip>, b: Seq<Flip>, w: int, h: int, p: (int, int))
    ensures
        apply_flips(a + b, w, h, p) == apply_flips(a, w, h, apply_flips(b, w, h, p)),
    decreases b.len(),
{
    if b.len() == 0 {
        assert(a + b =~= a);
    } else {
        assert((a + b).last() == b.last());
        assert((a + b).drop_last() =~= a + b.drop_last());
        lemma_apply_flips_concat(a, b.drop_last(), w, h, flip_point(b.last(), w, h, p));
    }
}

/// Appending a flip twice leaves every entry in the stack — nothing is
/// simplified away — yet the replayed mapping returns to what it was: the
/// canvas looks as it did before the pair.
pub proof fn lemma_double_flip_identity(fs: Seq<Flip>, f: Flip, w: int, h: int, p: (int, int))
    ensures
        fs.push(f).push(f).len() == fs.len() + 2,
        apply_flips(fs.push(f).push(f), w, h, p) == apply_flips(fs, w, h, p),
{
    let twice = fs.push(f).push(f);
    let once = fs.push(f);
    let q = flip_point(f, w, h, p);
    assert(twice.last() == f);
    assert(twice.drop_last() =~= once);
    assert(apply_flips(twice, w, h, p) == apply_flips(once, w, h, q));
    assert(once.last() == f);
    assert(once.drop_last() =~= fs);
    assert(apply_flips(once, w, h, q) == apply_flips(fs, w, h, flip_point(f, w, h, q)));
    lemma_flip_involution(f, w, h, p);
}

} // verus!
