//! Pending-selection resolution: from two window-space corners to a crop
//! rectangle in image pixels.
//!
//! Both corners are inverted through the view transform into image-space
//! fractions; each coordinate is clamped independently to `[0, dimension]`,
//! flooring negative values to zero and capping values beyond the image
//! bound; the two clamped corners are normalized into a top-left origin and
//! an absolute-difference size. A zero-area rectangle is a no-op, not an
//! error; a non-invertible transform defers the crop.

use vstd::arithmetic::div_mod::{lemma_div_basics_2, lemma_div_basics_4};
use vstd::prelude::*;

use crate::geom::{CropRect, Point2, Pt2V, RawSelection, Size2D, SizeV, DIM_MAX};
use crate::rat::{rat_of_int, rat_wf, Frac, RatV};
use crate::transform::{inv_pt, TransV, ViewTransform};

verus! {

/// The outcome of resolving a completed drag gesture.
///
/// `Deferred`: the transform was not invertible (the window collapsed
/// mid-drag); the selection is dropped, not retried. `NoOp`: the normalized
/// rectangle has zero area (a click without drag); nothing is cropped.
/// `Crop`: a positive-area rectangle within the image bounds.
#[derive(Clone, Copy, Debug, PartialEq, Eq, Structural)]
pub enum ResolveOutcome {
    Deferred,
    NoOp,
    Crop(CropRect),
}

/// The smaller of two integers.
pub open spec fn min2(a: int, b: int) -> int {
    if a <= b {
        a
    } else {
        b
    }
}

/// Absolute difference of two integers.
pub open spec fn absdiff(a: int, b: int) -> int {
    if a <= b {
        b - a
    } else {
        a - b
    }
}

/// Clamp an image-space fraction to `[0, dim]`: negative values floor to
/// zero, values beyond `dim` cap at `dim`, and anything between is truncated
/// to its integer part.
pub open spec fn clamp_rat(r: RatV, dim: int) -> int {
    if r.num <= 0 {
        0
    } else if r.num / r.den >= dim {
        dim
    } else {
        r.num / r.den
    }
}

/// Resolution of the drag `(a, b)` under transform `t` against an image of
/// size `image`: invert both corners, clamp, normalize, and classify.
pub open spec fn spec_resolve(t: TransV, a: Pt2V, b: Pt2V, image: SizeV) -> ResolveOutcome {
    if t.s_num <= 0 {
        ResolveOutcome::Deferred
    } else {
        let ia = inv_pt(t, a);
        let ib = inv_pt(t, b);
        let ax = clamp_rat(ia.x, image.width);
        let ay = clamp_rat(ia.y, image.height);
        let bx = clamp_rat(ib.x, image.width);
        let by = clamp_rat(ib.y, image.height);
        let w = absdiff(ax, bx);
        let h = absdiff(ay, by);
        if w == 0 || h == 0 {
            ResolveOutcome::NoOp
        } else {
            ResolveOutcome::Crop(
                CropRect {
                    x: min2(ax, bx) as u32,
                    y: min2(ay, by) as u32,
                    width: w as u32,
                    height: h as u32,
                },
            )
        }
    }
}

/// Clamp one coordinate of an inverted point to `[0, dim]`.
pub fn clamp_to_dim(c: &Frac, dim: u32) -> (r: u32)
    requires
        c.wf(),
        dim <= DIM_MAX,
    ensures
        r == clamp_rat(c@, dim as int),
        r <= dim,
{
    if c.num <= 0 {
        proof {
            lemma_div_basics_4(c@.num, c@.den);
        }
        0
    } else {
        let q: u128 = (c.num as u128) / (c.den as u128);
        proof {
            lemma_div_basics_4(c@.num, c@.den);
        }
        if q >= dim as u128 {
            dim
        } else {
            q as u32
        }
    }
}

/// Normalize two clamped corners into a top-left origin and an
/// absolute-difference size, free of unsigned underflow by construction.
pub fn normalize_rect(ax: u32, ay: u32, bx: u32, by: u32) -> (r: CropRect)
    ensures
        r.x == min2(ax as int, bx as int),
        r.y == min2(ay as int, by as int),
        r.width == absdiff(ax as int, bx as int),
        r.height == absdiff(ay as int, by as int),
{
    let (x, width) = if ax <= bx {
        (ax, bx - ax)
    } else {
        (bx, ax - bx)
    };
    let (y, height) = if ay <= by {
        (ay, by - ay)
    } else {
        (by, ay - by)
    };
    CropRect { x, y, width, height }
}

/// Resolve a completed drag gesture against the current transform and image
/// size.
///
/// Returns `Deferred` exactly when the transform is not invertible; `NoOp`
/// exactly when the normalized rectangle has zero width or height; otherwise
/// a positive-area `CropRect` lying within the image bounds.
pub fn resolve_selection(t: &ViewTransform, sel: &RawSelection, image: Size2D) -> (r:
    ResolveOutcome)
    requires
        t.wf(),
        sel.bounded(),
        image.bounded(),
    ensures
        r == spec_resolve(t@, sel.a@, sel.b@, image@),
        r matches ResolveOutcome::Crop(c) ==> c.within(image@) && !c.degenerate(),
{
    if !t.is_invertible() {
        return ResolveOutcome::Deferred;
    }
    let ia = match t.inverse(&sel.a) {
        Ok(p) => p,
        Err(_) => {
            proof {
                assert(false);
            }
            return ResolveOutcome::Deferred;
        },
    };
    let ib = match t.inverse(&sel.b) {
        Ok(p) => p,
        Err(_) => {
            proof {
                assert(false);
            }
            return ResolveOutcome::Deferred;
        },
    };
    let ax = clamp_to_dim(&ia.x, image.width);
    let ay = clamp_to_dim(&ia.y, image.height);
    let bx = clamp_to_dim(&ib.x, image.width);
    let by = clamp_to_dim(&ib.y, image.height);
    let rect = normalize_rect(ax, ay, bx, by);
    if rect.width == 0 || rect.height == 0 {
        ResolveOutcome::NoOp
    } else {
        ResolveOutcome::Crop(rect)
    }
}

/// Normalization symmetry law: resolving the drag `(p, q)` yields the same
/// outcome as resolving `(q, p)`, for every transform, pair of window-space
/// points, and image size.
pub proof fn lemma_resolve_symmetric(t: TransV, p: Pt2V, q: Pt2V, image: SizeV)
    ensures
        spec_resolve(t, p, q, image) == spec_resolve(t, q, p, image),
{
}

/// Clamping law, first half: clamping an already-in-bounds integer
/// coordinate is a no-op.
pub proof fn lemma_clamp_inbounds_noop(c: int, dim: int)
    requires
        0 <= c <= dim,
    ensures
        clamp_rat(rat_of_int(c), dim) == c,
{
    lemma_div_basics_2(c);
}

/// Clamping law, second half: clamping a coordinate twice equals clamping it
/// once.
pub proof fn lemma_clamp_idempotent(r: RatV, dim: int)
    requires
        rat_wf(r),
        dim >= 0,
    ensures
        clamp_rat(rat_of_int(clamp_rat(r, dim)), dim) == clamp_rat(r, dim),
{
    lemma_div_basics_4(r.num, r.den);
    lemma_clamp_inbounds_noop(clamp_rat(r, dim), dim);
}

/// No-op-on-click law: a press and release at the same pointer position
/// yields no crop rectangle — a no-op under an invertible transform, a
/// deferral otherwise.
pub proof fn lemma_click_is_noop(t: TransV, p: Pt2V, image: SizeV)
    ensures
        t.s_num > 0 ==> spec_resolve(t, p, p, image) == ResolveOutcome::NoOp,
        t.s_num <= 0 ==> spec_resolve(t, p, p, image) == ResolveOutcome::Deferred,
{
}

} // verus!
