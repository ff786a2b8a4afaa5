//! The view transform: fit-to-window scaling and centering, with its exact
//! algebraic inverse.
//!
//! The transform is a pure scale-then-translate similarity map from image
//! space to window space, recomputed each frame from the window size, the
//! image size and the fit margin. Its scale is the exact rational
//! `min(window_w/image_w, window_h/image_h) * margin`, and its translation
//! places the image center at the window center. All values are exact
//! fractions, so the transform is invertible exactly when its scale is
//! non-zero.

use vstd::prelude::*;

use crate::geom::{CropError, FitMargin, Point2, Pt2V, Size2D, SizeV, DIM_MAX};
use crate::rat::{
    lemma_mul_abs_bound, lemma_mul_pos, rat_add, rat_div, rat_eq, rat_mul, rat_sub, rat_wf, Frac,
    RatV, DEN_MAX, NUM_MAX,
};

verus! {

/// Largest value the scale numerator or denominator can take.
pub const SCALE_MAX: u64 = 0x1_0000_0000_0000;

/// Largest magnitude the translation numerators can take.
pub const TRANS_MAX: i128 = 0x1_0000_0000_0000_0000_00;

/// Ghost model of a view transform.
///
/// The scale factor is `s_num / s_den`; the translation moving the scaled
/// image's origin into the window is `(tx / (2 * s_den), ty / (2 * s_den))`.
pub ghost struct TransV {
    pub s_num: int,
    pub s_den: int,
    pub tx: int,
    pub ty: int,
}

/// The scale factor of a transform, as a rational.
pub open spec fn scale_of(t: TransV) -> RatV {
    RatV { num: t.s_num, den: t.s_den }
}

/// The x translation of a transform, as a rational.
pub open spec fn trans_x_of(t: TransV) -> RatV {
    RatV { num: t.tx, den: 2 * t.s_den }
}

/// The y translation of a transform, as a rational.
pub open spec fn trans_y_of(t: TransV) -> RatV {
    RatV { num: t.ty, den: 2 * t.s_den }
}

/// A well-formed transform: positive scale denominator, non-negative scale,
/// and every field within the engine's arithmetic limits.
pub open spec fn trans_wf(t: TransV) -> bool {
    &&& 0 < t.s_den <= SCALE_MAX
    &&& 0 <= t.s_num <= SCALE_MAX
    &&& -TRANS_MAX <= t.tx <= TRANS_MAX
    &&& -TRANS_MAX <= t.ty <= TRANS_MAX
}

/// The transform that fits an image of size `image` into a window of size
/// `window`, scaled down by `margin` and centered.
///
/// The scale is the smaller of the two axis ratios times the margin; with
/// the width ratio the smaller one, it is `(window.width * margin.num) /
/// (image.width * margin.den)`. The translation places the image center at
/// the window center: the image origin maps to
/// `(window.width/2 - image.width*scale/2, window.height/2 - image.height*scale/2)`.
pub open spec fn spec_compute(window: SizeV, image: SizeV, margin: RatV) -> TransV {
    let wide = window.width * image.height <= window.height * image.width;
    let s_num = if wide {
        window.width * margin.num
    } else {
        window.height * margin.num
    };
    let s_den = if wide {
        image.width * margin.den
    } else {
        image.height * margin.den
    };
    TransV {
        s_num,
        s_den,
        tx: window.width * s_den - image.width * s_num,
        ty: window.height * s_den - image.height * s_num,
    }
}

/// Forward map of one coordinate: `scale * r + (tr / (2 * s_den))`, written
/// over the common denominator `2 * s_den * r.den`.
pub open spec fn fwd1(s_num: int, s_den: int, tr: int, r: RatV) -> RatV {
    RatV { num: 2 * s_num * r.num + tr * r.den, den: 2 * s_den * r.den }
}

/// Inverse map of one coordinate: `(r - tr / (2 * s_den)) / scale`, written
/// over the common denominator `2 * s_num * r.den`.
pub open spec fn inv1(s_num: int, s_den: int, tr: int, r: RatV) -> RatV {
    RatV { num: 2 * s_den * r.num - tr * r.den, den: 2 * s_num * r.den }
}

/// Forward map of a point from image space to window space.
pub open spec fn fwd_pt(t: TransV, p: Pt2V) -> Pt2V {
    Pt2V { x: fwd1(t.s_num, t.s_den, t.tx, p.x), y: fwd1(t.s_num, t.s_den, t.ty, p.y) }
}

/// Inverse map of a point from window space to image space.
pub open spec fn inv_pt(t: TransV, p: Pt2V) -> Pt2V {
    Pt2V { x: inv1(t.s_num, t.s_den, t.tx, p.x), y: inv1(t.s_num, t.s_den, t.ty, p.y) }
}

/// The center point of a size, each coordinate a half-integer.
pub open spec fn center_of(s: SizeV) -> Pt2V {
    Pt2V { x: RatV { num: s.width, den: 2 }, y: RatV { num: s.height, den: 2 } }
}

/// Scaling numerator and denominator by the same factor keeps the value.
proof fn lemma_scaled_eq(a: RatV, b: RatV, k: int)
    requires
        b.num == k * a.num,
        b.den == k * a.den,
    ensures
        rat_eq(a, b),
{
    assert(a.num * (k * a.den) == (k * a.num) * a.den) by (nonlinear_arith);
}

/// `fwd1` is exactly "apply the scale, then the translation".
proof fn lemma_fwd1_is_affine(s_num: int, s_den: int, tr: int, r: RatV)
    ensures
        rat_eq(
            fwd1(s_num, s_den, tr, r),
            rat_add(rat_mul(RatV { num: s_num, den: s_den }, r), RatV { num: tr, den: 2 * s_den }),
        ),
{
    let a = fwd1(s_num, s_den, tr, r);
    let b = rat_add(
        rat_mul(RatV { num: s_num, den: s_den }, r),
        RatV { num: tr, den: 2 * s_den },
    );
    assert(b.num == s_den * a.num) by (nonlinear_arith)
        requires
            a.num == 2 * s_num * r.num + tr * r.den,
            b.num == (s_num * r.num) * (2 * s_den) + tr * (s_den * r.den),
    ;
    assert(b.den == s_den * a.den) by (nonlinear_arith)
        requires
            a.den == 2 * s_den * r.den,
            b.den == (s_den * r.den) * (2 * s_den),
    ;
    lemma_scaled_eq(a, b, s_den);
}

/// `inv1` is exactly "subtract the translation, then divide by the scale".
proof fn lemma_inv1_is_div(s_num: int, s_den: int, tr: int, r: RatV)
    ensures
        rat_eq(
            inv1(s_num, s_den, tr, r),
            rat_div(rat_sub(r, RatV { num: tr, den: 2 * s_den }), RatV { num: s_num, den: s_den }),
        ),
{
    let a = inv1(s_num, s_den, tr, r);
    let b = rat_div(
        rat_sub(r, RatV { num: tr, den: 2 * s_den }),
        RatV { num: s_num, den: s_den },
    );
    assert(b.num == s_den * a.num) by (nonlinear_arith)
        requires
            a.num == 2 * s_den * r.num - tr * r.den,
            b.num == (r.num * (2 * s_den) - tr * r.den) * s_den,
    ;
    assert(b.den == s_den * a.den) by (nonlinear_arith)
        requires
            a.den == 2 * s_num * r.den,
            b.den == (r.den * (2 * s_den)) * s_num,
    ;
    lemma_scaled_eq(a, b, s_den);
}

/// Round trip of one coordinate: inverting the forward map gives the
/// original value back, whenever the scale is positive.
proof fn lemma_round_trip1(s_num: int, s_den: int, tr: int, r: RatV)
    requires
        s_num > 0,
        s_den > 0,
        rat_wf(r),
    ensures
        rat_eq(inv1(s_num, s_den, tr, fwd1(s_num, s_den, tr, r)), r),
        rat_wf(inv1(s_num, s_den, tr, fwd1(s_num, s_den, tr, r))),
{
    let f = fwd1(s_num, s_den, tr, r);
    let v = inv1(s_num, s_den, tr, f);
    assert(v.num * r.den == r.num * v.den) by (nonlinear_arith)
        requires
            v.num == 2 * s_den * (2 * s_num * r.num + tr * r.den) - tr * (2 * s_den * r.den),
            v.den == 2 * s_num * (2 * s_den * r.den),
    ;
    assert(v.den > 0) by (nonlinear_arith)
        requires
            v.den == 2 * s_num * (2 * s_den * r.den),
            s_num > 0,
            s_den > 0,
            r.den > 0,
    ;
}

/// Transform round-trip law: for every window and image size with positive
/// components and every margin in `(0, 1]`, inverting the forward map of the
/// computed transform gives back any point exactly.
pub proof fn lemma_round_trip(window: SizeV, image: SizeV, margin: RatV, p: Pt2V)
    requires
        window.width > 0,
        window.height > 0,
        image.width > 0,
        image.height > 0,
        0 < margin.num <= margin.den,
        rat_wf(p.x),
        rat_wf(p.y),
    ensures
        ({
            let t = spec_compute(window, image, margin);
            &&& rat_eq(inv_pt(t, fwd_pt(t, p)).x, p.x)
            &&& rat_eq(inv_pt(t, fwd_pt(t, p)).y, p.y)
        }),
{
    let t = spec_compute(window, image, margin);
    assert(t.s_num > 0 && t.s_den > 0) by (nonlinear_arith)
        requires
            t.s_num == if window.width * image.height <= window.height * image.width {
                window.width * margin.num
            } else {
                window.height * margin.num
            },
            t.s_den == if window.width * image.height <= window.height * image.width {
                image.width * margin.den
            } else {
                image.height * margin.den
            },
            window.width > 0,
            window.height > 0,
            image.width > 0,
            image.height > 0,
            margin.num > 0,
            margin.den > 0,
    ;
    lemma_round_trip1(t.s_num, t.s_den, t.tx, p.x);
    lemma_round_trip1(t.s_num, t.s_den, t.ty, p.y);
}

/// Centering law: the image-space center point always maps to the
/// window-space center point, for every valid image size and margin.
pub proof fn lemma_centering(window: SizeV, image: SizeV, margin: RatV)
    requires
        window.width >= 0,
        window.height >= 0,
        image.width > 0,
        image.height > 0,
        0 < margin.num <= margin.den,
    ensures
        ({
            let t = spec_compute(window, image, margin);
            &&& rat_eq(fwd_pt(t, center_of(image)).x, center_of(window).x)
            &&& rat_eq(fwd_pt(t, center_of(image)).y, center_of(window).y)
        }),
{
    let t = spec_compute(window, image, margin);
    let fx = fwd_pt(t, center_of(image)).x;
    let fy = fwd_pt(t, center_of(image)).y;
    assert(fx.num * 2 == window.width * fx.den) by (nonlinear_arith)
        requires
            fx.num == 2 * t.s_num * image.width + t.tx * 2,
            fx.den == 2 * t.s_den * 2,
            t.tx == window.width * t.s_den - image.width * t.s_num,
    ;
    assert(fy.num * 2 == window.height * fy.den) by (nonlinear_arith)
        requires
            fy.num == 2 * t.s_num * image.height + t.ty * 2,
            fy.den == 2 * t.s_den * 2,
            t.ty == window.height * t.s_den - image.height * t.s_num,
    ;
}

/// The view transform: an exact fit-to-window scale and centering
/// translation, recomputed each frame, never persisted.
///
/// The scale factor is `s_num / s_den`; the translation is
/// `(tx / (2 * s_den), ty / (2 * s_den))`.
#[derive(Clone, Copy, Debug, PartialEq, Eq, Structural)]
pub struct ViewTransform {
    pub s_num: u64,
    pub s_den: u64,
    pub tx: i128,
    pub ty: i128,
}

impl View for ViewTransform {
    type V = TransV;

    open spec fn view(&self) -> TransV {
        TransV {
            s_num: self.s_num as int,
            s_den: self.s_den as int,
            tx: self.tx as int,
            ty: self.ty as int,
        }
    }
}

impl ViewTransform {
    /// The stored fields are within the engine's arithmetic limits.
    pub open spec fn wf(self) -> bool {
        trans_wf(self@)
    }

    /// Compute the transform for the given window size, image size and fit
    /// margin.
    ///
    /// Fails with `InvalidImageSize` exactly when either image dimension is
    /// zero. A zero window dimension is allowed: the resulting transform has
    /// scale zero and is simply not invertible.
    pub fn compute(window: Size2D, image: Size2D, margin: FitMargin) -> (r: Result<
        ViewTransform,
        CropError,
    >)
        requires
            window.bounded(),
            image.bounded(),
            margin.wf(),
        ensures
            image.positive() ==> (r matches Ok(t) && t@ == spec_compute(window@, image@, margin@)
                && t.wf()),
            !image.positive() ==> r == Err::<ViewTransform, CropError>(CropError::InvalidImageSize),
    {
        if image.width == 0 || image.height == 0 {
            return Err(CropError::InvalidImageSize);
        }
        proof {
            lemma_mul_abs_bound(window.width as int, image.height as int, DIM_MAX as int, DIM_MAX as int);
            lemma_mul_abs_bound(window.height as int, image.width as int, DIM_MAX as int, DIM_MAX as int);
            lemma_mul_abs_bound(window.width as int, margin.num as int, DIM_MAX as int, DIM_MAX as int);
            lemma_mul_abs_bound(window.height as int, margin.num as int, DIM_MAX as int, DIM_MAX as int);
            lemma_mul_abs_bound(image.width as int, margin.den as int, DIM_MAX as int, DIM_MAX as int);
            lemma_mul_abs_bound(image.height as int, margin.den as int, DIM_MAX as int, DIM_MAX as int);
        }
        let wide: bool = (window.width as u64) * (image.height as u64) <= (window.height as u64)
            * (image.width as u64);
        let s_num: u64 = if wide {
            (window.width as u64) * (margin.num as u64)
        } else {
            (window.height as u64) * (margin.num as u64)
        };
        let s_den: u64 = if wide {
            (image.width as u64) * (margin.den as u64)
        } else {
            (image.height as u64) * (margin.den as u64)
        };
        proof {
            lemma_mul_abs_bound(window.width as int, s_den as int, DIM_MAX as int, SCALE_MAX as int);
            lemma_mul_abs_bound(image.width as int, s_num as int, DIM_MAX as int, SCALE_MAX as int);
            lemma_mul_abs_bound(window.height as int, s_den as int, DIM_MAX as int, SCALE_MAX as int);
            lemma_mul_abs_bound(image.height as int, s_num as int, DIM_MAX as int, SCALE_MAX as int);
            assert(s_den > 0) by (nonlinear_arith)
                requires
                    s_den == if window@.width * image@.height <= window@.height * image@.width {
                        image@.width * margin@.den
                    } else {
                        image@.height * margin@.den
                    },
                    image@.width > 0,
                    image@.height > 0,
                    margin@.den > 0,
            ;
        }
        let tx: i128 = (window.width as i128) * (s_den as i128) - (image.width as i128) * (
        s_num as i128);
        let ty: i128 = (window.height as i128) * (s_den as i128) - (image.height as i128) * (
        s_num as i128);
        Ok(ViewTransform { s_num, s_den, tx, ty })
    }

    /// Whether the transform can be inverted: true exactly when the scale is
    /// non-zero.
    pub fn is_invertible(&self) -> (r: bool)
        ensures
            r == (self@.s_num > 0),
    {
        self.s_num > 0
    }

    /// Apply the transform to an image-space point: scale, then translate,
    /// yielding the window-space point, exactly.
    pub fn forward(&self, p: &Point2) -> (r: Point2)
        requires
            self.wf(),
            p.bounded(),
        ensures
            r@ == fwd_pt(self@, p@),
            r.wf(),
            rat_eq(r@.x, rat_add(rat_mul(scale_of(self@), p@.x), trans_x_of(self@))),
            rat_eq(r@.y, rat_add(rat_mul(scale_of(self@), p@.y), trans_y_of(self@))),
    {
        proof {
            let sn = self.s_num as int;
            let sd = self.s_den as int;
            lemma_mul_abs_bound(2 * sn, p.x.num as int, 2 * (SCALE_MAX as int), NUM_MAX as int);
            lemma_mul_abs_bound(2 * sn, p.y.num as int, 2 * (SCALE_MAX as int), NUM_MAX as int);
            lemma_mul_abs_bound(self.tx as int, p.x.den as int, TRANS_MAX as int, DEN_MAX as int);
            lemma_mul_abs_bound(self.ty as int, p.y.den as int, TRANS_MAX as int, DEN_MAX as int);
            lemma_mul_abs_bound(2 * sd, p.x.den as int, 2 * (SCALE_MAX as int), DEN_MAX as int);
            lemma_mul_abs_bound(2 * sd, p.y.den as int, 2 * (SCALE_MAX as int), DEN_MAX as int);
            lemma_mul_pos(2 * sd, p.x.den as int);
            lemma_mul_pos(2 * sd, p.y.den as int);
            lemma_fwd1_is_affine(sn, sd, self.tx as int, p.x@);
            lemma_fwd1_is_affine(sn, sd, self.ty as int, p.y@);
        }
        let nx: i128 = 2 * (self.s_num as i128) * p.x.num + self.tx * p.x.den;
        let dx: i128 = 2 * (self.s_den as i128) * p.x.den;
        let ny: i128 = 2 * (self.s_num as i128) * p.y.num + self.ty * p.y.den;
        let dy: i128 = 2 * (self.s_den as i128) * p.y.den;
        Point2 {
            x: Frac { num: nx, den: dx },
            y: Frac { num: ny, den: dy },
        }
    }

    /// Apply the exact algebraic inverse to a window-space point: translate
    /// back, then divide by the scale, yielding the image-space point.
    ///
    /// Fails with `NonInvertible` exactly when the scale is zero; callers
    /// must then skip the pending crop for this frame rather than corrupt it.
    pub fn inverse(&self, q: &Point2) -> (r: Result<Point2, CropError>)
        requires
            self.wf(),
            q.bounded(),
        ensures
            r is Ok <==> self@.s_num > 0,
            r matches Ok(p) ==> p@ == inv_pt(self@, q@) && p.wf() && rat_eq(
                p@.x,
                rat_div(rat_sub(q@.x, trans_x_of(self@)), scale_of(self@)),
            ) && rat_eq(p@.y, rat_div(rat_sub(q@.y, trans_y_of(self@)), scale_of(self@))),
            r matches Err(e) ==> e == CropError::NonInvertible,
    {
        if self.s_num == 0 {
            return Err(CropError::NonInvertible);
        }
        proof {
            let sn = self.s_num as int;
            let sd = self.s_den as int;
            lemma_mul_abs_bound(2 * sd, q.x.num as int, 2 * (SCALE_MAX as int), NUM_MAX as int);
            lemma_mul_abs_bound(2 * sd, q.y.num as int, 2 * (SCALE_MAX as int), NUM_MAX as int);
            lemma_mul_abs_bound(self.tx as int, q.x.den as int, TRANS_MAX as int, DEN_MAX as int);
            lemma_mul_abs_bound(self.ty as int, q.y.den as int, TRANS_MAX as int, DEN_MAX as int);
            lemma_mul_abs_bound(2 * sn, q.x.den as int, 2 * (SCALE_MAX as int), DEN_MAX as int);
            lemma_mul_abs_bound(2 * sn, q.y.den as int, 2 * (SCALE_MAX as int), DEN_MAX as int);
            lemma_mul_pos(2 * sn, q.x.den as int);
            lemma_mul_pos(2 * sn, q.y.den as int);
            lemma_inv1_is_div(sn, sd, self.tx as int, q.x@);
            lemma_inv1_is_div(sn, sd, self.ty as int, q.y@);
        }
        let nx: i128 = 2 * (self.s_den as i128) * q.x.num - self.tx * q.x.den;
        let dx: i128 = 2 * (self.s_num as i128) * q.x.den;
        let ny: i128 = 2 * (self.s_den as i128) * q.y.num - self.ty * q.y.den;
        let dy: i128 = 2 * (self.s_num as i128) * q.y.den;
        Ok(Point2 {
            x: Frac { num: nx, den: dx },
            y: Frac { num: ny, den: dy },
        })
    }
}

} // verus!
