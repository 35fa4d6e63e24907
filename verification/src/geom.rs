//! Plain vector and rectangle types over single-precision bit patterns.
//!
//! These mirror the `minvect` types that the builders take their geometry
//! from, with each scalar held as its bit pattern so that the builder
//! logic can be verified. The componentwise operations below restate the
//! one-line `minvect` operator bodies over the named scalar operations.

use vstd::prelude::*;

use crate::fp::{add_fp, fp_add, fp_is_nan, fp_mul, fp_sub, mul_fp, sub_fp, NAN_FP, ZERO_FP};

verus! {

/// A two-component vector; each field holds the bit pattern of a
/// single-precision value.
#[derive(Clone, Copy, Debug, PartialEq, Eq, Structural)]
pub struct Vec2 {
    pub x: u32,
    pub y: u32,
}

/// A three-component vector of single-precision bit patterns.
#[derive(Clone, Copy, Debug, PartialEq, Eq, Structural)]
pub struct Vec3 {
    pub x: u32,
    pub y: u32,
    pub z: u32,
}

/// A four-component vector of single-precision bit patterns.
#[derive(Clone, Copy, Debug, PartialEq, Eq, Structural)]
pub struct Vec4 {
    pub x: u32,
    pub y: u32,
    pub z: u32,
    pub w: u32,
}

/// An axis-aligned rectangle: its top-left corner `xy` and its extent
/// `wh`, as `minvect::Rect` holds them.
#[derive(Clone, Copy, Debug, PartialEq, Eq, Structural)]
pub struct Rect {
    pub xy: Vec2,
    pub wh: Vec2,
}

/// The componentwise vector sum, as `minvect`'s `+` on two vectors
/// computes it.
pub open spec fn spec_add2(a: Vec2, b: Vec2) -> Vec2 {
    Vec2 { x: fp_add(a.x, b.x), y: fp_add(a.y, b.y) }
}

/// The componentwise vector difference, as `minvect`'s `-` on two vectors
/// computes it.
pub open spec fn spec_sub2(a: Vec2, b: Vec2) -> Vec2 {
    Vec2 { x: fp_sub(a.x, b.x), y: fp_sub(a.y, b.y) }
}

/// A vector scaled by `t` on the left, as `minvect`'s scalar `*` computes
/// it.
pub open spec fn spec_scale2(t: u32, v: Vec2) -> Vec2 {
    Vec2 { x: fp_mul(t, v.x), y: fp_mul(t, v.y) }
}

pub fn add2(a: Vec2, b: Vec2) -> (r: Vec2)
    ensures
        r == spec_add2(a, b),
{
    Vec2 { x: add_fp(a.x, b.x), y: add_fp(a.y, b.y) }
}

pub fn sub2(a: Vec2, b: Vec2) -> (r: Vec2)
    ensures
        r == spec_sub2(a, b),
{
    Vec2 { x: sub_fp(a.x, b.x), y: sub_fp(a.y, b.y) }
}

pub fn scale2(t: u32, v: Vec2) -> (r: Vec2)
    ensures
        r == spec_scale2(t, v),
{
    Vec2 { x: mul_fp(t, v.x), y: mul_fp(t, v.y) }
}

/// The unit vector along `v`, or `None` for a vector of zero norm, as
/// `minvect::Vec2::unit` computes it. The norm uses an exactly rounded
/// square root and division, and a NaN component (reachable from NaN or
/// infinite input bits) is canonicalized to [`NAN_FP`], so the result is
/// a function of the argument bits alone.
pub uninterp spec fn fp_unit(v: Vec2) -> Option<Vec2>;

/// Relies on `minvect::Vec2::unit`: `None` exactly when the vector's norm
/// is zero, otherwise the vector divided by its norm, each component
/// canonicalized if NaN.
#[verifier::external_body]
pub(crate) fn unit2(v: Vec2) -> (r: Option<Vec2>)
    ensures
        r == fp_unit(v),
        (match r {
            Some(u) => (fp_is_nan(u.x) ==> u.x == NAN_FP) && (fp_is_nan(u.y) ==> u.y == NAN_FP),
            None => true,
        }),
{
    let m = minvect::vec2(bytemuck::cast(v.x), bytemuck::cast(v.y));
    match m.unit() {
        None => None,
        Some(u) => Some(Vec2 {
            x: if u.x.is_nan() { NAN_FP } else { u.x.to_bits() },
            y: if u.y.is_nan() { NAN_FP } else { u.y.to_bits() },
        }),
    }
}

/// The homogeneous transform of the point with component bit patterns `p`
/// by the four-by-four matrix with component bit patterns `m`, as
/// `minvect::mat4_trans_homog` computes it: sums of products, all exactly
/// rounded, with a NaN component (which overflow can produce even from
/// finite inputs) canonicalized to [`NAN_FP`] — hence a function of the
/// argument bits alone.
pub uninterp spec fn fp_trans_homog(p: Vec3, m: Seq<u32>) -> Vec3;

/// Relies on `minvect::mat4_trans_homog`: each result component is the dot
/// product of a matrix column with the point, plus the column's translation
/// entry, canonicalized if NaN.
#[verifier::external_body]
pub(crate) fn transform3(p: Vec3, m: &[u32; 16]) -> (r: Vec3)
    ensures
        r == fp_trans_homog(p, m@),
        fp_is_nan(r.x) ==> r.x == NAN_FP,
        fp_is_nan(r.y) ==> r.y == NAN_FP,
        fp_is_nan(r.z) ==> r.z == NAN_FP,
{
    let v = minvect::vec3(bytemuck::cast(p.x), bytemuck::cast(p.y), bytemuck::cast(p.z));
    let q = minvect::mat4_trans_homog(v, &bytemuck::cast(*m));
    Vec3 {
        x: if q.x.is_nan() { NAN_FP } else { q.x.to_bits() },
        y: if q.y.is_nan() { NAN_FP } else { q.y.to_bits() },
        z: if q.z.is_nan() { NAN_FP } else { q.z.to_bits() },
    }
}

/// The top-left corner of `r`: `minvect::Rect::tl` returns the corner
/// point itself.
pub open spec fn rect_tl(r: Rect) -> Vec2 {
    r.xy
}

/// The top-right corner of `r`: `minvect::Rect::tr` adds the vector
/// `(wh.x, 0.0)` to the corner.
pub open spec fn rect_tr(r: Rect) -> Vec2 {
    spec_add2(r.xy, Vec2 { x: r.wh.x, y: ZERO_FP })
}

/// The bottom-left corner of `r`: `minvect::Rect::bl` adds the vector
/// `(0.0, wh.y)` to the corner.
pub open spec fn rect_bl(r: Rect) -> Vec2 {
    spec_add2(r.xy, Vec2 { x: ZERO_FP, y: r.wh.y })
}

/// The bottom-right corner of `r`: `minvect::Rect::br` adds the whole
/// extent to the corner.
pub open spec fn rect_br(r: Rect) -> Vec2 {
    spec_add2(r.xy, r.wh)
}

impl Rect {
    /// The top-left corner, as `minvect::Rect::tl` computes it.
    pub fn tl(&self) -> (r: Vec2)
        ensures
            r == rect_tl(*self),
    {
        self.xy
    }

    /// The top-right corner, as `minvect::Rect::tr` computes it.
    pub fn tr(&self) -> (r: Vec2)
        ensures
            r == rect_tr(*self),
    {
        add2(self.xy, Vec2 { x: self.wh.x, y: ZERO_FP })
    }

    /// The bottom-left corner, as `minvect::Rect::bl` computes it.
    pub fn bl(&self) -> (r: Vec2)
        ensures
            r == rect_bl(*self),
    {
        add2(self.xy, Vec2 { x: ZERO_FP, y: self.wh.y })
    }

    /// The bottom-right corner, as `minvect::Rect::br` computes it.
    pub fn br(&self) -> (r: Vec2)
        ensures
            r == rect_br(*self),
    {
        add2(self.xy, self.wh)
    }
}

} // verus!
