//! The position-and-color vertex record and its mesh builders.
//!
//! A mesh is a flat `Vec` of vertex records read as a triangle list: every
//! three consecutive records form one triangle. Each builder appends whole
//! triangles, so a buffer whose length is a multiple of three keeps that
//! invariant through any sequence of builder calls.

use vstd::prelude::*;

use crate::fp::{
    add_fp, cos_fp, div_fp, fp_neg, le_bytes, mul_fp, neg_fp, of_usize_fp, push_le, sin_fp,
    sub_fp, TWO_PI_FP,
};
use crate::geom::{
    fp_trans_homog, fp_unit, rect_bl, rect_br, rect_tl, rect_tr, spec_add2, spec_scale2,
    spec_sub2, add2, scale2, sub2, transform3, unit2, Rect, Vec2, Vec3, Vec4,
};

verus! {

/// One vertex record: a 3D position and a color, each component the bit
/// pattern of a single-precision value. Records are tightly packed: seven
/// four-byte words, position first.
#[derive(Clone, Copy, Debug, PartialEq, Eq, Structural)]
pub struct XYZRGBA {
    pub xyz: Vec3,
    pub rgba: Vec4,
}

/// The record a builder appends for corner `p`: the 2D position with the
/// depth injected as the third coordinate, and the shared color.
pub open spec fn vert(p: Vec2, col: Vec4, depth: u32) -> XYZRGBA {
    XYZRGBA { xyz: Vec3 { x: p.x, y: p.y, z: depth }, rgba: col }
}

/// The three records of one triangle with corners `a`, `b`, `c`.
pub open spec fn tri_seq(a: Vec2, b: Vec2, c: Vec2, col: Vec4, depth: u32) -> Seq<XYZRGBA> {
    seq![vert(a, col, depth), vert(b, col, depth), vert(c, col, depth)]
}

/// The six records of the quad `a b c d`: its two triangles `(a, b, c)`
/// and `(a, c, d)`.
pub open spec fn quad_seq(
    a: Vec2,
    b: Vec2,
    c: Vec2,
    d: Vec2,
    col: Vec4,
    depth: u32,
) -> Seq<XYZRGBA> {
    tri_seq(a, b, c, col, depth) + tri_seq(a, c, d, col, depth)
}

/// Appends one triangle: three records that share `col` and carry `depth`
/// as their third position coordinate.
pub fn put_triangle(buf: &mut Vec<XYZRGBA>, a: Vec2, b: Vec2, c: Vec2, col: Vec4, depth: u32)
    ensures
        final(buf)@ == old(buf)@ + tri_seq(a, b, c, col, depth),
        final(buf)@.len() == old(buf)@.len() + 3,
        forall|i: int|
            old(buf)@.len() <= i < final(buf)@.len() ==> #[trigger] final(buf)@[i].xyz.z == depth
                && final(buf)@[i].rgba == col,
        old(buf)@.len() % 3 == 0 ==> final(buf)@.len() % 3 == 0,
{
    buf.push(XYZRGBA { xyz: Vec3 { x: a.x, y: a.y, z: depth }, rgba: col });
    buf.push(XYZRGBA { xyz: Vec3 { x: b.x, y: b.y, z: depth }, rgba: col });
    buf.push(XYZRGBA { xyz: Vec3 { x: c.x, y: c.y, z: depth }, rgba: col });
    proof {
        assert(buf@ =~= old(buf)@ + tri_seq(a, b, c, col, depth));
    }
}

/// A quad is exactly its two triangles, one after the other: what a quad
/// call appends is the concatenation of what the two triangle calls
/// `(a, b, c)` and `(a, c, d)` append, with the same color and depth.
pub proof fn lemma_quad_is_two_triangles(
    a: Vec2,
    b: Vec2,
    c: Vec2,
    d: Vec2,
    col: Vec4,
    depth: u32,
)
    ensures
        quad_seq(a, b, c, d, col, depth) == tri_seq(a, b, c, col, depth) + tri_seq(
            a,
            c,
            d,
            col,
            depth,
        ),
{
}

/// Appends one quad as two triangles: `(a, b, c)` then `(a, c, d)`. The
/// result is exactly the records of those two triangle calls, one after
/// the other.
pub fn put_quad(
    buf: &mut Vec<XYZRGBA>,
    a: Vec2,
    b: Vec2,
    c: Vec2,
    d: Vec2,
    col: Vec4,
    depth: u32,
)
    ensures
        final(buf)@ == old(buf)@ + tri_seq(a, b, c, col, depth) + tri_seq(a, c, d, col, depth),
        final(buf)@ == old(buf)@ + quad_seq(a, b, c, d, col, depth),
        final(buf)@.len() == old(buf)@.len() + 6,
        old(buf)@.len() % 3 == 0 ==> final(buf)@.len() % 3 == 0,
{
    put_triangle(buf, a, b, c, col, depth);
    put_triangle(buf, a, c, d, col, depth);
    proof {
        assert(buf@ =~= old(buf)@ + tri_seq(a, b, c, col, depth) + tri_seq(a, c, d, col, depth));
        assert(buf@ =~= old(buf)@ + quad_seq(a, b, c, d, col, depth));
    }
}

/// Appends an axis-aligned rectangle as one quad over its four corners,
/// in the order top-left, top-right, bottom-right, bottom-left.
pub fn put_rect(buf: &mut Vec<XYZRGBA>, r: Rect, col: Vec4, depth: u32)
    ensures
        final(buf)@ == old(buf)@ + quad_seq(
            rect_tl(r),
            rect_tr(r),
            rect_br(r),
            rect_bl(r),
            col,
            depth,
        ),
        final(buf)@.len() == old(buf)@.len() + 6,
        old(buf)@.len() % 3 == 0 ==> final(buf)@.len() % 3 == 0,
{
    let a = r.tl();
    let b = r.tr();
    let c = r.br();
    let d = r.bl();
    put_quad(buf, a, b, c, d, col, depth);
}

/// The quad a line builder appends when the segment's direction is the
/// unit vector `v`: the segment's ends, each pushed to both sides along
/// the perpendicular of `v` scaled by the thickness.
pub open spec fn line_quad(
    p1: Vec2,
    p2: Vec2,
    thickness: u32,
    col: Vec4,
    depth: u32,
    v: Vec2,
) -> Seq<XYZRGBA> {
    let u = spec_scale2(thickness, Vec2 { x: fp_neg(v.y), y: v.x });
    quad_seq(
        spec_add2(p1, u),
        spec_add2(p2, u),
        spec_sub2(p2, u),
        spec_sub2(p1, u),
        col,
        depth,
    )
}

/// Appends a line segment as one quad of the given thickness centered on
/// the segment: each end is offset to both sides along the perpendicular
/// unit normal scaled by `thickness`. A segment whose direction has zero
/// norm has no perpendicular; such a call appends nothing.
pub fn put_line(
    buf: &mut Vec<XYZRGBA>,
    p1: Vec2,
    p2: Vec2,
    thickness: u32,
    col: Vec4,
    depth: u32,
)
    ensures
        (match fp_unit(spec_sub2(p2, p1)) {
            Some(v) => final(buf)@ == old(buf)@ + line_quad(p1, p2, thickness, col, depth, v),
            None => final(buf)@ == old(buf)@,
        }),
        fp_unit(spec_sub2(p2, p1)) is Some ==> final(buf)@.len() == old(buf)@.len() + 6,
        old(buf)@.len() % 3 == 0 ==> final(buf)@.len() % 3 == 0,
{
    let d = sub2(p2, p1);
    match unit2(d) {
        Some(v) => {
            let u = scale2(thickness, Vec2 { x: neg_fp(v.y), y: v.x });
            let a = add2(p1, u);
            let b = add2(p2, u);
            let c = sub2(p2, u);
            let e = sub2(p1, u);
            put_quad(buf, a, b, c, e, col, depth);
        },
        None => {},
    }
}

/// Appends a regular polygon with `n` sides as a fan of `n` triangles
/// around `c`, each wedge spanning a full turn divided by `n`, the first
/// wedge ending at the angle `phase`. Every appended record carries `col`
/// and `depth`, and every wedge's first record is the center; the rim
/// positions come from the platform's trigonometric routines, of which
/// nothing further is promised.
pub fn put_poly(
    buf: &mut Vec<XYZRGBA>,
    c: Vec2,
    r: u32,
    n: usize,
    phase: u32,
    col: Vec4,
    depth: u32,
)
    requires
        n >= 1,
    ensures
        final(buf)@.len() == old(buf)@.len() + 3 * n,
        forall|j: int| 0 <= j < old(buf)@.len() ==> final(buf)@[j] == old(buf)@[j],
        forall|j: int|
            old(buf)@.len() <= j < final(buf)@.len() ==> (#[trigger] final(buf)@[j]).xyz.z
                == depth && final(buf)@[j].rgba == col,
        forall|k: int|
            0 <= k < n ==> #[trigger] final(buf)@[old(buf)@.len() + 3 * k] == vert(
                c,
                col,
                depth,
            ),
        old(buf)@.len() % 3 == 0 ==> final(buf)@.len() % 3 == 0,
{
    let dtheta = div_fp(TWO_PI_FP, of_usize_fp(n));
    for i in 0..n
        invariant
            buf@.len() == old(buf)@.len() + 3 * i,
            forall|j: int| 0 <= j < old(buf)@.len() ==> buf@[j] == old(buf)@[j],
            forall|j: int|
                old(buf)@.len() <= j < buf@.len() ==> (#[trigger] buf@[j]).xyz.z == depth
                    && buf@[j].rgba == col,
            forall|k: int|
                0 <= k < i ==> #[trigger] buf@[old(buf)@.len() + 3 * k] == vert(c, col, depth),
    {
        let theta = add_fp(phase, mul_fp(dtheta, of_usize_fp(i)));
        let p1 = add2(c, scale2(r, Vec2 { x: cos_fp(theta), y: sin_fp(theta) }));
        let theta = sub_fp(theta, dtheta);
        let p2 = add2(c, scale2(r, Vec2 { x: cos_fp(theta), y: sin_fp(theta) }));
        put_triangle(buf, c, p1, p2, col, depth);
    }
}

/// Transforms every record's position in place by the four-by-four matrix
/// `mat`, leaving the colors untouched.
pub fn transform_mesh(v: &mut Vec<XYZRGBA>, mat: &[u32; 16])
    ensures
        final(v)@.len() == old(v)@.len(),
        forall|i: int|
            0 <= i < old(v)@.len() ==> final(v)@[i] == (XYZRGBA {
                xyz: fp_trans_homog(old(v)@[i].xyz, mat@),
                rgba: old(v)@[i].rgba,
            }),
{
    let ghost v0 = v@;
    let n = v.len();
    for i in 0..n
        invariant
            v@.len() == v0.len(),
            n == v0.len(),
            forall|j: int|
                0 <= j < i ==> v@[j] == (XYZRGBA {
                    xyz: fp_trans_homog(v0[j].xyz, mat@),
                    rgba: v0[j].rgba,
                }),
            forall|j: int| i <= j < v0.len() ==> v@[j] == v0[j],
    {
        let rec = v[i];
        let t = transform3(rec.xyz, mat);
        v.set(i, XYZRGBA { xyz: t, rgba: rec.rgba });
    }
}

/// The 28 bytes of one packed record: position then color, each component
/// four little-endian bytes, with no padding.
pub open spec fn vert_bytes(v: XYZRGBA) -> Seq<u8> {
    le_bytes(v.xyz.x) + le_bytes(v.xyz.y) + le_bytes(v.xyz.z) + le_bytes(v.rgba.x) + le_bytes(
        v.rgba.y,
    ) + le_bytes(v.rgba.z) + le_bytes(v.rgba.w)
}

/// The packed bytes of a whole mesh: each record's bytes in order.
pub open spec fn mesh_bytes(s: Seq<XYZRGBA>) -> Seq<u8>
    decreases s.len(),
{
    if s.len() == 0 {
        Seq::empty()
    } else {
        mesh_bytes(s.drop_last()) + vert_bytes(s.last())
    }
}

/// A whole mesh packs to its record count times the 28-byte stride.
pub proof fn lemma_mesh_bytes_len(s: Seq<XYZRGBA>)
    ensures
        mesh_bytes(s).len() == 28 * s.len(),
    decreases s.len(),
{
    if s.len() > 0 {
        lemma_mesh_bytes_len(s.drop_last());
    }
}

/// The wire-level layout law: in the packed mesh, record `i`'s 28 bytes
/// sit exactly at byte offset `28 * i`, so the attribute pointers set up
/// from the stride and offsets read each record's own components.
pub proof fn lemma_mesh_bytes_slice(s: Seq<XYZRGBA>, i: int)
    requires
        0 <= i < s.len(),
    ensures
        mesh_bytes(s).subrange(28 * i, 28 * i + 28) == vert_bytes(s[i]),
    decreases s.len(),
{
    lemma_mesh_bytes_len(s);
    lemma_mesh_bytes_len(s.drop_last());
    if i == s.len() - 1 {
        assert(mesh_bytes(s).subrange(28 * i, 28 * i + 28) =~= vert_bytes(s[i]));
    } else {
        lemma_mesh_bytes_slice(s.drop_last(), i);
        assert(mesh_bytes(s).subrange(28 * i, 28 * i + 28) =~= mesh_bytes(
            s.drop_last(),
        ).subrange(28 * i, 28 * i + 28));
    }
}

/// The byte stride of one packed record: seven four-byte words.
pub fn xyzrgba_stride() -> (n: usize)
    ensures
        n == 28,
{
    28
}

/// The byte offset of the color inside one packed record: it follows the
/// three position words.
pub fn xyzrgba_color_offset() -> (n: usize)
    ensures
        n == 12,
{
    12
}

/// Packs a mesh for upload: the records' components, bit for bit, as
/// little-endian bytes, in record order with no padding.
pub fn xyzrgba_bytes(mesh: &Vec<XYZRGBA>) -> (r: Vec<u8>)
    ensures
        r@ == mesh_bytes(mesh@),
        r@.len() == 28 * mesh@.len(),
{
    let mut out: Vec<u8> = Vec::new();
    let n = mesh.len();
    for i in 0..n
        invariant
            n == mesh@.len(),
            out@ == mesh_bytes(mesh@.take(i as int)),
            out@.len() == 28 * i,
    {
        let v = mesh[i];
        push_le(&mut out, v.xyz.x);
        push_le(&mut out, v.xyz.y);
        push_le(&mut out, v.xyz.z);
        push_le(&mut out, v.rgba.x);
        push_le(&mut out, v.rgba.y);
        push_le(&mut out, v.rgba.z);
        push_le(&mut out, v.rgba.w);
        proof {
            assert(mesh@.take(i + 1).drop_last() =~= mesh@.take(i as int));
            assert(mesh@.take(i + 1).last() == mesh@[i as int]);
            assert(out@ =~= mesh_bytes(mesh@.take(i as int)) + vert_bytes(mesh@[i as int]));
        }
    }
    proof {
        assert(mesh@.take(n as int) =~= mesh@);
    }
    out
}

} // verus!
