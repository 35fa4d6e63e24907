//! The position, color and texture-coordinate vertex record and its mesh
//! builders.
//!
//! The textured builders mirror the plain ones: the same triangle-list
//! buffer, with a texture coordinate added to each record. A quad's four
//! texture coordinates are the corners of an axis-aligned rectangle given
//! by its low and high corner, matched to the quad's corner order.

use vstd::prelude::*;

use crate::fp::{le_bytes, push_le};
use crate::geom::{rect_bl, rect_br, rect_tl, rect_tr, Rect, Vec2, Vec3, Vec4};

verus! {

/// One vertex record: a 3D position, a color and a texture coordinate,
/// each component the bit pattern of a single-precision value. Records
/// are tightly packed: nine four-byte words, position first, texture
/// coordinate last.
#[derive(Clone, Copy, Debug, PartialEq, Eq, Structural)]
pub struct XYZRGBAUV {
    pub xyz: Vec3,
    pub rgba: Vec4,
    pub uv: Vec2,
}

/// The record a builder appends for corner `p` with texture coordinate
/// `uv`: the 2D position with the depth injected as the third coordinate,
/// the shared color, and the corner's texture coordinate.
pub open spec fn vert_uv(p: Vec2, uv: Vec2, col: Vec4, depth: u32) -> XYZRGBAUV {
    XYZRGBAUV { xyz: Vec3 { x: p.x, y: p.y, z: depth }, rgba: col, uv: uv }
}

/// The three records of one textured triangle.
pub open spec fn tri_seq_uv(
    a: Vec2,
    a_uv: Vec2,
    b: Vec2,
    b_uv: Vec2,
    c: Vec2,
    c_uv: Vec2,
    col: Vec4,
    depth: u32,
) -> Seq<XYZRGBAUV> {
    seq![vert_uv(a, a_uv, col, depth), vert_uv(b, b_uv, col, depth), vert_uv(c, c_uv, col, depth)]
}

/// The six records of the textured quad `a b c d` whose texture rectangle
/// has low corner `uv_lo` and high corner `uv_hi`: corner `a` takes the
/// low corner, `c` the high corner, and `b` and `d` the two mixed
/// corners, in the quad's corner order.
pub open spec fn quad_seq_uv(
    a: Vec2,
    b: Vec2,
    c: Vec2,
    d: Vec2,
    col: Vec4,
    uv_lo: Vec2,
    uv_hi: Vec2,
    depth: u32,
) -> Seq<XYZRGBAUV> {
    let b_uv = Vec2 { x: uv_hi.x, y: uv_lo.y };
    let d_uv = Vec2 { x: uv_lo.x, y: uv_hi.y };
    tri_seq_uv(a, uv_lo, b, b_uv, c, uv_hi, col, depth) + tri_seq_uv(
        a,
        uv_lo,
        c,
        uv_hi,
        d,
        d_uv,
        col,
        depth,
    )
}

/// Appends one textured triangle: three records that share `col` and
/// carry `depth` as their third position coordinate, each with its own
/// texture coordinate.
pub fn put_triangle(
    buf: &mut Vec<XYZRGBAUV>,
    a: Vec2,
    a_uv: Vec2,
    b: Vec2,
    b_uv: Vec2,
    c: Vec2,
    c_uv: Vec2,
    col: Vec4,
    depth: u32,
)
    ensures
        final(buf)@ == old(buf)@ + tri_seq_uv(a, a_uv, b, b_uv, c, c_uv, col, depth),
        final(buf)@.len() == old(buf)@.len() + 3,
        forall|i: int|
            old(buf)@.len() <= i < final(buf)@.len() ==> #[trigger] final(buf)@[i].xyz.z == depth
                && final(buf)@[i].rgba == col,
        old(buf)@.len() % 3 == 0 ==> final(buf)@.len() % 3 == 0,
{
    buf.push(XYZRGBAUV { xyz: Vec3 { x: a.x, y: a.y, z: depth }, rgba: col, uv: a_uv });
    buf.push(XYZRGBAUV { xyz: Vec3 { x: b.x, y: b.y, z: depth }, rgba: col, uv: b_uv });
    buf.push(XYZRGBAUV { xyz: Vec3 { x: c.x, y: c.y, z: depth }, rgba: col, uv: c_uv });
    proof {
        assert(buf@ =~= old(buf)@ + tri_seq_uv(a, a_uv, b, b_uv, c, c_uv, col, depth));
    }
}

/// Appends one textured quad as two triangles, `(a, b, c)` then
/// `(a, c, d)`, with the corner texture coordinates taken from the
/// axis-aligned texture rectangle `uv_lo`..`uv_hi` in the quad's corner
/// order.
pub fn put_quad(
    buf: &mut Vec<XYZRGBAUV>,
    a: Vec2,
    b: Vec2,
    c: Vec2,
    d: Vec2,
    col: Vec4,
    uv_lo: Vec2,
    uv_hi: Vec2,
    depth: u32,
)
    ensures
        final(buf)@ == old(buf)@ + quad_seq_uv(a, b, c, d, col, uv_lo, uv_hi, depth),
        final(buf)@.len() == old(buf)@.len() + 6,
        old(buf)@.len() % 3 == 0 ==> final(buf)@.len() % 3 == 0,
{
    let a_uv = uv_lo;
    let b_uv = Vec2 { x: uv_hi.x, y: uv_lo.y };
    let c_uv = uv_hi;
    let d_uv = Vec2 { x: uv_lo.x, y: uv_hi.y };
    put_triangle(buf, a, a_uv, b, b_uv, c, c_uv, col, depth);
    put_triangle(buf, a, a_uv, c, c_uv, d, d_uv, col, depth);
    proof {
        assert(buf@ =~= old(buf)@ + quad_seq_uv(a, b, c, d, col, uv_lo, uv_hi, depth));
    }
}

/// Appends an axis-aligned rectangle as one textured quad: the four
/// corners of `r` in the order top-left, top-right, bottom-right,
/// bottom-left, with the texture rectangle spanned by the top-left and
/// bottom-right corners of `r_uv`.
pub fn put_rect(buf: &mut Vec<XYZRGBAUV>, r: Rect, r_uv: Rect, col: Vec4, depth: u32)
    ensures
        final(buf)@ == old(buf)@ + quad_seq_uv(
            rect_tl(r),
            rect_tr(r),
            rect_br(r),
            rect_bl(r),
            col,
            rect_tl(r_uv),
            rect_br(r_uv),
            depth,
        ),
        final(buf)@.len() == old(buf)@.len() + 6,
        old(buf)@.len() % 3 == 0 ==> final(buf)@.len() % 3 == 0,
{
    let a = r.tl();
    let b = r.tr();
    let c = r.br();
    let d = r.bl();
    let uv_lo = r_uv.tl();
    let uv_hi = r_uv.br();
    put_quad(buf, a, b, c, d, col, uv_lo, uv_hi, depth);
}

/// The 36 bytes of one packed record: position, color, then texture
/// coordinate, each component four little-endian bytes, with no padding.
pub open spec fn vert_bytes_uv(v: XYZRGBAUV) -> Seq<u8> {
    le_bytes(v.xyz.x) + le_bytes(v.xyz.y) + le_bytes(v.xyz.z) + le_bytes(v.rgba.x) + le_bytes(
        v.rgba.y,
    ) + le_bytes(v.rgba.z) + le_bytes(v.rgba.w) + le_bytes(v.uv.x) + le_bytes(v.uv.y)
}

/// The packed bytes of a whole textured mesh: each record's bytes in
/// order.
pub open spec fn mesh_bytes_uv(s: Seq<XYZRGBAUV>) -> Seq<u8>
    decreases s.len(),
{
    if s.len() == 0 {
        Seq::empty()
    } else {
        mesh_bytes_uv(s.drop_last()) + vert_bytes_uv(s.last())
    }
}

/// A whole textured mesh packs to its record count times the 36-byte
/// stride.
pub proof fn lemma_mesh_bytes_uv_len(s: Seq<XYZRGBAUV>)
    ensures
        mesh_bytes_uv(s).len() == 36 * s.len(),
    decreases s.len(),
{
    if s.len() > 0 {
        lemma_mesh_bytes_uv_len(s.drop_last());
    }
}

/// The wire-level layout law for the textured record: in the packed mesh,
/// record `i`'s 36 bytes sit exactly at byte offset `36 * i`.
pub proof fn lemma_mesh_bytes_uv_slice(s: Seq<XYZRGBAUV>, i: int)
    requires
        0 <= i < s.len(),
    ensures
        mesh_bytes_uv(s).subrange(36 * i, 36 * i + 36) == vert_bytes_uv(s[i]),
    decreases s.len(),
{
    lemma_mesh_bytes_uv_len(s);
    lemma_mesh_bytes_uv_len(s.drop_last());
    if i == s.len() - 1 {
        assert(mesh_bytes_uv(s).subrange(36 * i, 36 * i + 36) =~= vert_bytes_uv(s[i]));
    } else {
        lemma_mesh_bytes_uv_slice(s.drop_last(), i);
        assert(mesh_bytes_uv(s).subrange(36 * i, 36 * i + 36) =~= mesh_bytes_uv(
            s.drop_last(),
        ).subrange(36 * i, 36 * i + 36));
    }
}

/// The byte stride of one packed textured record: nine four-byte words.
pub fn xyzrgbauv_stride() -> (n: usize)
    ensures
        n == 36,
{
    36
}

/// The byte offset of the color inside one packed textured record.
pub fn xyzrgbauv_color_offset() -> (n: usize)
    ensures
        n == 12,
{
    12
}

/// The byte offset of the texture coordinate inside one packed textured
/// record: it follows the three position words and the four color words.
pub fn xyzrgbauv_uv_offset() -> (n: usize)
    ensures
        n == 28,
{
    28
}

/// Packs a textured mesh for upload: the records' components, bit for
/// bit, as little-endian bytes, in record order with no padding.
pub fn xyzrgbauv_bytes(mesh: &Vec<XYZRGBAUV>) -> (r: Vec<u8>)
    ensures
        r@ == mesh_bytes_uv(mesh@),
        r@.len() == 36 * mesh@.len(),
{
    let mut out: Vec<u8> = Vec::new();
    let n = mesh.len();
    for i in 0..n
        invariant
            n == mesh@.len(),
            out@ == mesh_bytes_uv(mesh@.take(i as int)),
            out@.len() == 36 * i,
    {
        let v = mesh[i];
        push_le(&mut out, v.xyz.x);
        push_le(&mut out, v.xyz.y);
        push_le(&mut out, v.xyz.z);
        push_le(&mut out, v.rgba.x);
        push_le(&mut out, v.rgba.y);
        push_le(&mut out, v.rgba.z);
        push_le(&mut out, v.rgba.w);
        push_le(&mut out, v.uv.x);
        push_le(&mut out, v.uv.y);
        proof {
            assert(mesh@.take(i + 1).drop_last() =~= mesh@.take(i as int));
            assert(mesh@.take(i + 1).last() == mesh@[i as int]);
            assert(out@ =~= mesh_bytes_uv(mesh@.take(i as int)) + vert_bytes_uv(mesh@[i as int]));
        }
    }
    proof {
        assert(mesh@.take(n as int) =~= mesh@);
    }
    out
}

} // verus!
