use glowmesh::geom::{Rect, Vec2, Vec3, Vec4};
use glowmesh::xyzrgba::{
    put_line, put_poly, put_quad, put_rect, put_triangle, transform_mesh, xyzrgba_bytes,
    xyzrgba_color_offset, xyzrgba_stride, XYZRGBA,
};

fn b(f: f32) -> u32 {
    f.to_bits()
}

fn v2(x: f32, y: f32) -> Vec2 {
    Vec2 { x: b(x), y: b(y) }
}

fn v4(x: f32, y: f32, z: f32, w: f32) -> Vec4 {
    Vec4 { x: b(x), y: b(y), z: b(z), w: b(w) }
}

fn rec(x: f32, y: f32, z: f32, col: Vec4) -> XYZRGBA {
    XYZRGBA { xyz: Vec3 { x: b(x), y: b(y), z: b(z) }, rgba: col }
}

#[test]
fn triangle_appends_three_records_with_depth_and_color() {
    let mut buf: Vec<XYZRGBA> = Vec::new();
    let col = v4(0.1, 0.2, 0.3, 1.0);
    put_triangle(&mut buf, v2(1.0, 2.0), v2(3.0, 4.0), v2(5.0, 6.0), col, 0.5f32.to_bits());
    assert_eq!(buf.len(), 3);
    assert_eq!(buf[0], rec(1.0, 2.0, 0.5, col));
    assert_eq!(buf[1], rec(3.0, 4.0, 0.5, col));
    assert_eq!(buf[2], rec(5.0, 6.0, 0.5, col));
    for v in &buf {
        assert_eq!(v.xyz.z, b(0.5));
        assert_eq!(v.rgba, col);
    }
}

#[test]
fn quad_is_the_two_triangles_concatenated() {
    let col = v4(1.0, 0.0, 0.0, 1.0);
    let (a, bb, c, d) = (v2(0.0, 0.0), v2(4.0, 0.0), v2(4.0, 3.0), v2(0.0, 3.0));
    let mut quad: Vec<XYZRGBA> = Vec::new();
    put_quad(&mut quad, a, bb, c, d, col, b(0.0));
    let mut tris: Vec<XYZRGBA> = Vec::new();
    put_triangle(&mut tris, a, bb, c, col, b(0.0));
    put_triangle(&mut tris, a, c, d, col, b(0.0));
    assert_eq!(quad, tris);
}

#[test]
fn rect_matches_explicit_quad_corners() {
    let col = v4(0.0, 1.0, 0.0, 1.0);
    let r = Rect { xy: v2(0.0, 0.0), wh: v2(10.0, 10.0) };
    let mut from_rect: Vec<XYZRGBA> = Vec::new();
    put_rect(&mut from_rect, r, col, b(0.25));
    let mut from_quad: Vec<XYZRGBA> = Vec::new();
    put_quad(
        &mut from_quad,
        v2(0.0, 0.0),
        v2(10.0, 0.0),
        v2(10.0, 10.0),
        v2(0.0, 10.0),
        col,
        b(0.25),
    );
    assert_eq!(from_rect, from_quad);
    assert_eq!(from_rect.len(), 6);
}

#[test]
fn rect_with_offset_corner_uses_all_four_corners() {
    let col = v4(0.0, 0.0, 1.0, 1.0);
    let r = Rect { xy: v2(1.0, 2.0), wh: v2(3.0, 4.0) };
    let mut buf: Vec<XYZRGBA> = Vec::new();
    put_rect(&mut buf, r, col, b(0.0));
    assert_eq!(buf[0], rec(1.0, 2.0, 0.0, col));
    assert_eq!(buf[1], rec(4.0, 2.0, 0.0, col));
    assert_eq!(buf[2], rec(4.0, 6.0, 0.0, col));
    assert_eq!(buf[3], rec(1.0, 2.0, 0.0, col));
    assert_eq!(buf[4], rec(4.0, 6.0, 0.0, col));
    assert_eq!(buf[5], rec(1.0, 6.0, 0.0, col));
}

#[test]
fn line_horizontal_with_unit_thickness_gives_offset_quad() {
    let col = v4(1.0, 1.0, 1.0, 1.0);
    let mut buf: Vec<XYZRGBA> = Vec::new();
    put_line(&mut buf, v2(0.0, 0.0), v2(10.0, 0.0), b(1.0), col, b(0.0));
    assert_eq!(buf.len(), 6);
    // The quad corners are p1 + u, p2 + u, p2 - u, p1 - u with u the unit
    // perpendicular (0, 1) scaled by the thickness 1.
    assert_eq!(buf[0], rec(0.0, 1.0, 0.0, col));
    assert_eq!(buf[1], rec(10.0, 1.0, 0.0, col));
    assert_eq!(buf[2], rec(10.0, -1.0, 0.0, col));
    assert_eq!(buf[3], rec(0.0, 1.0, 0.0, col));
    assert_eq!(buf[4], rec(10.0, -1.0, 0.0, col));
    assert_eq!(buf[5], rec(0.0, -1.0, 0.0, col));
}

#[test]
fn line_with_thickness_two_doubles_the_offset() {
    let col = v4(1.0, 1.0, 1.0, 1.0);
    let mut buf: Vec<XYZRGBA> = Vec::new();
    put_line(&mut buf, v2(0.0, 0.0), v2(0.0, 8.0), b(2.0), col, b(0.0));
    // Direction (0, 1); perpendicular (-1, 0); scaled by 2.
    assert_eq!(buf[0], rec(-2.0, 0.0, 0.0, col));
    assert_eq!(buf[1], rec(-2.0, 8.0, 0.0, col));
    assert_eq!(buf[2], rec(2.0, 8.0, 0.0, col));
    assert_eq!(buf[5], rec(2.0, 0.0, 0.0, col));
}

#[test]
fn line_with_coincident_ends_appends_nothing() {
    let col = v4(1.0, 1.0, 1.0, 1.0);
    let mut buf: Vec<XYZRGBA> = Vec::new();
    put_line(&mut buf, v2(3.0, 3.0), v2(3.0, 3.0), b(1.0), col, b(0.0));
    assert_eq!(buf.len(), 0);
}

#[test]
fn poly_with_four_sides_fans_four_triangles_from_center() {
    let col = v4(0.5, 0.5, 0.5, 1.0);
    let mut buf: Vec<XYZRGBA> = Vec::new();
    put_poly(&mut buf, v2(0.0, 0.0), b(1.0), 4, b(0.0), col, b(0.0));
    assert_eq!(buf.len(), 12);
    let dtheta = (2.0f32 * std::f32::consts::PI) / 4.0f32;
    for k in 0..4usize {
        // Every wedge starts at the center.
        assert_eq!(buf[3 * k], rec(0.0, 0.0, 0.0, col));
        // The two rim records sit at angles k * dtheta and (k - 1) * dtheta
        // from the phase, computed exactly as the builder computes them.
        let theta = 0.0f32 + dtheta * (k as f32);
        let p1 = rec(0.0 + 1.0 * theta.cos(), 0.0 + 1.0 * theta.sin(), 0.0, col);
        let theta = theta - dtheta;
        let p2 = rec(0.0 + 1.0 * theta.cos(), 0.0 + 1.0 * theta.sin(), 0.0, col);
        assert_eq!(buf[3 * k + 1], p1);
        assert_eq!(buf[3 * k + 2], p2);
    }
    // The first wedge's first rim vertex lies at the phase angle itself.
    let x = f32::from_bits(buf[1].xyz.x);
    let y = f32::from_bits(buf[1].xyz.y);
    assert!((x - 1.0).abs() < 1e-6);
    assert!(y.abs() < 1e-6);
}

#[test]
fn poly_with_one_side_appends_one_triangle() {
    let col = v4(0.5, 0.5, 0.5, 1.0);
    let mut buf: Vec<XYZRGBA> = Vec::new();
    put_poly(&mut buf, v2(1.0, 1.0), b(2.0), 1, b(0.5), col, b(0.0));
    assert_eq!(buf.len(), 3);
    assert_eq!(buf[0], rec(1.0, 1.0, 0.0, col));
}

#[test]
fn buffer_length_stays_a_multiple_of_three() {
    let col = v4(1.0, 0.0, 1.0, 1.0);
    let mut buf: Vec<XYZRGBA> = Vec::new();
    assert_eq!(buf.len() % 3, 0);
    put_triangle(&mut buf, v2(0.0, 0.0), v2(1.0, 0.0), v2(0.0, 1.0), col, b(0.0));
    assert_eq!(buf.len() % 3, 0);
    put_quad(&mut buf, v2(0.0, 0.0), v2(1.0, 0.0), v2(1.0, 1.0), v2(0.0, 1.0), col, b(0.0));
    assert_eq!(buf.len() % 3, 0);
    put_rect(&mut buf, Rect { xy: v2(0.0, 0.0), wh: v2(2.0, 2.0) }, col, b(0.0));
    assert_eq!(buf.len() % 3, 0);
    put_line(&mut buf, v2(0.0, 0.0), v2(5.0, 5.0), b(0.5), col, b(0.0));
    assert_eq!(buf.len() % 3, 0);
    put_poly(&mut buf, v2(0.0, 0.0), b(1.0), 7, b(0.0), col, b(0.0));
    assert_eq!(buf.len() % 3, 0);
    assert_eq!(buf.len(), 3 + 6 + 6 + 6 + 21);
}

#[test]
fn transform_with_identity_keeps_positions() {
    let col = v4(1.0, 1.0, 0.0, 1.0);
    let mut buf: Vec<XYZRGBA> = Vec::new();
    put_triangle(&mut buf, v2(1.0, 2.0), v2(3.0, 4.0), v2(5.0, 6.0), col, b(7.0));
    let before = buf.clone();
    let identity: [u32; 16] = mat_bits([
        1.0, 0.0, 0.0, 0.0, 0.0, 1.0, 0.0, 0.0, 0.0, 0.0, 1.0, 0.0, 0.0, 0.0, 0.0, 1.0,
    ]);
    transform_mesh(&mut buf, &identity);
    assert_eq!(buf, before);
}

fn mat_bits(m: [f32; 16]) -> [u32; 16] {
    let mut r = [0u32; 16];
    for i in 0..16 {
        r[i] = m[i].to_bits();
    }
    r
}

#[test]
fn transform_with_translation_moves_positions() {
    let col = v4(1.0, 1.0, 0.0, 1.0);
    let mut buf: Vec<XYZRGBA> = Vec::new();
    put_triangle(&mut buf, v2(1.0, 2.0), v2(3.0, 4.0), v2(5.0, 6.0), col, b(7.0));
    // The translation sits in the last row, as minvect's homogeneous
    // transform reads the matrix.
    let m: [u32; 16] = mat_bits([
        1.0, 0.0, 0.0, 0.0, 0.0, 1.0, 0.0, 0.0, 0.0, 0.0, 1.0, 0.0, 10.0, 20.0, 30.0, 1.0,
    ]);
    transform_mesh(&mut buf, &m);
    assert_eq!(buf[0].xyz, Vec3 { x: b(11.0), y: b(22.0), z: b(37.0) });
    assert_eq!(buf[1].xyz, Vec3 { x: b(13.0), y: b(24.0), z: b(37.0) });
    assert_eq!(buf[2].xyz, Vec3 { x: b(15.0), y: b(26.0), z: b(37.0) });
    assert_eq!(buf[0].rgba, col);
}

#[test]
fn transform_twice_matches_the_matrix_product() {
    // Two translations compose exactly, so applying them one after the
    // other must equal one transform by their matrix product.
    let col = v4(1.0, 1.0, 0.0, 1.0);
    let a: [f32; 16] = [
        1.0, 0.0, 0.0, 0.0, 0.0, 1.0, 0.0, 0.0, 0.0, 0.0, 1.0, 0.0, 1.0, 2.0, 3.0, 1.0,
    ];
    let m: [f32; 16] = [
        1.0, 0.0, 0.0, 0.0, 0.0, 1.0, 0.0, 0.0, 0.0, 0.0, 1.0, 0.0, 10.0, 20.0, 30.0, 1.0,
    ];
    let mut one_by_one: Vec<XYZRGBA> = Vec::new();
    put_triangle(&mut one_by_one, v2(1.0, 2.0), v2(3.0, 4.0), v2(5.0, 6.0), col, b(7.0));
    let mut combined = one_by_one.clone();
    transform_mesh(&mut one_by_one, &mat_bits(a));
    transform_mesh(&mut one_by_one, &mat_bits(m));
    transform_mesh(&mut combined, &mat_bits(minvect::mat4_mul(&a, &m)));
    assert_eq!(one_by_one, combined);
    assert_eq!(one_by_one[0].xyz, Vec3 { x: b(12.0), y: b(24.0), z: b(40.0) });
}

#[test]
fn packed_bytes_match_the_record_layout() {
    let col = v4(0.25, 0.5, 0.75, 1.0);
    let mut buf: Vec<XYZRGBA> = Vec::new();
    put_triangle(&mut buf, v2(1.5, -2.5), v2(0.0, 3.0), v2(-4.0, 0.5), col, b(9.0));
    let bytes = xyzrgba_bytes(&buf);
    assert_eq!(bytes.len(), 28 * 3);
    let mut expected: Vec<u8> = Vec::new();
    for v in &buf {
        for word in [v.xyz.x, v.xyz.y, v.xyz.z, v.rgba.x, v.rgba.y, v.rgba.z, v.rgba.w] {
            expected.extend_from_slice(&word.to_le_bytes());
        }
    }
    assert_eq!(bytes, expected);
    // Spot-check: the first position component, bit for bit.
    assert_eq!(&bytes[0..4], &1.5f32.to_bits().to_le_bytes());
    // The color begins at its documented offset.
    assert_eq!(&bytes[12..16], &0.25f32.to_bits().to_le_bytes());
}

#[test]
fn stride_and_offsets_describe_the_packed_record() {
    assert_eq!(xyzrgba_stride(), 28);
    assert_eq!(xyzrgba_color_offset(), 12);
}

#[test]
fn nan_corner_results_come_back_canonicalized() {
    assert!(f32::from_bits(glowmesh::fp::NAN_FP).is_nan());
    let col = v4(1.0, 1.0, 1.0, 1.0);
    // A corner sum of opposite infinities is NaN; whatever payload the
    // hardware would give, the library returns the one canonical pattern.
    let r = Rect { xy: v2(f32::INFINITY, 0.0), wh: v2(f32::NEG_INFINITY, 0.0) };
    let mut buf: Vec<XYZRGBA> = Vec::new();
    put_rect(&mut buf, r, col, b(0.0));
    assert_eq!(buf[1].xyz.x, glowmesh::fp::NAN_FP);
    assert_eq!(buf[2].xyz.x, glowmesh::fp::NAN_FP);
    assert_eq!(buf[0].xyz.x, b(f32::INFINITY));
    assert_eq!(buf[1].xyz.y, b(0.0));
}

#[test]
fn nan_transform_results_come_back_canonicalized() {
    let col = v4(1.0, 1.0, 1.0, 1.0);
    let mut buf: Vec<XYZRGBA> = Vec::new();
    put_triangle(&mut buf, v2(f32::MAX, f32::MAX), v2(0.0, 0.0), v2(0.0, 0.0), col, b(0.0));
    // The first component overflows to opposite infinities and sums to
    // NaN even though every input is finite.
    let m: [u32; 16] = mat_bits([
        2.0, 0.0, 0.0, 0.0, -2.0, 1.0, 0.0, 0.0, 0.0, 0.0, 1.0, 0.0, 0.0, 0.0, 0.0, 1.0,
    ]);
    transform_mesh(&mut buf, &m);
    assert_eq!(buf[0].xyz.x, glowmesh::fp::NAN_FP);
    assert_eq!(buf[0].xyz.y, b(f32::MAX));
    assert_eq!(buf[0].xyz.z, b(0.0));
}

#[test]
fn two_pi_constant_matches_the_standard_value() {
    assert_eq!(glowmesh::fp::TWO_PI_FP, (2.0f32 * std::f32::consts::PI).to_bits());
    assert_eq!(glowmesh::fp::ZERO_FP, 0.0f32.to_bits());
}

#[test]
fn build2d_entry_points_are_the_canonical_builders() {
    let col = v4(1.0, 0.0, 0.0, 1.0);
    let mut a: Vec<XYZRGBA> = Vec::new();
    let mut bb: Vec<XYZRGBA> = Vec::new();
    glowmesh::xyzrgba_build2d::put_triangle(
        &mut a,
        v2(0.0, 0.0),
        v2(1.0, 0.0),
        v2(0.0, 1.0),
        col,
        b(0.0),
    );
    put_triangle(&mut bb, v2(0.0, 0.0), v2(1.0, 0.0), v2(0.0, 1.0), col, b(0.0));
    assert_eq!(a, bb);
    let mut c: Vec<XYZRGBA> = Vec::new();
    glowmesh::xyzrgba_build2d::put_poly(&mut c, v2(0.0, 0.0), b(1.0), 4, b(0.0), col, b(0.0));
    assert_eq!(c.len(), 12);
}
