use cubeview::fixed::{div_fx, isqrt, wrap_angle, SCALE, FULL_TURN};
use cubeview::trig::{sin_fx, cos_fx};
use cubeview::vec3::{cross, norm_sq, normalize, scale_down, Vec3};
use cubeview::mesh::{cube_indices, cube_vertices, Vertex};

#[test]
fn div_fx_truncates_toward_zero() {
    assert_eq!(div_fx(7, 2), 3);
    assert_eq!(div_fx(-7, 2), -3);
    assert_eq!(div_fx(0, 5), 0);
    assert_eq!(div_fx(-1, 1_000_000), 0);
}

#[test]
fn isqrt_exact_values() {
    assert_eq!(isqrt(0), 0);
    assert_eq!(isqrt(1), 1);
    assert_eq!(isqrt(2), 1);
    assert_eq!(isqrt(4), 2);
    assert_eq!(isqrt(999_999), 999);
    assert_eq!(isqrt(1_000_000_000_000), 1_000_000);
}

#[test]
fn wrap_angle_reduces_into_one_turn() {
    assert_eq!(wrap_angle(0), 0);
    assert_eq!(wrap_angle(FULL_TURN), 0);
    assert_eq!(wrap_angle(-90_000_000), 270_000_000);
    assert_eq!(wrap_angle(725_000_000), 5_000_000);
    assert_eq!(wrap_angle(-1), FULL_TURN - 1);
}

#[test]
fn sine_exact_at_landmark_angles() {
    assert_eq!(sin_fx(0), 0);
    assert_eq!(sin_fx(30_000_000), 500_000);
    assert_eq!(sin_fx(90_000_000), SCALE);
    assert_eq!(sin_fx(180_000_000), 0);
    assert_eq!(sin_fx(270_000_000), -SCALE);
    assert_eq!(cos_fx(0), SCALE);
    assert_eq!(cos_fx(90_000_000), 0);
    assert_eq!(cos_fx(-90_000_000), 0);
}

#[test]
fn sine_close_to_real_sine() {
    for deg in 0..=360 {
        let r = sin_fx(deg * 1_000_000) as f64 / SCALE as f64;
        let real = (deg as f64).to_radians().sin();
        assert!((r - real).abs() < 0.0025, "deg {deg}: {r} vs {real}");
    }
}

#[test]
fn normalize_scales_to_unit_length() {
    let v = Vec3 { x: 600_000, y: 0, z: 800_000 };
    let n = normalize(&v);
    assert_eq!(n, Vec3 { x: 600_000, y: 0, z: 800_000 });
    let w = Vec3 { x: 3, y: 0, z: 4 };
    let nw = normalize(&w);
    let ns = norm_sq(&nw);
    assert!((ns - SCALE * SCALE).abs() < 4 * SCALE * SCALE / 1000);
}

#[test]
fn cross_product_of_axes() {
    let x = Vec3 { x: SCALE, y: 0, z: 0 };
    let y = Vec3 { x: 0, y: SCALE, z: 0 };
    let c = scale_down(&cross(&x, &y));
    assert_eq!(c, Vec3 { x: 0, y: 0, z: SCALE });
}

#[test]
fn cube_mesh_shape() {
    let verts = cube_vertices();
    assert_eq!(verts.len(), 24);
    let v0 = &verts[0];
    assert_eq!(v0.pos.x, -SCALE);
    assert_eq!(v0.pos.y, -SCALE);
    assert_eq!(v0.pos.z, SCALE);
    assert_eq!(v0.pos.w, SCALE);
    assert_eq!(v0.tex_coord.u, 0);
    assert_eq!(v0.tex_coord.v, 0);
    let idx = cube_indices();
    let expected: Vec<u16> = vec![
        0, 1, 2, 2, 3, 0,
        4, 5, 6, 6, 7, 4,
        8, 9, 10, 10, 11, 8,
        12, 13, 14, 14, 15, 12,
        16, 17, 18, 18, 19, 16,
        20, 21, 22, 22, 23, 20,
    ];
    assert_eq!(idx, expected);
    assert!(idx.iter().all(|&k| k < 24));
}

#[test]
fn vertex_new_scales_coordinates() {
    let v = Vertex::new([1, -1, 0], [1, 0]);
    assert_eq!(v.pos.x, SCALE);
    assert_eq!(v.pos.y, -SCALE);
    assert_eq!(v.pos.z, 0);
    assert_eq!(v.pos.w, SCALE);
    assert_eq!(v.tex_coord.u, SCALE);
    assert_eq!(v.tex_coord.v, 0);
}
