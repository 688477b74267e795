use deferred::math::{Mat4, Vector3};

fn mult(a: &Mat4<f32>, b: &Mat4<f32>) -> Mat4<f32> {
    let mut prod = Mat4::identity(0.0f32, 1.0f32);
    for y in 0..4 {
        for x in 0..4 {
            let mut sum = 0.0f32;
            for k in 0..4 {
                sum += a.get(x, k) * b.get(k, y);
            }
            prod.set(x, y, sum);
        }
    }
    prod
}

fn approx_eq(a: &Mat4<f32>, b: &Mat4<f32>, tol: f32) -> bool {
    for y in 0..4 {
        for x in 0..4 {
            if (a.get(x, y) - b.get(x, y)).abs() > tol {
                return false;
            }
        }
    }
    true
}

fn rotation_mats(s: f32, c: f32) -> (Mat4<f32>, Mat4<f32>, Mat4<f32>) {
    (
        Mat4::rotation_x(0.0, 1.0, s, c, -s),
        Mat4::rotation_y(0.0, 1.0, s, c, -s),
        Mat4::rotation_z(0.0, 1.0, s, c, -s),
    )
}

#[test]
fn identity_has_ones_on_the_diagonal() {
    let m: Mat4<f32> = Mat4::identity(0.0, 1.0);
    for y in 0..4 {
        for x in 0..4 {
            assert_eq!(m.get(x, y), if x == y { 1.0 } else { 0.0 });
        }
    }
}

#[test]
fn translation_fills_row_three() {
    let m = Mat4::translation(0.0f32, 1.0, Vector3::new(5.0, 6.0, 7.0));
    assert_eq!(m.get(0, 3), 5.0);
    assert_eq!(m.get(1, 3), 6.0);
    assert_eq!(m.get(2, 3), 7.0);
    assert_eq!(m.get(3, 3), 1.0);
    assert_eq!(m.get(0, 0), 1.0);
    assert_eq!(m.get(3, 0), 0.0);
}

#[test]
fn scale_fills_the_diagonal() {
    let m = Mat4::scale(0.0f32, 1.0, Vector3::new(2.0, 3.0, 4.0));
    assert_eq!(m.get(0, 0), 2.0);
    assert_eq!(m.get(1, 1), 3.0);
    assert_eq!(m.get(2, 2), 4.0);
    assert_eq!(m.get(3, 3), 1.0);
    assert_eq!(m.get(1, 0), 0.0);
}

#[test]
fn rotation_constructors_place_sine_and_cosine() {
    let a = 0.7f32;
    let (rx, ry, rz) = rotation_mats(a.sin(), a.cos());
    assert_eq!(rx.get(1, 1), a.cos());
    assert_eq!(rx.get(2, 1), a.sin());
    assert_eq!(rx.get(1, 2), -a.sin());
    assert_eq!(rx.get(2, 2), a.cos());
    assert_eq!(ry.get(0, 0), a.cos());
    assert_eq!(ry.get(2, 0), -a.sin());
    assert_eq!(ry.get(0, 2), a.sin());
    assert_eq!(rz.get(0, 0), a.cos());
    assert_eq!(rz.get(1, 0), a.sin());
    assert_eq!(rz.get(0, 1), -a.sin());
}

#[test]
fn get_set_round_trip() {
    let mut m: Mat4<f32> = Mat4::identity(0.0, 1.0);
    m.set(2, 1, 9.5);
    assert_eq!(m.get(2, 1), 9.5);
    assert_eq!(m.get(1, 2), 0.0);
}

// Multiplication is associative but not commutative; the library proves the
// exact-arithmetic form, this checks it numerically through the layout type.
#[test]
fn multiply_associative_not_commutative() {
    let mut seed: u32 = 12345;
    let mut next = move || {
        seed = seed.wrapping_mul(1664525).wrapping_add(1013904223);
        ((seed >> 8) as f32 / 8_388_608.0) - 1.0
    };
    for _ in 0..5 {
        let mut mats: Vec<Mat4<f32>> = Vec::new();
        for _ in 0..3 {
            let mut m = Mat4::identity(0.0f32, 1.0f32);
            for y in 0..4 {
                for x in 0..4 {
                    m.set(x, y, next());
                }
            }
            mats.push(m);
        }
        let ab_c = mult(&mult(&mats[0], &mats[1]), &mats[2]);
        let a_bc = mult(&mats[0], &mult(&mats[1], &mats[2]));
        assert!(approx_eq(&ab_c, &a_bc, 1e-4));
    }
    // a translation and a non-uniform scale do not commute
    let t = Mat4::translation(0.0f32, 1.0, Vector3::new(1.0, 0.0, 0.0));
    let s = Mat4::scale(0.0f32, 1.0, Vector3::new(2.0, 1.0, 1.0));
    let ts = mult(&t, &s);
    let st = mult(&s, &t);
    assert!(!approx_eq(&ts, &st, 1e-4));
    assert_eq!(ts.get(0, 3), 1.0);
    assert_eq!(st.get(0, 3), 2.0);
}

fn model_mat(tr: Vector3<f32>, rot: Vector3<f32>, sc: Vector3<f32>) -> Mat4<f32> {
    let t = Mat4::translation(0.0, 1.0, tr);
    let rx = Mat4::rotation_x(0.0, 1.0, rot.x.sin(), rot.x.cos(), -rot.x.sin());
    let ry = Mat4::rotation_y(0.0, 1.0, rot.y.sin(), rot.y.cos(), -rot.y.sin());
    let rz = Mat4::rotation_z(0.0, 1.0, rot.z.sin(), rot.z.cos(), -rot.z.sin());
    let s = Mat4::scale(0.0, 1.0, sc);
    mult(&t, &mult(&mult(&rz, &mult(&ry, &rx)), &s))
}

fn inverse_mat(tr: Vector3<f32>, rot: Vector3<f32>, sc: Vector3<f32>) -> Mat4<f32> {
    let t = Mat4::translation(0.0, 1.0, Vector3::new(-tr.x, -tr.y, -tr.z));
    let rx = Mat4::rotation_x(0.0, 1.0, (-rot.x).sin(), (-rot.x).cos(), -(-rot.x).sin());
    let ry = Mat4::rotation_y(0.0, 1.0, (-rot.y).sin(), (-rot.y).cos(), -(-rot.y).sin());
    let rz = Mat4::rotation_z(0.0, 1.0, (-rot.z).sin(), (-rot.z).cos(), -(-rot.z).sin());
    let s = Mat4::scale(0.0, 1.0, Vector3::new(1.0 / sc.x, 1.0 / sc.y, 1.0 / sc.z));
    mult(&s, &mult(&mult(&rx, &mult(&ry, &rz)), &t))
}

// The model matrix composed with its transform inverse approximates the
// identity for any transform without a zero scale component; the library
// proves the exact-arithmetic form.
#[test]
fn model_times_inverse_is_identity() {
    let mut seed: u32 = 777;
    let mut next = move || {
        seed = seed.wrapping_mul(1664525).wrapping_add(1013904223);
        ((seed >> 8) as f32 / 8_388_608.0) - 1.0
    };
    let identity: Mat4<f32> = Mat4::identity(0.0, 1.0);
    for _ in 0..20 {
        let tr = Vector3::new(next() * 10.0, next() * 10.0, next() * 10.0);
        let rot = Vector3::new(next() * 3.0, next() * 3.0, next() * 3.0);
        // keep the scale away from zero
        let sc = Vector3::new(
            1.25f32 + next().abs() * 2.0,
            0.25f32 + next().abs() * 2.0,
            0.5f32 + next().abs() * 2.0,
        );
        let product = mult(&model_mat(tr, rot, sc), &inverse_mat(tr, rot, sc));
        assert!(approx_eq(&product, &identity, 1e-4));
    }
}

fn perspective(fov: f32, aspect_ratio: f32, near: f32, far: f32) -> Mat4<f32> {
    let scale = (fov * 0.5 * std::f32::consts::PI / 180.0).tan() * near;
    let r = aspect_ratio * scale;
    let l = -r;
    let t = scale;
    let b = -t;
    let mut mat = Mat4::identity(0.0f32, 1.0f32);
    mat.set(0, 0, 2.0 * near / (r - l));
    mat.set(1, 1, 2.0 * near / (t - b));
    mat.set(0, 2, -(r + l) / (r - l));
    mat.set(1, 2, (t + b) / (t - b));
    mat.set(2, 2, -(far + near) / (far - near));
    mat.set(3, 2, -1.0);
    mat.set(2, 3, -(2.0 * far * near) / (far - near));
    mat.set(3, 3, 0.0);
    mat
}

fn xform(v: [f32; 4], m: &Mat4<f32>) -> [f32; 4] {
    let mut out = [0.0f32; 4];
    for c in 0..4 {
        let mut sum = 0.0f32;
        for r in 0..4 {
            sum += v[r] * m.get(c, r);
        }
        out[c] = sum;
    }
    out
}

// The near-plane center lands at normalized depth -1 and the far-plane
// center at +1; the library proves the exact-arithmetic form.
#[test]
fn perspective_depth_round_trip() {
    let near = 0.5f32;
    let far = 100.0f32;
    let proj = perspective(80.0, 1.5, near, far);
    let near_clip = xform([0.0, 0.0, -near, 1.0], &proj);
    assert!(near_clip[3] > 0.0);
    assert!((near_clip[2] / near_clip[3] - (-1.0)).abs() < 1e-5);
    let far_clip = xform([0.0, 0.0, -far, 1.0], &proj);
    assert!(far_clip[3] > 0.0);
    assert!((far_clip[2] / far_clip[3] - 1.0).abs() < 1e-5);
}
