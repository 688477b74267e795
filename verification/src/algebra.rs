//! The algebra of the matrix layer, over exact (unbounded integer) entries.
//! The executable layer evaluates matrices at floating point, where every law
//! here holds up to rounding; what these lemmas pin down is the convention:
//! the storage layout of `math::Mat4`, the row-by-column multiplication rule,
//! the order transforms compose in, and the projection's depth mapping. A
//! matrix is its sixteen entries in storage order, the cell at
//! (`column`, `row`) at index `row * 4 + column`, exactly as `math::Mat4`
//! keeps them; a point is a row vector carried through on the left.

use vstd::prelude::*;
use vstd::arithmetic::mul::{
    lemma_mul_is_associative,
    lemma_mul_is_distributive_add,
    lemma_mul_is_distributive_add_other_way,
};

verus! {

/// Sixteen entries in storage order.
pub open spec fn is_mat(m: Seq<int>) -> bool {
    m.len() == 16
}

/// One cell of a product: the row-by-column rule,
/// `(a·b)(c, r) = Σ_t a(c, t) · b(t, r)`.
pub open spec fn mul_entry(a: Seq<int>, b: Seq<int>, c: int, r: int) -> int {
    a[0 * 4 + c] * b[r * 4 + 0] + a[1 * 4 + c] * b[r * 4 + 1] + a[2 * 4 + c] * b[r * 4 + 2] + a[3
        * 4 + c] * b[r * 4 + 3]
}

/// The matrix product, in storage order.
pub open spec fn mat_mul(a: Seq<int>, b: Seq<int>) -> Seq<int> {
    Seq::new(16, |k: int| mul_entry(a, b, k % 4, k / 4))
}

/// The identity pattern.
pub open spec fn mat_identity() -> Seq<int> {
    Seq::new(16, |k: int| if k / 4 == k % 4 { 1int } else { 0int })
}

/// The translation matrix: identity with the offset in the cells at
/// (0, 3), (1, 3), (2, 3) — as `math::Mat4::translation` places it.
pub open spec fn mat_translation(tx: int, ty: int, tz: int) -> Seq<int> {
    Seq::new(
        16,
        |k: int|
            if k == 12 {
                tx
            } else if k == 13 {
                ty
            } else if k == 14 {
                tz
            } else if k / 4 == k % 4 {
                1int
            } else {
                0int
            },
    )
}

/// The scale matrix: the factors on the diagonal — as `math::Mat4::scale`
/// places them.
pub open spec fn mat_scale(sx: int, sy: int, sz: int) -> Seq<int> {
    Seq::new(
        16,
        |k: int|
            if k == 0 {
                sx
            } else if k == 5 {
                sy
            } else if k == 10 {
                sz
            } else if k == 15 {
                1int
            } else {
                0int
            },
    )
}

/// Rotation about the x axis, from the angle's sine and cosine — the cells
/// `math::Mat4::rotation_x` fills.
pub open spec fn mat_rotation_x(s: int, c: int) -> Seq<int> {
    Seq::new(
        16,
        |k: int|
            if k == 5 {
                c
            } else if k == 6 {
                s
            } else if k == 9 {
                -s
            } else if k == 10 {
                c
            } else if k == 0 || k == 15 {
                1int
            } else {
                0int
            },
    )
}

/// Rotation about the y axis — the cells `math::Mat4::rotation_y` fills.
pub open spec fn mat_rotation_y(s: int, c: int) -> Seq<int> {
    Seq::new(
        16,
        |k: int|
            if k == 0 {
                c
            } else if k == 2 {
                -s
            } else if k == 8 {
                s
            } else if k == 10 {
                c
            } else if k == 5 || k == 15 {
                1int
            } else {
                0int
            },
    )
}

/// Rotation about the z axis — the cells `math::Mat4::rotation_z` fills.
pub open spec fn mat_rotation_z(s: int, c: int) -> Seq<int> {
    Seq::new(
        16,
        |k: int|
            if k == 0 {
                c
            } else if k == 1 {
                s
            } else if k == 4 {
                -s
            } else if k == 5 {
                c
            } else if k == 10 || k == 15 {
                1int
            } else {
                0int
            },
    )
}

/// The Euler rotation, composed z then y then x: `Rz · (Ry · Rx)`.
pub open spec fn mat_model_rot(sx: int, cx: int, sy: int, cy: int, sz: int, cz: int) -> Seq<int> {
    mat_mul(mat_rotation_z(sz, cz), mat_mul(mat_rotation_y(sy, cy), mat_rotation_x(sx, cx)))
}

/// The model matrix: translate, then rotate, then scale, applied right to
/// left — `T · (R · S)`.
pub open spec fn mat_model(
    tx: int,
    ty: int,
    tz: int,
    sx: int,
    cx: int,
    sy: int,
    cy: int,
    sz: int,
    cz: int,
    kx: int,
    ky: int,
    kz: int,
) -> Seq<int> {
    mat_mul(
        mat_translation(tx, ty, tz),
        mat_mul(mat_model_rot(sx, cx, sy, cy, sz, cz), mat_scale(kx, ky, kz)),
    )
}

/// The inverse the transform layer builds: reciprocal scale, reversed
/// rotations at negated angles, negated translation — `S' · (R' · T')`.
pub open spec fn mat_model_inverse(
    tx: int,
    ty: int,
    tz: int,
    sx: int,
    cx: int,
    sy: int,
    cy: int,
    sz: int,
    cz: int,
    ix: int,
    iy: int,
    iz: int,
) -> Seq<int> {
    mat_mul(
        mat_scale(ix, iy, iz),
        mat_mul(
            mat_mul(
                mat_rotation_x(-sx, cx),
                mat_mul(mat_rotation_y(-sy, cy), mat_rotation_z(-sz, cz)),
            ),
            mat_translation(-tx, -ty, -tz),
        ),
    )
}

/// One cell of a triple product, reassociated: multiplication distributes
/// over the four-term sums either way.
proof fn lemma_mul_entry_assoc(a: Seq<int>, b: Seq<int>, c: Seq<int>, x: int, y: int)
    requires
        is_mat(a),
        is_mat(b),
        is_mat(c),
        0 <= x < 4,
        0 <= y < 4,
    ensures
        mul_entry(mat_mul(a, b), c, x, y) == mul_entry(a, mat_mul(b, c), x, y),
{
    assert(mat_mul(a, b)[0 * 4 + x] == mul_entry(a, b, x, 0));
    assert(mat_mul(a, b)[1 * 4 + x] == mul_entry(a, b, x, 1));
    assert(mat_mul(a, b)[2 * 4 + x] == mul_entry(a, b, x, 2));
    assert(mat_mul(a, b)[3 * 4 + x] == mul_entry(a, b, x, 3));
    assert(mat_mul(b, c)[y * 4 + 0] == mul_entry(b, c, 0, y));
    assert(mat_mul(b, c)[y * 4 + 1] == mul_entry(b, c, 1, y));
    assert(mat_mul(b, c)[y * 4 + 2] == mul_entry(b, c, 2, y));
    assert(mat_mul(b, c)[y * 4 + 3] == mul_entry(b, c, 3, y));
    let a0 = a[0int * 4 + x];
    let a1 = a[1int * 4 + x];
    let a2 = a[2int * 4 + x];
    let a3 = a[3int * 4 + x];
    let c0 = c[y * 4 + 0int];
    let c1 = c[y * 4 + 1int];
    let c2 = c[y * 4 + 2int];
    let c3 = c[y * 4 + 3int];
    let b00 = b[0int];
    let b10 = b[1int];
    let b20 = b[2int];
    let b30 = b[3int];
    let b01 = b[4int];
    let b11 = b[5int];
    let b21 = b[6int];
    let b31 = b[7int];
    let b02 = b[8int];
    let b12 = b[9int];
    let b22 = b[10int];
    let b32 = b[11int];
    let b03 = b[12int];
    let b13 = b[13int];
    let b23 = b[14int];
    let b33 = b[15int];
    lemma_mul_is_distributive_add_other_way(c0, a0 * b00 + a1 * b10 + a2 * b20, a3 * b30);
    lemma_mul_is_distributive_add_other_way(c0, a0 * b00 + a1 * b10, a2 * b20);
    lemma_mul_is_distributive_add_other_way(c0, a0 * b00, a1 * b10);
    lemma_mul_is_associative(a0, b00, c0);
    lemma_mul_is_associative(a1, b10, c0);
    lemma_mul_is_associative(a2, b20, c0);
    lemma_mul_is_associative(a3, b30, c0);
    lemma_mul_is_distributive_add_other_way(c1, a0 * b01 + a1 * b11 + a2 * b21, a3 * b31);
    lemma_mul_is_distributive_add_other_way(c1, a0 * b01 + a1 * b11, a2 * b21);
    lemma_mul_is_distributive_add_other_way(c1, a0 * b01, a1 * b11);
    lemma_mul_is_associative(a0, b01, c1);
    lemma_mul_is_associative(a1, b11, c1);
    lemma_mul_is_associative(a2, b21, c1);
    lemma_mul_is_associative(a3, b31, c1);
    lemma_mul_is_distributive_add_other_way(c2, a0 * b02 + a1 * b12 + a2 * b22, a3 * b32);
    lemma_mul_is_distributive_add_other_way(c2, a0 * b02 + a1 * b12, a2 * b22);
    lemma_mul_is_distributive_add_other_way(c2, a0 * b02, a1 * b12);
    lemma_mul_is_associative(a0, b02, c2);
    lemma_mul_is_associative(a1, b12, c2);
    lemma_mul_is_associative(a2, b22, c2);
    lemma_mul_is_associative(a3, b32, c2);
    lemma_mul_is_distributive_add_other_way(c3, a0 * b03 + a1 * b13 + a2 * b23, a3 * b33);
    lemma_mul_is_distributive_add_other_way(c3, a0 * b03 + a1 * b13, a2 * b23);
    lemma_mul_is_distributive_add_other_way(c3, a0 * b03, a1 * b13);
    lemma_mul_is_associative(a0, b03, c3);
    lemma_mul_is_associative(a1, b13, c3);
    lemma_mul_is_associative(a2, b23, c3);
    lemma_mul_is_associative(a3, b33, c3);
    lemma_mul_is_distributive_add(a0, b00 * c0 + b01 * c1 + b02 * c2, b03 * c3);
    lemma_mul_is_distributive_add(a0, b00 * c0 + b01 * c1, b02 * c2);
    lemma_mul_is_distributive_add(a0, b00 * c0, b01 * c1);
    lemma_mul_is_distributive_add(a1, b10 * c0 + b11 * c1 + b12 * c2, b13 * c3);
    lemma_mul_is_distributive_add(a1, b10 * c0 + b11 * c1, b12 * c2);
    lemma_mul_is_distributive_add(a1, b10 * c0, b11 * c1);
    lemma_mul_is_distributive_add(a2, b20 * c0 + b21 * c1 + b22 * c2, b23 * c3);
    lemma_mul_is_distributive_add(a2, b20 * c0 + b21 * c1, b22 * c2);
    lemma_mul_is_distributive_add(a2, b20 * c0, b21 * c1);
    lemma_mul_is_distributive_add(a3, b30 * c0 + b31 * c1 + b32 * c2, b33 * c3);
    lemma_mul_is_distributive_add(a3, b30 * c0 + b31 * c1, b32 * c2);
    lemma_mul_is_distributive_add(a3, b30 * c0, b31 * c1);
}

/// Matrix multiplication is associative: `(a·b)·c = a·(b·c)`.
pub proof fn lemma_mat_mul_assoc(a: Seq<int>, b: Seq<int>, c: Seq<int>)
    requires
        is_mat(a),
        is_mat(b),
        is_mat(c),
    ensures
        mat_mul(mat_mul(a, b), c) == mat_mul(a, mat_mul(b, c)),
{
    assert forall|k: int| 0 <= k < 16 implies mat_mul(mat_mul(a, b), c)[k] == mat_mul(
        a,
        mat_mul(b, c),
    )[k] by {
        lemma_mul_entry_assoc(a, b, c, k % 4, k / 4);
    }
    assert(mat_mul(mat_mul(a, b), c) =~= mat_mul(a, mat_mul(b, c)));
}

/// The identity pattern is a left unit.
pub proof fn lemma_mul_identity_left(m: Seq<int>)
    requires
        is_mat(m),
    ensures
        mat_mul(mat_identity(), m) == m,
{
    assert forall|k: int| 0 <= k < 16 implies mat_mul(mat_identity(), m)[k] == m[k] by {
        let x = k % 4;
        let y = k / 4;
        assert(mat_identity()[0 * 4 + x] == if x == 0 { 1int } else { 0int });
        assert(mat_identity()[1 * 4 + x] == if x == 1 { 1int } else { 0int });
        assert(mat_identity()[2 * 4 + x] == if x == 2 { 1int } else { 0int });
        assert(mat_identity()[3 * 4 + x] == if x == 3 { 1int } else { 0int });
    }
    assert(mat_mul(mat_identity(), m) =~= m);
}

/// The identity pattern is a right unit.
pub proof fn lemma_mul_identity_right(m: Seq<int>)
    requires
        is_mat(m),
    ensures
        mat_mul(m, mat_identity()) == m,
{
    assert forall|k: int| 0 <= k < 16 implies mat_mul(m, mat_identity())[k] == m[k] by {
        let x = k % 4;
        let y = k / 4;
        assert(mat_identity()[y * 4 + 0] == if y == 0 { 1int } else { 0int });
        assert(mat_identity()[y * 4 + 1] == if y == 1 { 1int } else { 0int });
        assert(mat_identity()[y * 4 + 2] == if y == 2 { 1int } else { 0int });
        assert(mat_identity()[y * 4 + 3] == if y == 3 { 1int } else { 0int });
    }
    assert(mat_mul(m, mat_identity()) =~= m);
}

/// Two matrices that do not commute: a translation and a non-uniform
/// scale. Multiplication order encodes transform order, so it cannot be
/// commutative.
pub proof fn lemma_mat_mul_not_commutative()
    ensures
        exists|a: Seq<int>, b: Seq<int>|
            is_mat(a) && is_mat(b) && #[trigger] mat_mul(a, b) != #[trigger] mat_mul(b, a),
{
    let t = mat_translation(1, 0, 0);
    let s = mat_scale(2, 1, 1);
    assert(mat_mul(t, s)[12] == mul_entry(t, s, 0, 3));
    assert(mat_mul(s, t)[12] == mul_entry(s, t, 0, 3));
    assert(mul_entry(t, s, 0, 3) == 1);
    assert(mul_entry(s, t, 0, 3) == 2);
    assert(mat_mul(t, s) != mat_mul(s, t));
}

/// Opposite translations cancel.
pub proof fn lemma_translation_inverse(tx: int, ty: int, tz: int)
    ensures
        mat_mul(mat_translation(tx, ty, tz), mat_translation(-tx, -ty, -tz)) == mat_identity(),
{
    assert(mat_mul(mat_translation(tx, ty, tz), mat_translation(-tx, -ty, -tz))
        =~= mat_identity());
}

/// Reciprocal scales cancel.
pub proof fn lemma_scale_inverse(sx: int, sy: int, sz: int, ix: int, iy: int, iz: int)
    requires
        sx * ix == 1,
        sy * iy == 1,
        sz * iz == 1,
    ensures
        mat_mul(mat_scale(sx, sy, sz), mat_scale(ix, iy, iz)) == mat_identity(),
{
    assert(mat_mul(mat_scale(sx, sy, sz), mat_scale(ix, iy, iz)) =~= mat_identity());
}

/// A rotation and its negated-angle rotation cancel, given the one fact
/// trigonometry supplies: the sine and cosine lie on the unit circle.
pub proof fn lemma_rotation_x_inverse(s: int, c: int)
    requires
        s * s + c * c == 1,
    ensures
        mat_mul(mat_rotation_x(s, c), mat_rotation_x(-s, c)) == mat_identity(),
{
    assert((-s) * (-s) == s * s) by (nonlinear_arith);
    assert((-s) * c == -(s * c)) by (nonlinear_arith);
    assert(c * (-s) == -(c * s)) by (nonlinear_arith);
    assert(s * c == c * s) by (nonlinear_arith);
    assert(mat_mul(mat_rotation_x(s, c), mat_rotation_x(-s, c)) =~= mat_identity());
}

pub proof fn lemma_rotation_y_inverse(s: int, c: int)
    requires
        s * s + c * c == 1,
    ensures
        mat_mul(mat_rotation_y(s, c), mat_rotation_y(-s, c)) == mat_identity(),
{
    assert((-s) * (-s) == s * s) by (nonlinear_arith);
    assert((-s) * c == -(s * c)) by (nonlinear_arith);
    assert(c * (-s) == -(c * s)) by (nonlinear_arith);
    assert(s * c == c * s) by (nonlinear_arith);
    assert(mat_mul(mat_rotation_y(s, c), mat_rotation_y(-s, c)) =~= mat_identity());
}

pub proof fn lemma_rotation_z_inverse(s: int, c: int)
    requires
        s * s + c * c == 1,
    ensures
        mat_mul(mat_rotation_z(s, c), mat_rotation_z(-s, c)) == mat_identity(),
{
    assert((-s) * (-s) == s * s) by (nonlinear_arith);
    assert((-s) * c == -(s * c)) by (nonlinear_arith);
    assert(c * (-s) == -(c * s)) by (nonlinear_arith);
    assert(s * c == c * s) by (nonlinear_arith);
    assert(mat_mul(mat_rotation_z(s, c), mat_rotation_z(-s, c)) =~= mat_identity());
}

/// The model matrix composed with the transform layer's inverse is the
/// identity, over exact entries. The hypotheses name exactly the inputs the
/// law excludes: each scale factor must have a reciprocal (no zero scale),
/// and each angle's sine and cosine must lie on the unit circle, which
/// floating-point evaluation meets only up to rounding.
pub proof fn lemma_model_inverse(
    tx: int,
    ty: int,
    tz: int,
    sx: int,
    cx: int,
    sy: int,
    cy: int,
    sz: int,
    cz: int,
    kx: int,
    ky: int,
    kz: int,
    ix: int,
    iy: int,
    iz: int,
)
    requires
        sx * sx + cx * cx == 1,
        sy * sy + cy * cy == 1,
        sz * sz + cz * cz == 1,
        kx * ix == 1,
        ky * iy == 1,
        kz * iz == 1,
    ensures
        mat_mul(
            mat_model(tx, ty, tz, sx, cx, sy, cy, sz, cz, kx, ky, kz),
            mat_model_inverse(tx, ty, tz, sx, cx, sy, cy, sz, cz, ix, iy, iz),
        ) == mat_identity(),
{
    let t = mat_translation(tx, ty, tz);
    let t_inv = mat_translation(-tx, -ty, -tz);
    let rx = mat_rotation_x(sx, cx);
    let ry = mat_rotation_y(sy, cy);
    let rz = mat_rotation_z(sz, cz);
    let rx_inv = mat_rotation_x(-sx, cx);
    let ry_inv = mat_rotation_y(-sy, cy);
    let rz_inv = mat_rotation_z(-sz, cz);
    let k = mat_scale(kx, ky, kz);
    let k_inv = mat_scale(ix, iy, iz);
    let r = mat_mul(rz, mat_mul(ry, rx));
    let r_inv = mat_mul(rx_inv, mat_mul(ry_inv, rz_inv));
    let m = mat_mul(t, mat_mul(r, k));
    let m_inv = mat_mul(k_inv, mat_mul(r_inv, t_inv));

    // k · m_inv = (k · k_inv) · (r_inv · t_inv) = r_inv · t_inv
    lemma_mat_mul_assoc(k, k_inv, mat_mul(r_inv, t_inv));
    lemma_scale_inverse(kx, ky, kz, ix, iy, iz);
    lemma_mul_identity_left(mat_mul(r_inv, t_inv));
    assert(mat_mul(k, m_inv) == mat_mul(r_inv, t_inv));

    // rx · (r_inv · t_inv) = (rx · rx_inv) · ((ry_inv · rz_inv) · t_inv)
    lemma_mat_mul_assoc(rx_inv, mat_mul(ry_inv, rz_inv), t_inv);
    assert(mat_mul(r_inv, t_inv) == mat_mul(rx_inv, mat_mul(mat_mul(ry_inv, rz_inv), t_inv)));
    lemma_mat_mul_assoc(rx, rx_inv, mat_mul(mat_mul(ry_inv, rz_inv), t_inv));
    lemma_rotation_x_inverse(sx, cx);
    lemma_mul_identity_left(mat_mul(mat_mul(ry_inv, rz_inv), t_inv));
    assert(mat_mul(rx, mat_mul(r_inv, t_inv)) == mat_mul(mat_mul(ry_inv, rz_inv), t_inv));

    // ry · ((ry_inv · rz_inv) · t_inv) = (ry · ry_inv) · (rz_inv · t_inv)
    lemma_mat_mul_assoc(ry_inv, rz_inv, t_inv);
    assert(mat_mul(mat_mul(ry_inv, rz_inv), t_inv) == mat_mul(ry_inv, mat_mul(rz_inv, t_inv)));
    lemma_mat_mul_assoc(ry, ry_inv, mat_mul(rz_inv, t_inv));
    lemma_rotation_y_inverse(sy, cy);
    lemma_mul_identity_left(mat_mul(rz_inv, t_inv));
    assert(mat_mul(ry, mat_mul(mat_mul(ry_inv, rz_inv), t_inv)) == mat_mul(rz_inv, t_inv));

    // rz · (rz_inv · t_inv) = (rz · rz_inv) · t_inv = t_inv
    lemma_mat_mul_assoc(rz, rz_inv, t_inv);
    lemma_rotation_z_inverse(sz, cz);
    lemma_mul_identity_left(t_inv);
    assert(mat_mul(rz, mat_mul(rz_inv, t_inv)) == t_inv);

    // (r · k) · m_inv = r · (k · m_inv) = r · (r_inv · t_inv) = t_inv
    lemma_mat_mul_assoc(mat_mul(r, k), k_inv, mat_mul(r_inv, t_inv));
    lemma_mat_mul_assoc(r, k, m_inv);
    assert(mat_mul(mat_mul(r, k), m_inv) == mat_mul(r, mat_mul(k, m_inv)));
    // r · (r_inv · t_inv) = rz · (ry · (rx · (r_inv · t_inv)))
    lemma_mat_mul_assoc(rz, mat_mul(ry, rx), mat_mul(r_inv, t_inv));
    lemma_mat_mul_assoc(ry, rx, mat_mul(r_inv, t_inv));
    assert(mat_mul(r, mat_mul(r_inv, t_inv)) == mat_mul(
        rz,
        mat_mul(ry, mat_mul(rx, mat_mul(r_inv, t_inv))),
    ));
    assert(mat_mul(r, mat_mul(r_inv, t_inv)) == t_inv);

    // m · m_inv = t · ((r · k) · m_inv) = t · t_inv = identity
    lemma_mat_mul_assoc(t, mat_mul(r, k), m_inv);
    assert(mat_mul(m, m_inv) == mat_mul(t, mat_mul(mat_mul(r, k), m_inv)));
    assert(mat_mul(m, m_inv) == mat_mul(t, t_inv));
    lemma_translation_inverse(tx, ty, tz);
}

/// A point carried through a matrix as a row vector: component `c` of the
/// image is `Σ_r v_r · m(c, r)`, the same rule `mul_entry` applies.
pub open spec fn xform_component(
    v0: int,
    v1: int,
    v2: int,
    v3: int,
    m: Seq<int>,
    c: int,
) -> int {
    v0 * m[0 * 4 + c] + v1 * m[1 * 4 + c] + v2 * m[2 * 4 + c] + v3 * m[3 * 4 + c]
}

/// The perspective projection's z and w columns, scaled by the positive
/// factor `f - n` so the entries are exact: the cells `(2, 2)`, `(3, 2)`,
/// `(2, 3)` and `(3, 3)` of the constructor, times `f - n`. The x and y
/// columns are opaque here (`a`, `b`, `ox`, `oy`); they do not touch depth.
pub open spec fn mat_perspective_scaled(
    a: int,
    b: int,
    ox: int,
    oy: int,
    n: int,
    f: int,
) -> Seq<int> {
    Seq::new(
        16,
        |k: int|
            if k == 0 {
                a
            } else if k == 5 {
                b
            } else if k == 8 {
                ox
            } else if k == 9 {
                oy
            } else if k == 10 {
                -(f + n)
            } else if k == 11 {
                -(f - n)
            } else if k == 14 {
                -2 * f * n
            } else {
                0int
            },
    )
}

/// The projection's depth convention, exactly: the near-plane center lands
/// at clip z equal to minus clip w — normalized depth -1 — and the
/// far-plane center at clip z equal to clip w — normalized depth +1. The
/// whole matrix is scaled by the positive `f - n`, which a perspective
/// divide cancels.
pub proof fn lemma_perspective_round_trip(a: int, b: int, ox: int, oy: int, n: int, f: int)
    requires
        0 < n < f,
    ensures
        ({
            let m = mat_perspective_scaled(a, b, ox, oy, n, f);
            let near_z = xform_component(0, 0, -n, 1, m, 2);
            let near_w = xform_component(0, 0, -n, 1, m, 3);
            let far_z = xform_component(0, 0, -f, 1, m, 2);
            let far_w = xform_component(0, 0, -f, 1, m, 3);
            near_w > 0 && near_z == -near_w && far_w > 0 && far_z == far_w
        }),
{
    let m = mat_perspective_scaled(a, b, ox, oy, n, f);
    assert(m[10] == -(f + n));
    assert(m[14] == -2 * f * n);
    assert(m[11] == -(f - n));
    assert(m[15] == 0);
    assert(xform_component(0, 0, -n, 1, m, 2) == (-n) * (-(f + n)) + -2 * f * n);
    assert(xform_component(0, 0, -n, 1, m, 3) == (-n) * (-(f - n)));
    assert((-n) * (-(f + n)) + -2 * f * n == -((-n) * (-(f - n)))) by (nonlinear_arith);
    assert((-n) * (-(f - n)) > 0) by (nonlinear_arith)
        requires
            0 < n < f,
    ;
    assert(xform_component(0, 0, -f, 1, m, 2) == (-f) * (-(f + n)) + -2 * f * n);
    assert(xform_component(0, 0, -f, 1, m, 3) == (-f) * (-(f - n)));
    assert((-f) * (-(f + n)) + -2 * f * n == (-f) * (-(f - n))) by (nonlinear_arith);
    assert((-f) * (-(f - n)) > 0) by (nonlinear_arith)
        requires
            0 < n < f,
    ;
}

} // verus!
