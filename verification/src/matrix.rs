//! The rotation transform about the vertical axis.
//!
//! The transform is a 4×4 matrix in column-major layout, as the graphics
//! API expects it. The library states its algebra in scaled integers: a
//! sine/cosine pair for an angle is carried as `s` and `c` at a scale
//! `k` (that is, `k` times the real sine and cosine), and every pair
//! that satisfies the Pythagorean identity `s² + c² = k²` — which the
//! real sine and cosine of any angle satisfy at any scale — yields a
//! valid rotation: the matrix is orthogonal, its determinant is the
//! appropriate power of the scale (1 at scale 1), and it leaves the
//! vertical axis pointwise fixed. The host computes the floating-point
//! sine and cosine and fills the matrix in the same layout.

use vstd::prelude::*;

verus! {

/// Entry at `row`, `col` of a 4×4 matrix stored column-major.
pub open spec fn entry(m: Seq<int>, row: int, col: int) -> int {
    m[col * 4 + row]
}

/// Column-major 4×4 rotation about the vertical axis at scale `k`, for
/// the sine `s` and cosine `c` (both scaled by `k`).
pub open spec fn rotation_y(s: int, c: int, k: int) -> Seq<int> {
    seq![c, 0, s, 0, 0, k, 0, 0, -s, 0, c, 0, 0, 0, 0, k]
}

/// One entry of a matrix product: row `row` of `a` times column `col`
/// of `b`.
pub open spec fn product_entry(a: Seq<int>, b: Seq<int>, row: int, col: int) -> int {
    entry(a, row, 0) * entry(b, 0, col) + entry(a, row, 1) * entry(b, 1, col) + entry(a, row, 2)
        * entry(b, 2, col) + entry(a, row, 3) * entry(b, 3, col)
}

/// 4×4 matrix product, column-major.
pub open spec fn mat_mul(a: Seq<int>, b: Seq<int>) -> Seq<int> {
    Seq::new(16, |i: int| product_entry(a, b, i % 4, i / 4))
}

/// Transpose of a 4×4 matrix, column-major.
pub open spec fn transpose(m: Seq<int>) -> Seq<int> {
    Seq::new(16, |i: int| entry(m, i / 4, i % 4))
}

/// The identity matrix scaled by `k`, column-major.
pub open spec fn scaled_identity(k: int) -> Seq<int> {
    Seq::new(16, |i: int| if i % 4 == i / 4 { k } else { 0 })
}

/// The matrix applied to a homogeneous column vector.
pub open spec fn apply(m: Seq<int>, v: Seq<int>) -> Seq<int> {
    Seq::new(
        4,
        |r: int|
            entry(m, r, 0) * v[0] + entry(m, r, 1) * v[1] + entry(m, r, 2) * v[2] + entry(m, r, 3)
                * v[3],
    )
}

/// Determinant of a 3×3 matrix given row by row.
pub open spec fn det3_of(
    a: int,
    b: int,
    c: int,
    d: int,
    e: int,
    f: int,
    g: int,
    h: int,
    i: int,
) -> int {
    a * (e * i - f * h) - b * (d * i - f * g) + c * (d * h - e * g)
}

/// Determinant of the upper-left 3×3 block — the rotation part of the
/// transform.
pub open spec fn rotation_block_det(m: Seq<int>) -> int {
    det3_of(
        entry(m, 0, 0),
        entry(m, 0, 1),
        entry(m, 0, 2),
        entry(m, 1, 0),
        entry(m, 1, 1),
        entry(m, 1, 2),
        entry(m, 2, 0),
        entry(m, 2, 1),
        entry(m, 2, 2),
    )
}

/// Determinant of a 4×4 matrix, by cofactor expansion along the last
/// column.
pub open spec fn det4(m: Seq<int>) -> int {
    -entry(m, 0, 3) * det3_of(
        entry(m, 1, 0),
        entry(m, 1, 1),
        entry(m, 1, 2),
        entry(m, 2, 0),
        entry(m, 2, 1),
        entry(m, 2, 2),
        entry(m, 3, 0),
        entry(m, 3, 1),
        entry(m, 3, 2),
    ) + entry(m, 1, 3) * det3_of(
        entry(m, 0, 0),
        entry(m, 0, 1),
        entry(m, 0, 2),
        entry(m, 2, 0),
        entry(m, 2, 1),
        entry(m, 2, 2),
        entry(m, 3, 0),
        entry(m, 3, 1),
        entry(m, 3, 2),
    ) - entry(m, 2, 3) * det3_of(
        entry(m, 0, 0),
        entry(m, 0, 1),
        entry(m, 0, 2),
        entry(m, 1, 0),
        entry(m, 1, 1),
        entry(m, 1, 2),
        entry(m, 3, 0),
        entry(m, 3, 1),
        entry(m, 3, 2),
    ) + entry(m, 3, 3) * det3_of(
        entry(m, 0, 0),
        entry(m, 0, 1),
        entry(m, 0, 2),
        entry(m, 1, 0),
        entry(m, 1, 1),
        entry(m, 1, 2),
        entry(m, 2, 0),
        entry(m, 2, 1),
        entry(m, 2, 2),
    )
}

/// Build the rotation matrix for a scaled sine/cosine pair, in the
/// column-major layout the graphics API expects.
pub fn rotation_matrix_y(s: i32, c: i32, k: i32) -> (m: Vec<i32>)
    requires
        s > i32::MIN,
    ensures
        m@.len() == 16,
        forall|i: int|
            0 <= i < 16 ==> (m@[i] as int) == rotation_y(s as int, c as int, k as int)[i],
{
    let negated_sine: i32 = -s;
    let m: Vec<i32> = vec![c, 0, s, 0, 0, k, 0, 0, negated_sine, 0, c, 0, 0, 0, 0, k];
    proof {
        assert(m@.map_values(|x: i32| x as int) =~= rotation_y(s as int, c as int, k as int));
        assert forall|i: int| 0 <= i < 16 implies (m@[i] as int) == rotation_y(
            s as int,
            c as int,
            k as int,
        )[i] by {
            assert(m@.map_values(|x: i32| x as int)[i] == m@[i] as int);
        }
    }
    m
}

/// Orthogonality: for every sine/cosine pair at scale `k`, the transpose
/// of the rotation times the rotation is the identity (times `k²`, the
/// square of the scale) — at scale 1, `MᵀM = I`.
pub proof fn lemma_rotation_y_orthogonal(s: int, c: int, k: int)
    requires
        s * s + c * c == k * k,
    ensures
        mat_mul(transpose(rotation_y(s, c, k)), rotation_y(s, c, k)) =~= scaled_identity(k * k),
{
    let m = rotation_y(s, c, k);
    let t = transpose(m);
    let p = mat_mul(t, m);
    assert((-s) * (-s) == s * s) by (nonlinear_arith);
    assert(c * (-s) + s * c == 0) by (nonlinear_arith);
    assert((-s) * c + c * s == 0) by (nonlinear_arith);
    assert(entry(m, 0, 0) == c && entry(m, 1, 0) == 0 && entry(m, 2, 0) == s && entry(m, 3, 0)
        == 0);
    assert(entry(m, 0, 1) == 0 && entry(m, 1, 1) == k && entry(m, 2, 1) == 0 && entry(m, 3, 1)
        == 0);
    assert(entry(m, 0, 2) == -s && entry(m, 1, 2) == 0 && entry(m, 2, 2) == c && entry(m, 3, 2)
        == 0);
    assert(entry(m, 0, 3) == 0 && entry(m, 1, 3) == 0 && entry(m, 2, 3) == 0 && entry(m, 3, 3)
        == k);
    assert(entry(t, 0, 0) == c && entry(t, 1, 0) == 0 && entry(t, 2, 0) == -s && entry(t, 3, 0)
        == 0);
    assert(entry(t, 0, 1) == 0 && entry(t, 1, 1) == k && entry(t, 2, 1) == 0 && entry(t, 3, 1)
        == 0);
    assert(entry(t, 0, 2) == s && entry(t, 1, 2) == 0 && entry(t, 2, 2) == c && entry(t, 3, 2)
        == 0);
    assert(entry(t, 0, 3) == 0 && entry(t, 1, 3) == 0 && entry(t, 2, 3) == 0 && entry(t, 3, 3)
        == k);
    assert(p[0] == k * k);
    assert(p[1] == 0);
    assert(p[2] == 0);
    assert(p[3] == 0);
    assert(p[4] == 0);
    assert(p[5] == k * k);
    assert(p[6] == 0);
    assert(p[7] == 0);
    assert(p[8] == 0);
    assert(p[9] == 0);
    assert(p[10] == k * k);
    assert(p[11] == 0);
    assert(p[12] == 0);
    assert(p[13] == 0);
    assert(p[14] == 0);
    assert(p[15] == k * k);
}

/// Determinant: for every sine/cosine pair at scale `k`, the rotation
/// block's determinant is `k³` and the full transform's is `k⁴` — both
/// exactly 1 at scale 1: the transform preserves orientation and volume.
pub proof fn lemma_rotation_y_determinant(s: int, c: int, k: int)
    requires
        s * s + c * c == k * k,
    ensures
        rotation_block_det(rotation_y(s, c, k)) == k * k * k,
        det4(rotation_y(s, c, k)) == k * k * k * k,
{
    let m = rotation_y(s, c, k);
    assert(rotation_block_det(m) == c * (k * c - 0 * 0) - 0 * (0 * c - 0 * s) + (-s) * (0 * 0 - k
        * s));
    assert(c * (k * c - 0 * 0) - 0 * (0 * c - 0 * s) + (-s) * (0 * 0 - k * s) == k * (s * s + c
        * c)) by (nonlinear_arith);
    assert(k * (s * s + c * c) == k * k * k) by (nonlinear_arith)
        requires
            s * s + c * c == k * k,
    ;
    assert(det4(m) == k * rotation_block_det(m) + (-0) * det3_of(0, k, 0, s, 0, c, 0, 0, 0) + 0
        * det3_of(c, 0, -s, s, 0, c, 0, 0, 0) - 0 * det3_of(c, 0, -s, 0, k, 0, 0, 0, 0));
    assert(k * (k * k * k) == k * k * k * k) by (nonlinear_arith);
}

/// The vertical axis stays fixed: for every sine/cosine pair at scale
/// `k`, applying the rotation to a point on the vertical axis gives back
/// the same point (scaled by `k`, like every image under the scaled
/// transform — the same point exactly at scale 1).
pub proof fn lemma_rotation_y_fixes_vertical_axis(s: int, c: int, k: int, y: int, w: int)
    ensures
        apply(rotation_y(s, c, k), seq![0, y, 0, w]) =~= seq![0, k * y, 0, k * w],
{
    let m = rotation_y(s, c, k);
    let v = seq![0, y, 0, w];
    let image = apply(m, v);
    assert(v[0] == 0 && v[1] == y && v[2] == 0 && v[3] == w);
    assert(entry(m, 0, 1) == 0 && entry(m, 1, 1) == k && entry(m, 2, 1) == 0 && entry(m, 3, 1)
        == 0);
    assert(entry(m, 0, 3) == 0 && entry(m, 1, 3) == 0 && entry(m, 2, 3) == 0 && entry(m, 3, 3)
        == k);
    assert(image[0] == 0);
    assert(image[1] == k * y);
    assert(image[2] == 0);
    assert(image[3] == k * w);
}

} // verus!
