use cube_demo::matrix::rotation_matrix_y;
use cube_demo::mesh::{cube_mesh, INDEX_COUNT, TRIANGLE_COUNT, VERTEX_COUNT, COMPONENTS_PER_VERTEX};

#[test]
fn rotation_matrix_at_angle_zero_is_identity() {
    // sine 0, cosine 1 at scale 1: the rotation by angle zero.
    let m = rotation_matrix_y(0, 1, 1);
    let expected: Vec<i32> = vec![1, 0, 0, 0, 0, 1, 0, 0, 0, 0, 1, 0, 0, 0, 0, 1];
    assert_eq!(m, expected);
}

#[test]
fn rotation_matrix_layout_is_column_major() {
    // A scaled Pythagorean pair: 600^2 + 800^2 = 1000^2.
    let m = rotation_matrix_y(600, 800, 1000);
    assert_eq!(m.len(), 16);
    // First column: (cos, 0, sin, 0).
    assert_eq!(m[0], 800);
    assert_eq!(m[1], 0);
    assert_eq!(m[2], 600);
    assert_eq!(m[3], 0);
    // Second column: the vertical axis is untouched.
    assert_eq!(&m[4..8], &[0, 1000, 0, 0]);
    // Third column: (-sin, 0, cos, 0).
    assert_eq!(m[8], -600);
    assert_eq!(m[9], 0);
    assert_eq!(m[10], 800);
    assert_eq!(m[11], 0);
    // Fourth column: homogeneous.
    assert_eq!(&m[12..16], &[0, 0, 0, 1000]);
}

#[test]
fn rotation_matrix_is_orthogonal_at_sample_angle() {
    // Check M^T * M == k^2 * I numerically for the 600/800/1000 pair.
    let k: i64 = 1000;
    let m = rotation_matrix_y(600, 800, 1000);
    for row in 0..4usize {
        for col in 0..4usize {
            let mut dot: i64 = 0;
            for j in 0..4usize {
                // Row `row` of the transpose is column `row` of m.
                dot += (m[row * 4 + j] as i64) * (m[col * 4 + j] as i64);
            }
            let expected: i64 = if row == col { k * k } else { 0 };
            assert_eq!(dot, expected);
        }
    }
}

#[test]
fn rotation_matrix_determinant_is_scale_cubed() {
    let m = rotation_matrix_y(600, 800, 1000);
    let e = |row: usize, col: usize| m[col * 4 + row] as i64;
    let det3 = e(0, 0) * (e(1, 1) * e(2, 2) - e(1, 2) * e(2, 1))
        - e(0, 1) * (e(1, 0) * e(2, 2) - e(1, 2) * e(2, 0))
        + e(0, 2) * (e(1, 0) * e(2, 1) - e(1, 1) * e(2, 0));
    assert_eq!(det3, 1000i64 * 1000 * 1000);
}

#[test]
fn rotation_leaves_vertical_axis_fixed() {
    // A point on the vertical axis maps to itself (times the scale).
    let m = rotation_matrix_y(600, 800, 1000);
    let v: [i64; 4] = [0, 7, 0, 1];
    let mut image: [i64; 4] = [0; 4];
    for row in 0..4usize {
        let mut acc: i64 = 0;
        for j in 0..4usize {
            acc += (m[j * 4 + row] as i64) * v[j];
        }
        image[row] = acc;
    }
    assert_eq!(image, [0, 7000, 0, 1000]);
}

#[test]
fn mesh_has_eight_vertices_with_positions_and_colors() {
    let m = cube_mesh();
    assert_eq!(VERTEX_COUNT, 8);
    assert_eq!(COMPONENTS_PER_VERTEX, 3);
    assert_eq!(m.positions.len(), 24);
    assert_eq!(m.colors.len(), 24);
    // Front-face corners sit at z = 0.2 (2 tenths), back at -0.2.
    let positions: Vec<i32> = vec![
        -4, -4, 2, 4, -4, 2, 4, 4, 2, -4, 4, 2,
        -4, -4, -2, 4, -4, -2, 4, 4, -2, -4, 4, -2,
    ];
    assert_eq!(m.positions, positions);
    let colors: Vec<i32> = vec![
        10, 0, 0, 0, 10, 0, 0, 0, 10, 10, 10, 0,
        10, 0, 10, 0, 10, 10, 10, 10, 10, 5, 5, 5,
    ];
    assert_eq!(m.colors, colors);
}

#[test]
fn mesh_indices_are_twelve_triangles_over_valid_vertices() {
    let m = cube_mesh();
    assert_eq!(INDEX_COUNT, 36);
    assert_eq!(TRIANGLE_COUNT * 3, 36);
    assert_eq!(m.indices.len(), 36);
    for &index in &m.indices {
        assert!((index as usize) < VERTEX_COUNT);
    }
    let indices: Vec<u16> = vec![
        0, 1, 2, 2, 3, 0,
        4, 6, 5, 6, 4, 7,
        4, 0, 3, 3, 7, 4,
        1, 5, 6, 6, 2, 1,
        3, 2, 6, 6, 7, 3,
        4, 5, 1, 1, 0, 4,
    ];
    assert_eq!(m.indices, indices);
}
