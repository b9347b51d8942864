//! The fixed cube mesh: 8 vertices with a position and a color each,
//! referenced by 36 indices forming 12 triangles (two per face).
//!
//! Coordinates and color channels are fractional in the original data
//! (positions at ±0.4 and ±0.2, channels at 0.0, 0.5 or 1.0), so the
//! library carries them in tenths as exact integers; the host divides by
//! ten when it fills the floating-point buffers.

use vstd::prelude::*;

verus! {

/// The cube has 8 vertices...
pub const VERTEX_COUNT: usize = 8;

/// ...drawn as 12 triangles, two per face...
pub const TRIANGLE_COUNT: usize = 12;

/// ...through 36 indices, three per triangle.
pub const INDEX_COUNT: usize = 36;

/// Components per vertex position or color: x, y, z or red, green, blue.
pub const COMPONENTS_PER_VERTEX: usize = 3;

/// Vertex positions in tenths: the four front-face corners at z = 0.2,
/// then the four back-face corners at z = -0.2, each corner at x, y of
/// ±0.4.
pub open spec fn cube_positions_spec() -> Seq<i32> {
    seq![
        -4i32, -4i32, 2i32, 4i32, -4i32, 2i32, 4i32, 4i32, 2i32, -4i32, 4i32, 2i32,
        -4i32, -4i32, -2i32, 4i32, -4i32, -2i32, 4i32, 4i32, -2i32, -4i32, 4i32, -2i32,
    ]
}

/// Per-vertex colors in tenths of each channel.
pub open spec fn cube_colors_spec() -> Seq<i32> {
    seq![
        10i32, 0i32, 0i32, 0i32, 10i32, 0i32, 0i32, 0i32, 10i32, 10i32, 10i32, 0i32,
        10i32, 0i32, 10i32, 0i32, 10i32, 10i32, 10i32, 10i32, 10i32, 5i32, 5i32, 5i32,
    ]
}

/// The 36 triangle indices: front, back, left, right, top, bottom.
pub open spec fn cube_indices_spec() -> Seq<u16> {
    seq![
        0u16, 1u16, 2u16, 2u16, 3u16, 0u16,
        4u16, 6u16, 5u16, 6u16, 4u16, 7u16,
        4u16, 0u16, 3u16, 3u16, 7u16, 4u16,
        1u16, 5u16, 6u16, 6u16, 2u16, 1u16,
        3u16, 2u16, 6u16, 6u16, 7u16, 3u16,
        4u16, 5u16, 1u16, 1u16, 0u16, 4u16,
    ]
}

/// The cube mesh as uploaded into the three buffers, immutable for the
/// process lifetime.
pub struct CubeMesh {
    pub positions: Vec<i32>,
    pub colors: Vec<i32>,
    pub indices: Vec<u16>,
}

impl CubeMesh {
    /// A well-formed mesh holds exactly the fixed cube data.
    pub open spec fn wf(&self) -> bool {
        &&& self.positions@ == cube_positions_spec()
        &&& self.colors@ == cube_colors_spec()
        &&& self.indices@ == cube_indices_spec()
    }
}

/// Build the fixed cube mesh.
pub fn cube_mesh() -> (m: CubeMesh)
    ensures
        m.wf(),
        m.positions@.len() == VERTEX_COUNT * COMPONENTS_PER_VERTEX,
        m.colors@.len() == VERTEX_COUNT * COMPONENTS_PER_VERTEX,
        m.indices@.len() == INDEX_COUNT,
        forall|i: int| 0 <= i < m.indices@.len() ==> (m.indices@[i] as int) < VERTEX_COUNT,
{
    let positions: Vec<i32> = vec![
        -4, -4, 2, 4, -4, 2, 4, 4, 2, -4, 4, 2,
        -4, -4, -2, 4, -4, -2, 4, 4, -2, -4, 4, -2,
    ];
    let colors: Vec<i32> = vec![
        10, 0, 0, 0, 10, 0, 0, 0, 10, 10, 10, 0,
        10, 0, 10, 0, 10, 10, 10, 10, 10, 5, 5, 5,
    ];
    let indices: Vec<u16> = vec![
        0, 1, 2, 2, 3, 0,
        4, 6, 5, 6, 4, 7,
        4, 0, 3, 3, 7, 4,
        1, 5, 6, 6, 2, 1,
        3, 2, 6, 6, 7, 3,
        4, 5, 1, 1, 0, 4,
    ];
    proof {
        assert(positions@ =~= cube_positions_spec());
        assert(colors@ =~= cube_colors_spec());
        assert(indices@ =~= cube_indices_spec());
        lemma_indices_reference_valid_vertices();
    }
    CubeMesh { positions, colors, indices }
}

/// The index buffer describes exactly 12 triangles (36 indices) and
/// references only the mesh's 8 vertices: every index lies in [0, 7].
pub proof fn lemma_indices_reference_valid_vertices()
    ensures
        cube_indices_spec().len() == INDEX_COUNT,
        INDEX_COUNT == TRIANGLE_COUNT * 3,
        forall|i: int|
            0 <= i < cube_indices_spec().len() ==> (cube_indices_spec()[i] as int)
                < VERTEX_COUNT,
{
    assert forall|i: int| 0 <= i < cube_indices_spec().len() implies (
    cube_indices_spec()[i] as int) < VERTEX_COUNT by {
        assert(cube_indices_spec()[i] == cube_indices_spec()[i]);
    }
}

} // verus!
