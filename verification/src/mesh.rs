//! The quad model: four vertices and six indices forming two triangles.
//! Indices must reference valid vertex slots and each triangle must wind
//! counter-clockwise, the configured front-face convention.

use vstd::prelude::*;

verus! {

/// A vertex of the quad. Positions are whole clip-space coordinates, so
/// the quad's corners at ±1 span the full viewport. Texture coordinates
/// are corners of the unit texel square (0 or 1), with v growing
/// downward.
#[derive(Clone, Copy, Debug, PartialEq, Eq)]
pub struct QuadVertex {
    pub x: i32,
    pub y: i32,
    pub u: u32,
    pub v: u32,
}

/// Twice the signed area of the triangle a-b-c in the y-up clip-space
/// plane; positive exactly for counter-clockwise winding.
pub open spec fn cross_z(a: QuadVertex, b: QuadVertex, c: QuadVertex) -> int {
    (b.x - a.x) * (c.y - a.y) - (b.y - a.y) * (c.x - a.x)
}

/// Counter-clockwise orientation in the y-up clip-space convention.
pub open spec fn triangle_ccw(a: QuadVertex, b: QuadVertex, c: QuadVertex) -> bool {
    cross_z(a, b, c) > 0
}

/// The vertex and index lists of the quad, uploaded once at startup and
/// drawn with one indexed call.
#[derive(Clone, Debug, PartialEq, Eq)]
pub struct QuadMesh {
    pub vertices: Vec<QuadVertex>,
    pub indices: Vec<u16>,
}

impl QuadMesh {
    /// Every index references a valid vertex slot.
    pub open spec fn indices_in_range(self) -> bool {
        forall|i: int|
            0 <= i < self.indices@.len() ==> (#[trigger] self.indices@[i]) < self.vertices@.len()
    }

    /// The vertex a given index slot refers to.
    pub open spec fn vertex_at(self, i: int) -> QuadVertex {
        self.vertices@[self.indices@[i] as int]
    }

    /// Well-formedness: two triangles over four vertices, all indices in
    /// range, both triangles wound counter-clockwise.
    pub open spec fn wf(self) -> bool {
        &&& self.vertices@.len() == 4
        &&& self.indices@.len() == 6
        &&& self.indices_in_range()
        &&& triangle_ccw(self.vertex_at(0), self.vertex_at(1), self.vertex_at(2))
        &&& triangle_ccw(self.vertex_at(3), self.vertex_at(4), self.vertex_at(5))
    }
}

/// The quad's vertices in model order: top-left, bottom-left,
/// bottom-right, top-right, each carrying the matching texel corner.
pub open spec fn quad_vertices() -> Seq<QuadVertex> {
    seq![
        (QuadVertex { x: -1i32, y: 1i32, u: 0u32, v: 0u32 }),
        (QuadVertex { x: -1i32, y: -1i32, u: 0u32, v: 1u32 }),
        (QuadVertex { x: 1i32, y: -1i32, u: 1u32, v: 1u32 }),
        (QuadVertex { x: 1i32, y: 1i32, u: 1u32, v: 0u32 }),
    ]
}

/// The quad's index list: triangles (0, 1, 3) and (3, 1, 2).
pub open spec fn quad_indices() -> Seq<u16> {
    seq![0u16, 1u16, 3u16, 3u16, 1u16, 2u16]
}

/// Build the quad mesh: exactly the model vertex and index lists, well
/// formed — in range and counter-clockwise.
pub fn quad_mesh() -> (m: QuadMesh)
    ensures
        m.wf(),
        m.vertices@ == quad_vertices(),
        m.indices@ == quad_indices(),
{
    let mut vertices: Vec<QuadVertex> = Vec::new();
    vertices.push(QuadVertex { x: -1, y: 1, u: 0, v: 0 });
    vertices.push(QuadVertex { x: -1, y: -1, u: 0, v: 1 });
    vertices.push(QuadVertex { x: 1, y: -1, u: 1, v: 1 });
    vertices.push(QuadVertex { x: 1, y: 1, u: 1, v: 0 });
    let mut indices: Vec<u16> = Vec::new();
    indices.push(0);
    indices.push(1);
    indices.push(3);
    indices.push(3);
    indices.push(1);
    indices.push(2);
    let m = QuadMesh { vertices, indices };
    proof {
        assert(m.vertices@ =~= quad_vertices());
        assert(m.indices@ =~= quad_indices());
        assert forall|i: int| 0 <= i < m.indices@.len() implies (#[trigger] m.indices@[i])
            < m.vertices@.len() by {
            assert(m.indices@ == quad_indices());
        }
        assert(m.vertex_at(0) == quad_vertices()[0]);
        assert(m.vertex_at(1) == quad_vertices()[1]);
        assert(m.vertex_at(2) == quad_vertices()[3]);
        assert(m.vertex_at(3) == quad_vertices()[3]);
        assert(m.vertex_at(4) == quad_vertices()[1]);
        assert(m.vertex_at(5) == quad_vertices()[2]);
        assert(m.vertex_at(0).x == -1 && m.vertex_at(0).y == 1);
        assert(m.vertex_at(1).x == -1 && m.vertex_at(1).y == -1);
        assert(m.vertex_at(2).x == 1 && m.vertex_at(2).y == 1);
        assert(cross_z(m.vertex_at(0), m.vertex_at(1), m.vertex_at(2)) == 4);
        assert(triangle_ccw(m.vertex_at(0), m.vertex_at(1), m.vertex_at(2)));
        assert(cross_z(m.vertex_at(3), m.vertex_at(4), m.vertex_at(5)) == 4);
        assert(triangle_ccw(m.vertex_at(3), m.vertex_at(4), m.vertex_at(5)));
    }
    m
}

} // verus!
