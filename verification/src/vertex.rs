//! The quad model: six vertices forming two counter-clockwise triangles that
//! span the normalized square, plus the layout of one vertex in the GPU
//! buffer.

use vstd::prelude::*;

verus! {

/// One vertex of the quad model: a position in normalized device coordinates
/// and a texture coordinate. The quad only ever uses the exact corner values
/// -1, 0 and 1, so the coordinates are integers; the GPU layer turns them
/// into floating-point attributes one for one.
#[derive(Clone, Copy, Debug, PartialEq, Eq, Structural)]
pub struct ModelVertex {
    pub x: i32,
    pub y: i32,
    pub z: i32,
    pub u: i32,
    pub v: i32,
}

/// The six vertices of the quad, in draw order: two triangles that together
/// cover the square [-1, 1] x [-1, 1] at depth 1.
pub open spec fn spec_square_vertices() -> Seq<ModelVertex> {
    seq![
        ModelVertex { x: -1i32, y: 1, z: 1, u: 0, v: 0 },
        ModelVertex { x: -1i32, y: -1i32, z: 1, u: 0, v: 1 },
        ModelVertex { x: 1i32, y: 1, z: 1, u: 1, v: 0 },
        ModelVertex { x: 1i32, y: 1, z: 1, u: 1, v: 0 },
        ModelVertex { x: -1i32, y: -1i32, z: 1, u: 0, v: 1 },
        ModelVertex { x: 1i32, y: -1i32, z: 1, u: 1, v: 1 },
    ]
}

/// A triangle is counter-clockwise when the cross product of its first two
/// edges points out of the screen (y grows upward in device coordinates).
pub open spec fn triangle_ccw(a: ModelVertex, b: ModelVertex, c: ModelVertex) -> bool {
    (b.x - a.x) * (c.y - a.y) - (b.y - a.y) * (c.x - a.x) > 0
}

/// A vertex sits on a corner of the normalized square at depth 1.
pub open spec fn on_square_corner(m: ModelVertex) -> bool {
    &&& (m.x == -1 || m.x == 1)
    &&& (m.y == -1 || m.y == 1)
    &&& m.z == 1
}

/// Some quad vertex sits at position (x, y).
pub open spec fn corner_used(x: int, y: int) -> bool {
    exists|i: int|
        0 <= i < 6 && (#[trigger] spec_square_vertices()[i]).x == x
            && spec_square_vertices()[i].y == y
}

/// The texture coordinate of a vertex is the position mapped from
/// [-1, 1] onto [0, 1], with v growing downward while y grows upward.
pub open spec fn tex_coords_match_position(m: ModelVertex) -> bool {
    2 * m.u == m.x + 1 && 2 * m.v == 1 - m.y
}

/// Builds the vertex buffer contents: exactly the six model vertices, in
/// draw order.
pub fn square_vertices() -> (r: Vec<ModelVertex>)
    ensures
        r@ == spec_square_vertices(),
        r@.len() == 6,
{
    let mut r: Vec<ModelVertex> = Vec::new();
    r.push(ModelVertex { x: -1, y: 1, z: 1, u: 0, v: 0 });
    r.push(ModelVertex { x: -1, y: -1, z: 1, u: 0, v: 1 });
    r.push(ModelVertex { x: 1, y: 1, z: 1, u: 1, v: 0 });
    r.push(ModelVertex { x: 1, y: 1, z: 1, u: 1, v: 0 });
    r.push(ModelVertex { x: -1, y: -1, z: 1, u: 0, v: 1 });
    r.push(ModelVertex { x: 1, y: -1, z: 1, u: 1, v: 1 });
    proof {
        assert(r@ =~= spec_square_vertices());
    }
    r
}

/// The quad's vertices form two counter-clockwise triangles, every vertex
/// lies on a corner of the normalized square, all four corners are used,
/// and each texture coordinate is the affine image of its position.
pub proof fn lemma_square_vertices_well_formed()
    ensures
        spec_square_vertices().len() == 6,
        triangle_ccw(
            spec_square_vertices()[0],
            spec_square_vertices()[1],
            spec_square_vertices()[2],
        ),
        triangle_ccw(
            spec_square_vertices()[3],
            spec_square_vertices()[4],
            spec_square_vertices()[5],
        ),
        forall|i: int| 0 <= i < 6 ==> on_square_corner(#[trigger] spec_square_vertices()[i]),
        forall|i: int|
            0 <= i < 6 ==> tex_coords_match_position(#[trigger] spec_square_vertices()[i]),
        corner_used(-1, -1),
        corner_used(-1, 1),
        corner_used(1, -1),
        corner_used(1, 1),
{
    assert(spec_square_vertices()[1].x == -1 && spec_square_vertices()[1].y == -1);
    assert(spec_square_vertices()[0].x == -1 && spec_square_vertices()[0].y == 1);
    assert(spec_square_vertices()[5].x == 1 && spec_square_vertices()[5].y == -1);
    assert(spec_square_vertices()[2].x == 1 && spec_square_vertices()[2].y == 1);
}

/// How one vertex lies in the GPU buffer: five 4-byte scalars, the position
/// first, the texture coordinate after it.
#[derive(Clone, Copy, Debug, PartialEq, Eq, Structural)]
pub struct VertexLayout {
    /// Bytes from one vertex to the next.
    pub array_stride: u32,
    /// Byte offset of the position attribute.
    pub position_offset: u32,
    /// Number of scalar components in the position attribute.
    pub position_components: u32,
    /// Byte offset of the texture-coordinate attribute.
    pub tex_coord_offset: u32,
    /// Number of scalar components in the texture-coordinate attribute.
    pub tex_coord_components: u32,
}

/// Describes the vertex buffer layout: a three-component position at offset
/// 0 and a two-component texture coordinate right after it, with a stride of
/// 4 bytes per scalar and no padding.
pub fn vertex_layout() -> (l: VertexLayout)
    ensures
        l.position_components == 3,
        l.tex_coord_components == 2,
        l.position_offset == 0,
        l.tex_coord_offset == 4 * l.position_components,
        l.array_stride == 4 * (l.position_components + l.tex_coord_components),
{
    VertexLayout {
        array_stride: 20,
        position_offset: 0,
        position_components: 3,
        tex_coord_offset: 12,
        tex_coord_components: 2,
    }
}

} // verus!
