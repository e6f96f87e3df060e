use vstd::prelude::*;

use crate::geometry::{over_square, point_to_cell, within, Vector, LIMIT};
use crate::mirror::{mirror_mesh, Mirror};
use crate::rotate::{rotate_mesh, uv_rotated, Rotate};

verus! {

/// The number of steps in a unit of texture coordinate.
pub const UV_SCALE: i64 = 3;

/// A texture coordinate, in steps of `1 / UV_SCALE`.
#[derive(Clone, Copy, Debug, PartialEq, Eq, Structural)]
pub struct Uv {
    pub u: i64,
    pub v: i64,
}

impl View for Uv {
    type V = (int, int);

    open spec fn view(&self) -> (int, int) {
        (self.u as int, self.v as int)
    }
}

/// The indices of a triangle's three vertices, counterclockwise seen from
/// the side that faces out.
#[derive(Clone, Copy, Debug, PartialEq, Eq, Structural)]
pub struct Triangle {
    pub a: u32,
    pub b: u32,
    pub c: u32,
}

/// A triangle with its second and third vertices swapped, which turns it over.
pub open spec fn flipped(t: Triangle) -> Triangle {
    Triangle { a: t.a, b: t.c, c: t.b }
}

/// Renderable geometry: one position, normal and texture coordinate per
/// vertex, and a list of triangles.
///
/// Positions are stored times `scale`; normals are directions, of any length;
/// texture coordinates are stored times [`UV_SCALE`].
#[derive(Clone, Debug)]
pub struct MeshData {
    pub positions: Vec<Vector>,
    pub normals: Vec<Vector>,
    pub uvs: Vec<Uv>,
    pub indices: Vec<Triangle>,
    pub scale: i64,
}

/// The mathematical value of a [`MeshData`].
pub struct MeshView {
    pub positions: Seq<(int, int, int)>,
    pub normals: Seq<(int, int, int)>,
    pub uvs: Seq<(int, int)>,
    pub indices: Seq<Triangle>,
    pub scale: int,
}

impl View for MeshData {
    type V = MeshView;

    open spec fn view(&self) -> MeshView {
        MeshView {
            positions: views(self.positions@),
            normals: views(self.normals@),
            uvs: uv_views(self.uvs@),
            indices: self.indices@,
            scale: self.scale as int,
        }
    }
}

/// A mesh drawn in a shape's own frame, reflected and then rotated into its
/// cell, of edge `size` in the mesh's scaled units.
pub open spec fn placed(
    positions: Seq<(int, int, int)>,
    normals: Seq<(int, int, int)>,
    uvs: Seq<(int, int)>,
    indices: Seq<Triangle>,
    size: int,
    scale: int,
    m: Mirror,
    r: Rotate,
) -> MeshView {
    MeshView {
        positions: placed_positions(positions, size, m, r),
        normals: placed_normals(normals, m, r),
        uvs: placed_uvs(uvs, r),
        indices: placed_indices(indices, m),
        scale,
    }
}

/// The views of a list of vectors.
pub open spec fn views(vs: Seq<Vector>) -> Seq<(int, int, int)> {
    vs.map_values(|v: Vector| v@)
}

/// The views of a list of texture coordinates.
pub open spec fn uv_views(vs: Seq<Uv>) -> Seq<(int, int)> {
    vs.map_values(|v: Uv| v@)
}

/// Positions of a shape's own frame carried out to its cell's frame.
pub open spec fn placed_positions(
    ps: Seq<(int, int, int)>,
    size: int,
    m: Mirror,
    r: Rotate,
) -> Seq<(int, int, int)> {
    ps.map_values(|p: (int, int, int)| point_to_cell(p, size, m, r))
}

/// Normals of a shape's own frame carried out to its cell's frame.
pub open spec fn placed_normals(ns: Seq<(int, int, int)>, m: Mirror, r: Rotate) -> Seq<
    (int, int, int),
> {
    ns.map_values(|n: (int, int, int)| point_to_cell(n, 0, m, r))
}

/// Texture coordinates turned with their mesh.
pub open spec fn placed_uvs(ts: Seq<(int, int)>, r: Rotate) -> Seq<(int, int)> {
    ts.map_values(|t: (int, int)| uv_rotated(t, r))
}

/// Triangles of a mesh that `m` reflects: turned over by any reflection.
pub open spec fn placed_indices(ts: Seq<Triangle>, m: Mirror) -> Seq<Triangle> {
    if m == Mirror::Identity {
        ts
    } else {
        ts.map_values(|t: Triangle| flipped(t))
    }
}

/// The mesh of a shape drawn in its own frame, reflected and then rotated
/// into its cell, of edge `size` in the mesh's scaled units.
pub fn placed_mesh(
    size: i64,
    scale: i64,
    positions: Vec<Vector>,
    normals: Vec<Vector>,
    uvs: Vec<Uv>,
    indices: Vec<Triangle>,
    mirror: &Mirror,
    rotate: &Rotate,
) -> (r: MeshData)
    requires
        0 < size <= 4 * LIMIT,
        normals.len() == positions.len(),
        forall|k: int| 0 <= k < positions.len() ==> over_square(#[trigger] positions@[k]@, size as int),
        forall|k: int| 0 <= k < normals.len() ==> within(#[trigger] normals@[k]@, LIMIT as int),
        forall|k: int|
            0 <= k < uvs.len() ==> -LIMIT <= (#[trigger] uvs@[k]).u <= LIMIT && -LIMIT
                <= uvs@[k].v <= LIMIT,
    ensures
        r@ == placed(
            views(positions@),
            views(normals@),
            uv_views(uvs@),
            indices@,
            size as int,
            scale as int,
            *mirror,
            *rotate,
        ),
{
    let mut positions = positions;
    let mut normals = normals;
    let mut uvs = uvs;
    let mut indices = indices;
    let ghost p0 = positions@;
    let ghost n0 = normals@;
    let ghost u0 = uvs@;
    let ghost i0 = indices@;
    mirror_mesh(size, &mut positions, &mut normals, &mut indices, &mut uvs, mirror);
    let ghost p1 = positions@;
    let ghost n1 = normals@;
    assert forall|k: int| 0 <= k < p1.len() implies over_square(#[trigger] p1[k]@, size as int) by {
        assert(over_square(p0[k]@, size as int));
    }
    assert forall|k: int| 0 <= k < n1.len() implies within(#[trigger] n1[k]@, LIMIT as int) by {
        assert(within(n0[k]@, LIMIT as int));
    }
    rotate_mesh(size, &mut positions, &mut normals, &mut uvs, rotate);
    assert(views(positions@) =~= placed_positions(views(p0), size as int, *mirror, *rotate)) by {
        assert forall|k: int| 0 <= k < p0.len() implies #[trigger] positions@[k]@ == point_to_cell(
            p0[k]@,
            size as int,
            *mirror,
            *rotate,
        ) by {
            assert(p1[k]@ == crate::geometry::mirrored(p0[k]@, size as int, *mirror));
        }
    }
    assert(views(normals@) =~= placed_normals(views(n0), *mirror, *rotate)) by {
        assert forall|k: int| 0 <= k < n0.len() implies #[trigger] normals@[k]@ == point_to_cell(
            n0[k]@,
            0,
            *mirror,
            *rotate,
        ) by {
            assert(n1[k]@ == crate::geometry::mirrored(n0[k]@, 0, *mirror));
        }
    }
    assert(uv_views(uvs@) =~= placed_uvs(uv_views(u0), *rotate));
    assert(indices@ =~= placed_indices(i0, *mirror));
    MeshData { positions, normals, uvs, indices, scale }
}

} // verus!
