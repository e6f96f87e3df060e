use vstd::prelude::*;

use crate::geometry::{
    contact_bounded,
    contact_of, to_cell_frame, lemma_incline_bounds, lemma_mul_within, option_to_cell, point_to_shape, within,
    Contact, Interference, Position, Vector, DEN_LIMIT, LIMIT, WIDE_LIMIT,
};
use crate::mesh::{placed, placed_mesh, uv_views, views, MeshData, MeshView, Triangle, Uv};
use crate::mirror::Mirror;
use crate::rotate::{rotate_point, Rotate, RotationDirection};

verus! {

/// A single inclined face over the whole cell, rising from `0` at `y == 0` to
/// `height` at `y == size`, with no side walls.
#[derive(Clone, Copy, Debug, PartialEq, Eq, Structural)]
pub struct Slope {
    pub size: i64,
    pub height: i64,
    pub rotate: Rotate,
}

/// How far below the face a point lies, times the length of the face's
/// normal `(0, -height, size)`: negative above the face.
pub open spec fn slope_depth(size: int, height: int, p: (int, int, int)) -> int {
    height * p.1 - size * p.2
}

/// The contact of a point given in a slope's own frame: the point moved along
/// the face's normal onto the face.
pub open spec fn slope_local_contact(size: int, height: int, p: (int, int, int)) -> Option<
    Contact,
> {
    let (x, y, z) = p;
    let n2 = height * height + size * size;
    let d = slope_depth(size, height, p);
    if z > height || x < 0 || x > size || y < 0 || y > size || d < 0 {
        None
    } else {
        Some(
            Contact {
                depth: d,
                position: (n2 * x, n2 * y - d * height, n2 * z + d * size),
                den: n2,
                normal: (0, -height, size),
            },
        )
    }
}

/// The corners of a slope's face in its own frame.
pub open spec fn slope_positions(size: int, height: int) -> Seq<(int, int, int)> {
    seq![(0, 0, 0), (size, 0, 0), (size, size, height), (0, size, height)]
}

/// The normal of a slope's face at each corner.
pub open spec fn slope_normals(size: int, height: int) -> Seq<(int, int, int)> {
    let n = (0, -height, size);
    seq![n, n, n, n]
}

/// The texture coordinates of a slope's corners, in thirds.
pub open spec fn quad_uvs() -> Seq<(int, int)> {
    seq![(0, 0), (3, 0), (3, 3), (0, 3)]
}

/// The two triangles of a quadrilateral.
pub open spec fn quad_indices() -> Seq<Triangle> {
    seq![Triangle { a: 0, b: 1, c: 3 }, Triangle { a: 2, b: 3, c: 1 }]
}

impl Slope {
    /// Sizes that the slope's arithmetic supports.
    pub open spec fn wf(&self) -> bool {
        0 < self.size <= LIMIT && 0 <= self.height <= LIMIT
    }

    /// The contact of a point given in the slope's cell frame.
    pub open spec fn contact(&self, p: (int, int, int)) -> Option<Contact> {
        option_to_cell(
            slope_local_contact(
                self.size as int,
                self.height as int,
                point_to_shape(p, self.size as int, Mirror::Identity, self.rotate),
            ),
            self.size as int,
            Mirror::Identity,
            self.rotate,
        )
    }

    fn local_interference(&self, point: Vector) -> (r: Option<Interference>)
        requires
            self.wf(),
            within(point@, 4 * LIMIT),
        ensures
            contact_of(r) == slope_local_contact(self.size as int, self.height as int, point@),
            r matches Some(i) ==> 0 < i.den <= DEN_LIMIT && within(
                i.position@,
                WIDE_LIMIT / 2,
            ) && within(i.normal@, LIMIT as int),
    {
        let size = self.size;
        let height = self.height;
        if point.z > height || point.x < 0 || point.x > size || point.y < 0 || point.y > size {
            return None;
        }
        let x = point.x;
        let y = point.y;
        let z = point.z;
        let s = size as i128;
        let h = height as i128;
        proof {
            lemma_mul_within(height as int, y as int, 268435456, 268435456);
            lemma_mul_within(size as int, z as int, 268435456, 1073741824);
        }
        let d = h * y as i128 - s * z as i128;
        if d < 0 {
            return None;
        }
        proof {
            lemma_incline_bounds(size as int, height as int, x as int, y as int, z as int, d as int);
        }
        let n2 = h * h + s * s;
        Some(
            Interference {
                depth: d as i64,
                position: Position {
                    x: n2 * x as i128,
                    y: n2 * y as i128 - d * h,
                    z: n2 * z as i128 + d * s,
                },
                den: n2,
                normal: Vector { x: 0, y: -height, z: size },
            },
        )
    }

    /// The contact of a point given in the slope's cell frame, or `None` when the
    /// point is outside the footprint, above the face or above `height`.
    pub fn interference(&self, point: Vector) -> (r: Option<Interference>)
        requires
            self.wf(),
            within(point@, LIMIT as int),
        ensures
            contact_of(r) == self.contact(point@),
            r matches Some(i) ==> contact_bounded(i@),
    {
        let mut local = point;
        rotate_point(&mut local, self.size, &self.rotate, RotationDirection::Reverse);
        let found = self.local_interference(local);
        to_cell_frame(found, self.size, &Mirror::Identity, &self.rotate)
    }

    /// The slope's face, placed in its cell.
    pub open spec fn mesh_view(&self) -> MeshView {
        placed(
            slope_positions(self.size as int, self.height as int),
            slope_normals(self.size as int, self.height as int),
            quad_uvs(),
            quad_indices(),
            self.size as int,
            1,
            Mirror::Identity,
            self.rotate,
        )
    }

    /// The slope's face, placed in its cell.
    pub fn mesh(&self) -> (r: MeshData)
        requires
            self.wf(),
        ensures
            r@ == self.mesh_view(),
    {
        let s = self.size;
        let h = self.height;
        let n = Vector { x: 0, y: -h, z: s };
        let positions = vec![
            Vector { x: 0, y: 0, z: 0 }, Vector { x: s, y: 0, z: 0 },
            Vector { x: s, y: s, z: h }, Vector { x: 0, y: s, z: h },
        ];
        let normals = vec![n, n, n, n];
        let uvs = vec![Uv { u: 0, v: 0 }, Uv { u: 3, v: 0 }, Uv { u: 3, v: 3 }, Uv { u: 0, v: 3 }];
        let indices = vec![Triangle { a: 0, b: 1, c: 3 }, Triangle { a: 2, b: 3, c: 1 }];
        assert(views(positions@) =~= slope_positions(s as int, h as int));
        assert(views(normals@) =~= slope_normals(s as int, h as int));
        assert(uv_views(uvs@) =~= quad_uvs());
        assert(indices@ =~= quad_indices());
        placed_mesh(s, 1, positions, normals, uvs, indices, &Mirror::Identity, &self.rotate)
    }
}

} // verus!
