use vstd::prelude::*;

use crate::geometry::{
    contact_bounded,
    contact_of, to_cell_frame, face_contact, ground_contact, option_to_cell,
    point_to_shape, within, Contact, Interference, Position, Vector, LIMIT,
};
use crate::mesh::{placed, placed_mesh, uv_views, views, MeshData, MeshView, Triangle, Uv};
use crate::mirror::{mirror_point, Mirror};
use crate::rotate::{rotate_point, Rotate, RotationDirection};

verus! {

/// A step: flat ground on the lower half of the cell (`x < size / 2`), a
/// plateau at `height` on the upper half, a riser between them and walls at
/// `y == 0` and `y == size` along the plateau.
#[derive(Clone, Copy, Debug, PartialEq, Eq, Structural)]
pub struct Step {
    pub size: i64,
    pub height: i64,
    pub rotate: Rotate,
    pub mirror: Mirror,
}

/// The contact of a point given in a step's own frame.
///
/// On the plateau the face is chosen by priority on the margins (all doubled
/// here, to stay whole): the top wins when its margin is below the three others,
/// then the riser when its margin is below both walls', then the `-y` wall when
/// its margin is below the `+y` wall's, else the `+y` wall.
pub open spec fn step_local_contact(size: int, height: int, p: (int, int, int)) -> Option<Contact> {
    let (x, y, z) = p;
    if z > height || x < 0 || x > size || y < 0 || y > size {
        None
    } else if 2 * x < size {
        if z > 0 {
            None
        } else {
            Some(ground_contact(p))
        }
    } else {
        let top = 2 * (height - z);
        let riser = 2 * x - size;
        let wall_pos = 2 * (size - y);
        let wall_neg = 2 * y;
        if top < riser && top < wall_pos && top < wall_neg {
            Some(face_contact(height - z, (x, y, height), (0, 0, 1)))
        } else if riser < wall_pos && riser < wall_neg {
            Some(Contact { depth: riser, position: (size, 2 * y, 2 * z), den: 2, normal: (-2, 0, 0) })
        } else if wall_neg < wall_pos {
            Some(face_contact(y, (x, 0, z), (0, -1, 0)))
        } else {
            Some(face_contact(size - y, (x, size, z), (0, 1, 0)))
        }
    }
}

/// The corners of a step's faces in its own frame, at twice their size: the
/// ground, the riser, the top and the `-y` and `+y` walls, four each.
pub open spec fn step_positions(size: int, height: int) -> Seq<(int, int, int)> {
    let (s, w, h) = (size, 2 * size, 2 * height);
    seq![
        (0, 0, 0), (s, 0, 0), (s, w, 0), (0, w, 0),
        (s, 0, 0), (s, 0, h), (s, w, h), (s, w, 0),
        (s, 0, h), (w, 0, h), (w, w, h), (s, w, h),
        (w, 0, 0), (w, 0, h), (s, 0, h), (s, 0, 0),
        (w, w, 0), (s, w, 0), (s, w, h), (w, w, h),
    ]
}

/// The normals of a step's faces in its own frame, one per corner.
pub open spec fn step_normals() -> Seq<(int, int, int)> {
    let (up, back, ny, py) = ((0, 0, 1), (-1, 0, 0), (0, -1, 0), (0, 1, 0));
    seq![
        up, up, up, up, back, back, back, back, up, up, up, up,
        ny, ny, ny, ny, py, py, py, py,
    ]
}

/// The texture coordinates of a step's corners, in thirds.
pub open spec fn step_uvs() -> Seq<(int, int)> {
    seq![
        (0, 0), (1, 0), (1, 3), (0, 3),
        (1, 0), (2, 0), (2, 3), (1, 3),
        (2, 0), (3, 0), (3, 3), (2, 3),
        (3, 0), (3, 3), (2, 3), (2, 0),
        (1, 0), (1, 3), (2, 3), (2, 0),
    ]
}

/// The triangles of a step's faces, two per face.
pub open spec fn step_indices() -> Seq<Triangle> {
    seq![
        Triangle { a: 0, b: 1, c: 3 }, Triangle { a: 2, b: 3, c: 1 },
        Triangle { a: 4, b: 5, c: 7 }, Triangle { a: 6, b: 7, c: 5 },
        Triangle { a: 8, b: 9, c: 11 }, Triangle { a: 10, b: 11, c: 9 },
        Triangle { a: 12, b: 13, c: 15 }, Triangle { a: 14, b: 15, c: 13 },
        Triangle { a: 16, b: 17, c: 19 }, Triangle { a: 18, b: 19, c: 17 },
    ]
}

impl Step {
    /// Sizes that the step's arithmetic supports.
    pub open spec fn wf(&self) -> bool {
        0 < self.size <= LIMIT && 0 <= self.height <= LIMIT
    }

    /// The contact of a point given in the step's cell frame.
    pub open spec fn contact(&self, p: (int, int, int)) -> Option<Contact> {
        option_to_cell(
            step_local_contact(
                self.size as int,
                self.height as int,
                point_to_shape(p, self.size as int, self.mirror, self.rotate),
            ),
            self.size as int,
            self.mirror,
            self.rotate,
        )
    }

    fn local_interference(&self, point: Vector) -> (r: Option<Interference>)
        requires
            self.wf(),
            within(point@, 4 * LIMIT),
        ensures
            contact_of(r) == step_local_contact(self.size as int, self.height as int, point@),
            r matches Some(i) ==> 0 < i.den <= 2 && within(i.position@, 10 * LIMIT)
                && within(i.normal@, 2),
    {
        let size = self.size;
        let height = self.height;
        if point.z > height || point.x < 0 || point.x > size || point.y < 0 || point.y > size {
            return None;
        }
        let x = point.x;
        let y = point.y;
        let z = point.z;
        if 2 * x < size {
            if z > 0 {
                return None;
            }
            return Some(
                Interference {
                    depth: -z,
                    position: Position { x: x as i128, y: y as i128, z: 0 },
                    den: 1,
                    normal: Vector { x: 0, y: 0, z: 1 },
                },
            );
        }
        let top = 2 * (height - z);
        let riser = 2 * x - size;
        let wall_pos = 2 * (size - y);
        let wall_neg = 2 * y;
        if top < riser && top < wall_pos && top < wall_neg {
            Some(
                Interference {
                    depth: height - z,
                    position: Position { x: x as i128, y: y as i128, z: height as i128 },
                    den: 1,
                    normal: Vector { x: 0, y: 0, z: 1 },
                },
            )
        } else if riser < wall_pos && riser < wall_neg {
            Some(
                Interference {
                    depth: riser,
                    position: Position {
                        x: size as i128,
                        y: 2 * y as i128,
                        z: 2 * z as i128,
                    },
                    den: 2,
                    normal: Vector { x: -2, y: 0, z: 0 },
                },
            )
        } else if wall_neg < wall_pos {
            Some(
                Interference {
                    depth: y,
                    position: Position { x: x as i128, y: 0, z: z as i128 },
                    den: 1,
                    normal: Vector { x: 0, y: -1, z: 0 },
                },
            )
        } else {
            Some(
                Interference {
                    depth: size - y,
                    position: Position { x: x as i128, y: size as i128, z: z as i128 },
                    den: 1,
                    normal: Vector { x: 0, y: 1, z: 0 },
                },
            )
        }
    }

    /// The contact of a point given in the step's cell frame, or `None` when the
    /// point is outside the footprint, above the surface or above `height`.
    pub fn interference(&self, point: Vector) -> (r: Option<Interference>)
        requires
            self.wf(),
            within(point@, LIMIT as int),
        ensures
            contact_of(r) == self.contact(point@),
            r matches Some(i) ==> contact_bounded(i@),
    {
        let mut local = point;
        rotate_point(&mut local, self.size, &self.rotate, RotationDirection::Reverse);
        mirror_point(&mut local, self.size, &self.mirror);
        let found = self.local_interference(local);
        to_cell_frame(found, self.size, &self.mirror, &self.rotate)
    }

    /// The step's surface, placed in its cell, at twice its size.
    pub open spec fn mesh_view(&self) -> MeshView {
        placed(
            step_positions(self.size as int, self.height as int),
            step_normals(),
            step_uvs(),
            step_indices(),
            2 * self.size,
            2,
            self.mirror,
            self.rotate,
        )
    }

    /// The step's surface, placed in its cell, at twice its size.
    pub fn mesh(&self) -> (r: MeshData)
        requires
            self.wf(),
        ensures
            r@ == self.mesh_view(),
    {
        let s = self.size;
        let w = 2 * self.size;
        let h = 2 * self.height;
        let up = Vector { x: 0, y: 0, z: 1 };
        let back = Vector { x: -1, y: 0, z: 0 };
        let ny = Vector { x: 0, y: -1, z: 0 };
        let py = Vector { x: 0, y: 1, z: 0 };
        let positions = vec![
            Vector { x: 0, y: 0, z: 0 }, Vector { x: s, y: 0, z: 0 },
            Vector { x: s, y: w, z: 0 }, Vector { x: 0, y: w, z: 0 },
            Vector { x: s, y: 0, z: 0 }, Vector { x: s, y: 0, z: h },
            Vector { x: s, y: w, z: h }, Vector { x: s, y: w, z: 0 },
            Vector { x: s, y: 0, z: h }, Vector { x: w, y: 0, z: h },
            Vector { x: w, y: w, z: h }, Vector { x: s, y: w, z: h },
            Vector { x: w, y: 0, z: 0 }, Vector { x: w, y: 0, z: h },
            Vector { x: s, y: 0, z: h }, Vector { x: s, y: 0, z: 0 },
            Vector { x: w, y: w, z: 0 }, Vector { x: s, y: w, z: 0 },
            Vector { x: s, y: w, z: h }, Vector { x: w, y: w, z: h },
        ];
        let normals = vec![
            up, up, up, up, back, back, back, back, up, up, up, up,
            ny, ny, ny, ny, py, py, py, py,
        ];
        let uvs = vec![
            Uv { u: 0, v: 0 }, Uv { u: 1, v: 0 }, Uv { u: 1, v: 3 }, Uv { u: 0, v: 3 },
            Uv { u: 1, v: 0 }, Uv { u: 2, v: 0 }, Uv { u: 2, v: 3 }, Uv { u: 1, v: 3 },
            Uv { u: 2, v: 0 }, Uv { u: 3, v: 0 }, Uv { u: 3, v: 3 }, Uv { u: 2, v: 3 },
            Uv { u: 3, v: 0 }, Uv { u: 3, v: 3 }, Uv { u: 2, v: 3 }, Uv { u: 2, v: 0 },
            Uv { u: 1, v: 0 }, Uv { u: 1, v: 3 }, Uv { u: 2, v: 3 }, Uv { u: 2, v: 0 },
        ];
        let indices = vec![
            Triangle { a: 0, b: 1, c: 3 }, Triangle { a: 2, b: 3, c: 1 },
            Triangle { a: 4, b: 5, c: 7 }, Triangle { a: 6, b: 7, c: 5 },
            Triangle { a: 8, b: 9, c: 11 }, Triangle { a: 10, b: 11, c: 9 },
            Triangle { a: 12, b: 13, c: 15 }, Triangle { a: 14, b: 15, c: 13 },
            Triangle { a: 16, b: 17, c: 19 }, Triangle { a: 18, b: 19, c: 17 },
        ];
        assert(views(positions@) =~= step_positions(self.size as int, self.height as int));
        assert(views(normals@) =~= step_normals());
        assert(uv_views(uvs@) =~= step_uvs());
        assert(indices@ =~= step_indices());
        placed_mesh(w, 2, positions, normals, uvs, indices, &self.mirror, &self.rotate)
    }
}

} // verus!
