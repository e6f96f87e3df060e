use vstd::prelude::*;

use crate::geometry::{
    contact_bounded,
    contact_of, to_cell_frame, ground_contact, lemma_incline_bounds, lemma_mul_within, option_to_cell,
    point_to_shape, within, Contact, Interference, Position, Vector, DEN_LIMIT, LIMIT, WIDE_LIMIT,
};
use crate::mesh::{placed, placed_mesh, uv_views, views, MeshData, MeshView, Triangle, Uv};
use crate::mirror::{mirror_point, Mirror};
use crate::rotate::{rotate_point, Rotate, RotationDirection};

verus! {

/// A step whose upper half is a ramp: flat ground on `x < size / 2`, and on
/// `x >= size / 2` a face that falls from `height` at `y == 0` to `0` at
/// `y == size`, joined to the ground by a vertical riser at `x == size / 2`.
#[derive(Clone, Copy, Debug, PartialEq, Eq, Structural)]
pub struct StepSlope {
    pub size: i64,
    pub height: i64,
    pub rotate: Rotate,
    pub mirror: Mirror,
}

/// How far below the ramp a point lies, times the length of the ramp's normal
/// `(0, height, size)`: negative above the ramp.
pub open spec fn ramp_depth(size: int, height: int, p: (int, int, int)) -> int {
    size * (height - p.2) - height * p.1
}

/// The contact of a point given in a step slope's own frame.
///
/// On the ramp side, the riser wins when its margin `x - size / 2` is below the
/// distance to the ramp `ramp_depth / |n|`, with `|n|^2 == height^2 + size^2`;
/// both are at least zero there, and they are compared squared and doubled.
/// Otherwise the ramp wins, and the contact is the point moved along the
/// ramp's normal onto the ramp.
pub open spec fn step_slope_local_contact(size: int, height: int, p: (int, int, int)) -> Option<
    Contact,
> {
    let (x, y, z) = p;
    let n2 = height * height + size * size;
    let d = ramp_depth(size, height, p);
    let riser = 2 * x - size;
    if z > height || x < 0 || x > size || y < 0 || y > size {
        None
    } else if 2 * x < size {
        if z > 0 {
            None
        } else {
            Some(ground_contact(p))
        }
    } else if d < 0 {
        None
    } else if riser * riser * n2 < 4 * (d * d) {
        Some(Contact { depth: riser, position: (size, 2 * y, 2 * z), den: 2, normal: (-2, 0, 0) })
    } else {
        Some(
            Contact {
                depth: d,
                position: (n2 * x, n2 * y + d * height, n2 * z + d * size),
                den: n2,
                normal: (0, height, size),
            },
        )
    }
}

/// The corners of a step slope's faces in its own frame, at twice their size:
/// the ground (four), the riser (three) and the ramp (four).
pub open spec fn step_slope_positions(size: int, height: int) -> Seq<(int, int, int)> {
    let (s, w, h) = (size, 2 * size, 2 * height);
    seq![
        (0, 0, 0), (s, 0, 0), (s, w, 0), (0, w, 0),
        (s, 0, 0), (s, 0, h), (s, w, 0),
        (s, 0, h), (w, 0, h), (w, w, 0), (s, w, 0),
    ]
}

/// The normals of a step slope's faces in its own frame, one per corner.
pub open spec fn step_slope_normals(size: int, height: int) -> Seq<(int, int, int)> {
    let (up, back, ramp) = ((0, 0, 1), (-1, 0, 0), (0, height, size));
    seq![up, up, up, up, back, back, back, ramp, ramp, ramp, ramp]
}

/// The texture coordinates of a step slope's corners, in thirds.
pub open spec fn step_slope_uvs() -> Seq<(int, int)> {
    seq![
        (0, 0), (1, 0), (1, 3), (0, 3),
        (1, 0), (2, 0), (1, 3),
        (2, 0), (3, 0), (3, 3), (2, 3),
    ]
}

/// The triangles of a step slope's faces.
pub open spec fn step_slope_indices() -> Seq<Triangle> {
    seq![
        Triangle { a: 0, b: 1, c: 3 }, Triangle { a: 2, b: 3, c: 1 },
        Triangle { a: 4, b: 5, c: 6 },
        Triangle { a: 7, b: 8, c: 10 }, Triangle { a: 9, b: 10, c: 8 },
    ]
}

proof fn lemma_riser_bounds(size: int, height: int, x: int, d: int)
    requires
        1 <= size <= LIMIT,
        0 <= height <= LIMIT,
        size <= 2 * x <= 2 * size,
        0 <= d <= 432345564227567616,
    ensures
        0 <= (2 * x - size) * (2 * x - size) <= 72057594037927936,
        0 <= (2 * x - size) * (2 * x - size) * (height * height + size * size)
            <= 10384593717069655257060992658440192,
        0 <= 4 * (d * d) <= 1329227995784915872903807060280344576,
{
    let r = 2 * x - size;
    let n2 = height * height + size * size;
    assert(0 <= n2 <= 144115188075855872) by (nonlinear_arith)
        requires
            1 <= size <= 268435456,
            0 <= height <= 268435456,
            n2 == height * height + size * size,
    ;
    assert(0 <= r * r <= 72057594037927936) by (nonlinear_arith)
        requires
            0 <= r <= 268435456,
    ;
    assert(0 <= r * r * n2 <= 10384593717069655257060992658440192) by (nonlinear_arith)
        requires
            0 <= r <= 268435456,
            0 <= n2 <= 144115188075855872,
    ;
    assert(0 <= 4 * (d * d) <= 1329227995784915872903807060280344576) by (nonlinear_arith)
        requires
            0 <= d <= 432345564227567616,
    ;
}

impl StepSlope {
    /// Sizes that the step slope's arithmetic supports.
    pub open spec fn wf(&self) -> bool {
        0 < self.size <= LIMIT && 0 <= self.height <= LIMIT
    }

    /// The contact of a point given in the step slope's cell frame.
    pub open spec fn contact(&self, p: (int, int, int)) -> Option<Contact> {
        option_to_cell(
            step_slope_local_contact(
                self.size as int,
                self.height as int,
                point_to_shape(p, self.size as int, self.mirror, self.rotate),
            ),
            self.size as int,
            self.mirror,
            self.rotate,
        )
    }

    fn local_interference(&self, point: Vector) -> (r: Option<Interference>)
        requires
            self.wf(),
            within(point@, 4 * LIMIT),
        ensures
            contact_of(r) == step_slope_local_contact(
                self.size as int,
                self.height as int,
                point@,
            ),
            r matches Some(i) ==> 0 < i.den <= DEN_LIMIT && within(
                i.position@,
                WIDE_LIMIT / 2,
            ) && within(i.normal@, LIMIT as int),
    {
        let size = self.size;
        let height = self.height;
        if point.z > height || point.x < 0 || point.x > size || point.y < 0 || point.y > size {
            return None;
        }
        let x = point.x;
        let y = point.y;
        let z = point.z;
        if 2 * x < size {
            if z > 0 {
                return None;
            }
            return Some(
                Interference {
                    depth: -z,
                    position: Position { x: x as i128, y: y as i128, z: 0 },
                    den: 1,
                    normal: Vector { x: 0, y: 0, z: 1 },
                },
            );
        }
        let s = size as i128;
        let h = height as i128;
        proof {
            lemma_mul_within(size as int, height - z, 268435456, 1342177280);
            lemma_mul_within(height as int, y as int, 268435456, 268435456);
        }
        let d = s * (h - z as i128) - h * y as i128;
        if d < 0 {
            return None;
        }
        proof {
            lemma_incline_bounds(size as int, height as int, x as int, y as int, z as int, d as int);
            lemma_riser_bounds(size as int, height as int, x as int, d as int);
        }
        let n2 = h * h + s * s;
        let riser = (2 * x - size) as i128;
        if riser * riser * n2 < 4 * (d * d) {
            Some(
                Interference {
                    depth: riser as i64,
                    position: Position {
                        x: size as i128,
                        y: 2 * y as i128,
                        z: 2 * z as i128,
                    },
                    den: 2,
                    normal: Vector { x: -2, y: 0, z: 0 },
                },
            )
        } else {
            Some(
                Interference {
                    depth: d as i64,
                    position: Position {
                        x: n2 * x as i128,
                        y: n2 * y as i128 + d * h,
                        z: n2 * z as i128 + d * s,
                    },
                    den: n2,
                    normal: Vector { x: 0, y: height, z: size },
                },
            )
        }
    }

    /// The contact of a point given in the step slope's cell frame, or `None`
    /// when the point is outside the footprint, above the surface or above
    /// `height`.
    pub fn interference(&self, point: Vector) -> (r: Option<Interference>)
        requires
            self.wf(),
            within(point@, LIMIT as int),
        ensures
            contact_of(r) == self.contact(point@),
            r matches Some(i) ==> contact_bounded(i@),
    {
        let mut local = point;
        rotate_point(&mut local, self.size, &self.rotate, RotationDirection::Reverse);
        mirror_point(&mut local, self.size, &self.mirror);
        let found = self.local_interference(local);
        to_cell_frame(found, self.size, &self.mirror, &self.rotate)
    }

    /// The step slope's surface, placed in its cell, at twice its size.
    pub open spec fn mesh_view(&self) -> MeshView {
        placed(
            step_slope_positions(self.size as int, self.height as int),
            step_slope_normals(self.size as int, self.height as int),
            step_slope_uvs(),
            step_slope_indices(),
            2 * self.size,
            2,
            self.mirror,
            self.rotate,
        )
    }

    /// The step slope's surface, placed in its cell, at twice its size.
    pub fn mesh(&self) -> (r: MeshData)
        requires
            self.wf(),
        ensures
            r@ == self.mesh_view(),
    {
        let s = self.size;
        let w = 2 * self.size;
        let h = 2 * self.height;
        let up = Vector { x: 0, y: 0, z: 1 };
        let back = Vector { x: -1, y: 0, z: 0 };
        let ramp = Vector { x: 0, y: self.height, z: self.size };
        let positions = vec![
            Vector { x: 0, y: 0, z: 0 }, Vector { x: s, y: 0, z: 0 },
            Vector { x: s, y: w, z: 0 }, Vector { x: 0, y: w, z: 0 },
            Vector { x: s, y: 0, z: 0 }, Vector { x: s, y: 0, z: h },
            Vector { x: s, y: w, z: 0 },
            Vector { x: s, y: 0, z: h }, Vector { x: w, y: 0, z: h },
            Vector { x: w, y: w, z: 0 }, Vector { x: s, y: w, z: 0 },
        ];
        let normals = vec![up, up, up, up, back, back, back, ramp, ramp, ramp, ramp];
        let uvs = vec![
            Uv { u: 0, v: 0 }, Uv { u: 1, v: 0 }, Uv { u: 1, v: 3 }, Uv { u: 0, v: 3 },
            Uv { u: 1, v: 0 }, Uv { u: 2, v: 0 }, Uv { u: 1, v: 3 },
            Uv { u: 2, v: 0 }, Uv { u: 3, v: 0 }, Uv { u: 3, v: 3 }, Uv { u: 2, v: 3 },
        ];
        let indices = vec![
            Triangle { a: 0, b: 1, c: 3 }, Triangle { a: 2, b: 3, c: 1 },
            Triangle { a: 4, b: 5, c: 6 },
            Triangle { a: 7, b: 8, c: 10 }, Triangle { a: 9, b: 10, c: 8 },
        ];
        assert(views(positions@) =~= step_slope_positions(self.size as int, self.height as int));
        assert(views(normals@) =~= step_slope_normals(self.size as int, self.height as int));
        assert(uv_views(uvs@) =~= step_slope_uvs());
        assert(indices@ =~= step_slope_indices());
        placed_mesh(w, 2, positions, normals, uvs, indices, &self.mirror, &self.rotate)
    }
}

} // verus!
