use vstd::prelude::*;

use crate::geometry::{
    contact_bounded, contact_of, ground_contact, within, Contact, Interference, Position, Vector,
    LIMIT,
};
use crate::mesh::{MeshData, MeshView, Triangle, Uv};
use crate::slope::{quad_indices, quad_uvs};

verus! {

/// Flat ground at height `0` over the rectangle `[0, size[0]] x [0, size[1]]`.
#[derive(Clone, Copy, Debug, PartialEq, Eq)]
pub struct Plane {
    pub size: [i64; 2],
}

/// The contact of a point with a plane of the given extent.
pub open spec fn plane_contact(size_x: int, size_y: int, p: (int, int, int)) -> Option<Contact> {
    if p.0 < 0 || p.0 > size_x || p.1 < 0 || p.1 > size_y || p.2 > 0 {
        None
    } else {
        Some(ground_contact(p))
    }
}

/// The surface of a plane of the given extent: one rectangle facing up.
pub open spec fn plane_mesh(sx: int, sy: int) -> MeshView {
    MeshView {
        positions: seq![(0, 0, 0), (sx, 0, 0), (sx, sy, 0), (0, sy, 0)],
        normals: seq![(0, 0, 1), (0, 0, 1), (0, 0, 1), (0, 0, 1)],
        uvs: quad_uvs(),
        indices: quad_indices(),
        scale: 1,
    }
}

impl Plane {
    /// Sizes that the plane's arithmetic supports.
    pub open spec fn wf(&self) -> bool {
        0 <= self.size[0] <= LIMIT && 0 <= self.size[1] <= LIMIT
    }

    /// The plane's surface: one rectangle facing up.
    pub open spec fn mesh_view(&self) -> MeshView {
        plane_mesh(self.size[0] as int, self.size[1] as int)
    }

    /// The plane's surface: one rectangle facing up.
    pub fn mesh(&self) -> (r: MeshData)
        ensures
            r@ == self.mesh_view(),
    {
        let sx = self.size[0];
        let sy = self.size[1];
        let up = Vector { x: 0, y: 0, z: 1 };
        let positions = vec![
            Vector { x: 0, y: 0, z: 0 }, Vector { x: sx, y: 0, z: 0 },
            Vector { x: sx, y: sy, z: 0 }, Vector { x: 0, y: sy, z: 0 },
        ];
        let normals = vec![up, up, up, up];
        let uvs = vec![Uv { u: 0, v: 0 }, Uv { u: 3, v: 0 }, Uv { u: 3, v: 3 }, Uv { u: 0, v: 3 }];
        let indices = vec![Triangle { a: 0, b: 1, c: 3 }, Triangle { a: 2, b: 3, c: 1 }];
        let r = MeshData { positions, normals, uvs, indices, scale: 1 };
        assert(r@.positions =~= self.mesh_view().positions);
        assert(r@.normals =~= self.mesh_view().normals);
        assert(r@.uvs =~= self.mesh_view().uvs);
        assert(r@.indices =~= self.mesh_view().indices);
        r
    }

    /// The contact of a point given in the plane's cell frame.
    pub open spec fn contact(&self, p: (int, int, int)) -> Option<Contact> {
        plane_contact(self.size[0] as int, self.size[1] as int, p)
    }

    /// The contact of a point with the plane, or `None` when the point is
    /// outside the footprint or above the ground.
    pub fn interference(&self, point: Vector) -> (r: Option<Interference>)
        requires
            self.wf(),
            within(point@, LIMIT as int),
        ensures
            contact_of(r) == self.contact(point@),
            r matches Some(i) ==> contact_bounded(i@),
    {
        if point.x < 0 || point.x > self.size[0] || point.y < 0 || point.y > self.size[1]
            || point.z > 0 {
            return None;
        }
        Some(
            Interference {
                depth: -point.z,
                position: Position { x: point.x as i128, y: point.y as i128, z: 0 },
                den: 1,
                normal: Vector { x: 0, y: 0, z: 1 },
            },
        )
    }
}

} // verus!
