use vstd::prelude::*;

use crate::geometry::{over_square, rotated, within, Vector, LIMIT};
use crate::mesh::Uv;

verus! {

/// Which way a rotation is applied.
#[derive(Clone, Copy, Debug, PartialEq, Eq, Structural)]
pub enum RotationDirection {
    /// From a shape's own frame out to its cell's frame.
    Forward,
    /// From the cell's frame into the shape's own frame.
    Reverse,
}

/// A rotation of a shape inside its cell, by quarter turns.
#[derive(Clone, Copy, Debug, PartialEq, Eq, Structural)]
pub enum Rotate {
    Zero,
    Ninety,
    OneEighty,
    TwoSeventy,
}

impl Default for Rotate {
    fn default() -> (r: Rotate)
        ensures
            r == Rotate::Zero,
    {
        Rotate::Zero
    }
}

/// Rotates a point inside a cell of edge `size`.
pub fn rotate_point(point: &mut Vector, size: i64, rotate: &Rotate, direction: RotationDirection)
    requires
        0 <= size <= 4 * LIMIT,
        within(old(point)@, 4 * LIMIT),
    ensures
        final(point)@ == rotated(old(point)@, size as int, *rotate, direction),
{
    let x = point.x;
    let y = point.y;
    match (rotate, direction) {
        (Rotate::Zero, _) => {},
        (Rotate::Ninety, RotationDirection::Forward)
        | (Rotate::TwoSeventy, RotationDirection::Reverse) => {
            point.x = size - y;
            point.y = x;
        },
        (Rotate::OneEighty, _) => {
            point.x = size - x;
            point.y = size - y;
        },
        (Rotate::TwoSeventy, RotationDirection::Forward)
        | (Rotate::Ninety, RotationDirection::Reverse) => {
            point.x = y;
            point.y = size - x;
        },
    }
}

/// A texture coordinate turned with its mesh: a half turn negates both
/// coordinates, and a quarter turn either way maps `(u, v)` to `(-v, u)`.
pub open spec fn uv_rotated(t: (int, int), r: Rotate) -> (int, int) {
    match r {
        Rotate::Zero => t,
        Rotate::Ninety => (-t.1, t.0),
        Rotate::OneEighty => (-t.0, -t.1),
        Rotate::TwoSeventy => (-t.1, t.0),
    }
}

/// Rotates every vector of `vs` by `rotation`, from a shape's frame out to its
/// cell's frame, inside a cell of edge `size`.
fn rotate_vectors(vs: &mut Vec<Vector>, size: i64, rotation: &Rotate)
    requires
        0 <= size <= 4 * LIMIT,
        forall|k: int| 0 <= k < old(vs).len() ==> within(#[trigger] old(vs)@[k]@, 4 * LIMIT),
    ensures
        final(vs).len() == old(vs).len(),
        forall|k: int|
            0 <= k < final(vs).len() ==> #[trigger] final(vs)@[k]@ == rotated(
                old(vs)@[k]@,
                size as int,
                *rotation,
                RotationDirection::Forward,
            ),
{
    let ghost orig = vs@;
    let mut i: usize = 0;
    while i < vs.len()
        invariant
            0 <= size <= 4 * LIMIT,
            vs.len() == orig.len(),
            0 <= i <= vs.len(),
            forall|k: int| 0 <= k < orig.len() ==> within(#[trigger] orig[k]@, 4 * LIMIT),
            forall|k: int|
                0 <= k < i ==> #[trigger] vs@[k]@ == rotated(
                    orig[k]@,
                    size as int,
                    *rotation,
                    RotationDirection::Forward,
                ),
            forall|k: int| i <= k < vs.len() ==> #[trigger] vs@[k] == orig[k],
        decreases vs.len() - i,
    {
        let mut p = vs[i];
        assert(within(orig[i as int]@, 4 * LIMIT));
        rotate_point(&mut p, size, rotation, RotationDirection::Forward);
        vs.set(i, p);
        i = i + 1;
    }
}

/// Rotates mesh buffers by `rotation` inside a cell of edge `size`: each
/// position, each normal and each texture coordinate.
pub fn rotate_mesh(
    size: i64,
    positions: &mut Vec<Vector>,
    normals: &mut Vec<Vector>,
    uvs: &mut Vec<Uv>,
    rotation: &Rotate,
)
    requires
        0 < size <= 4 * LIMIT,
        forall|k: int|
            0 <= k < old(positions).len() ==> over_square(
                #[trigger] old(positions)@[k]@,
                size as int,
            ),
        forall|k: int| 0 <= k < old(normals).len() ==> within(#[trigger] old(normals)@[k]@, LIMIT as int),
        forall|k: int|
            0 <= k < old(uvs).len() ==> -LIMIT <= (#[trigger] old(uvs)@[k]).u <= LIMIT && -LIMIT
                <= old(uvs)@[k].v <= LIMIT,
    ensures
        final(positions).len() == old(positions).len(),
        final(normals).len() == old(normals).len(),
        final(uvs).len() == old(uvs).len(),
        forall|k: int|
            0 <= k < final(positions).len() ==> #[trigger] final(positions)@[k]@ == rotated(
                old(positions)@[k]@,
                size as int,
                *rotation,
                RotationDirection::Forward,
            ),
        forall|k: int|
            0 <= k < final(normals).len() ==> #[trigger] final(normals)@[k]@ == rotated(
                old(normals)@[k]@,
                0,
                *rotation,
                RotationDirection::Forward,
            ),
        forall|k: int|
            0 <= k < final(uvs).len() ==> #[trigger] final(uvs)@[k]@ == uv_rotated(
                old(uvs)@[k]@,
                *rotation,
            ),
{
    rotate_vectors(positions, size, rotation);
    rotate_vectors(normals, 0, rotation);
    let ghost orig = uvs@;
    let mut i: usize = 0;
    while i < uvs.len()
        invariant
            uvs.len() == orig.len(),
            0 <= i <= uvs.len(),
            forall|k: int|
                0 <= k < orig.len() ==> -LIMIT <= (#[trigger] orig[k]).u <= LIMIT && -LIMIT
                    <= orig[k].v <= LIMIT,
            forall|k: int| 0 <= k < i ==> #[trigger] uvs@[k]@ == uv_rotated(orig[k]@, *rotation),
            forall|k: int| i <= k < uvs.len() ==> #[trigger] uvs@[k] == orig[k],
        decreases uvs.len() - i,
    {
        let t = uvs[i];
        assert(-LIMIT <= orig[i as int].u <= LIMIT && -LIMIT <= orig[i as int].v <= LIMIT);
        let turned = match rotation {
            Rotate::Zero => t,
            Rotate::Ninety => Uv { u: -t.v, v: t.u },
            Rotate::OneEighty => Uv { u: -t.u, v: -t.v },
            Rotate::TwoSeventy => Uv { u: -t.v, v: t.u },
        };
        uvs.set(i, turned);
        i = i + 1;
    }
}

} // verus!
