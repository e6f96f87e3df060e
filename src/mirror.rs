use vstd::prelude::*;

use crate::geometry::{mirrored, over_square, within, Vector, LIMIT};
use crate::mesh::{flipped, Triangle, Uv};

verus! {

/// A reflection applied to a shape inside its cell.
#[derive(Clone, Copy, Debug, PartialEq, Eq, Structural)]
pub enum Mirror {
    /// No reflection.
    Identity,
    /// Reflection across the XZ plane through the cell's middle: `y` becomes `size - y`.
    XZ,
    /// Reflection across the YZ plane through the cell's middle: `x` becomes `size - x`.
    YZ,
}

impl Default for Mirror {
    fn default() -> (r: Mirror)
        ensures
            r == Mirror::Identity,
    {
        Mirror::Identity
    }
}

/// Reflects a point inside a cell of edge `size`.
pub fn mirror_point(point: &mut Vector, size: i64, mirror: &Mirror)
    requires
        0 <= size <= 4 * LIMIT,
        within(old(point)@, 4 * LIMIT),
    ensures
        final(point)@ == mirrored(old(point)@, size as int, *mirror),
{
    match mirror {
        Mirror::Identity => {},
        Mirror::XZ => {
            point.y = size - point.y;
        },
        Mirror::YZ => {
            point.x = size - point.x;
        },
    }
}

/// Reflects every vector of `vs` inside a cell of edge `size`.
fn mirror_vectors(vs: &mut Vec<Vector>, size: i64, mirror: &Mirror, bound: i64)
    requires
        0 <= size <= 4 * LIMIT,
        0 <= bound <= 4 * LIMIT,
        forall|k: int| 0 <= k < old(vs).len() ==> within(#[trigger] old(vs)@[k]@, bound as int),
        size == 0 || forall|k: int|
            0 <= k < old(vs).len() ==> over_square(#[trigger] old(vs)@[k]@, size as int),
    ensures
        final(vs).len() == old(vs).len(),
        forall|k: int|
            0 <= k < final(vs).len() ==> #[trigger] final(vs)@[k]@ == mirrored(
                old(vs)@[k]@,
                size as int,
                *mirror,
            ),
{
    let ghost orig = vs@;
    let mut i: usize = 0;
    while i < vs.len()
        invariant
            0 <= size <= 4 * LIMIT,
            0 <= bound <= 4 * LIMIT,
            vs.len() == orig.len(),
            0 <= i <= vs.len(),
            forall|k: int| 0 <= k < orig.len() ==> within(#[trigger] orig[k]@, bound as int),
            size == 0 || forall|k: int|
                0 <= k < orig.len() ==> over_square(#[trigger] orig[k]@, size as int),
            forall|k: int|
                0 <= k < i ==> #[trigger] vs@[k]@ == mirrored(orig[k]@, size as int, *mirror),
            forall|k: int| i <= k < vs.len() ==> #[trigger] vs@[k] == orig[k],
        decreases vs.len() - i,
    {
        let mut p = vs[i];
        assert(within(orig[i as int]@, bound as int));
        mirror_point(&mut p, size, mirror);
        vs.set(i, p);
        i = i + 1;
    }
}

/// Reflects mesh buffers inside a cell of edge `size`: each position and each
/// normal, and, where something is reflected, the winding of each triangle,
/// so that the faces still face out.
pub fn mirror_mesh(
    size: i64,
    positions: &mut Vec<Vector>,
    normals: &mut Vec<Vector>,
    indices: &mut Vec<Triangle>,
    uvs: &mut Vec<Uv>,
    mirror: &Mirror,
)
    requires
        0 < size <= 4 * LIMIT,
        old(normals).len() == old(positions).len(),
        forall|k: int|
            0 <= k < old(positions).len() ==> over_square(
                #[trigger] old(positions)@[k]@,
                size as int,
            ),
        forall|k: int| 0 <= k < old(normals).len() ==> within(#[trigger] old(normals)@[k]@, LIMIT as int),
    ensures
        final(positions).len() == old(positions).len(),
        final(normals).len() == old(normals).len(),
        final(indices).len() == old(indices).len(),
        forall|k: int|
            0 <= k < final(positions).len() ==> #[trigger] final(positions)@[k]@ == mirrored(
                old(positions)@[k]@,
                size as int,
                *mirror,
            ),
        forall|k: int|
            0 <= k < final(normals).len() ==> #[trigger] final(normals)@[k]@ == mirrored(
                old(normals)@[k]@,
                0,
                *mirror,
            ),
        forall|k: int|
            0 <= k < final(indices).len() ==> #[trigger] final(indices)@[k] == if *mirror
                == Mirror::Identity {
                old(indices)@[k]
            } else {
                flipped(old(indices)@[k])
            },
        final(uvs)@ == old(uvs)@,
{
    if *mirror == Mirror::Identity {
        return;
    }
    mirror_vectors(positions, size, mirror, (4 * LIMIT) as i64);
    mirror_vectors(normals, 0, mirror, LIMIT);
    let ghost orig = indices@;
    let mut i: usize = 0;
    while i < indices.len()
        invariant
            indices.len() == orig.len(),
            0 <= i <= indices.len(),
            forall|k: int| 0 <= k < i ==> #[trigger] indices@[k] == flipped(orig[k]),
            forall|k: int| i <= k < indices.len() ==> #[trigger] indices@[k] == orig[k],
        decreases indices.len() - i,
    {
        let t = indices[i];
        indices.set(i, Triangle { a: t.a, b: t.c, c: t.b });
        i = i + 1;
    }
}

} // verus!
