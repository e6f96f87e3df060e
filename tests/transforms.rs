use grid_terrain::geometry::{Interference, Position, Vector};
use grid_terrain::mesh::{Triangle, Uv};
use grid_terrain::mirror::{mirror_mesh, mirror_point, Mirror};
use grid_terrain::rotate::{rotate_mesh, rotate_point, Rotate, RotationDirection};

const ROTATIONS: [Rotate; 4] = [Rotate::Zero, Rotate::Ninety, Rotate::OneEighty, Rotate::TwoSeventy];

#[test]
fn rotate_four_times_is_identity() {
    for r in ROTATIONS {
        for d in [RotationDirection::Forward, RotationDirection::Reverse] {
            let start = Vector { x: 3, y: 7, z: -2 };
            let mut p = start;
            for _ in 0..4 {
                rotate_point(&mut p, 10, &r, d);
            }
            assert_eq!(p, start);
        }
    }
}

#[test]
fn mirror_twice_is_identity() {
    for m in [Mirror::Identity, Mirror::XZ, Mirror::YZ] {
        let start = Vector { x: 3, y: 7, z: 4 };
        let mut p = start;
        mirror_point(&mut p, 10, &m);
        mirror_point(&mut p, 10, &m);
        assert_eq!(p, start);
    }
}

#[test]
fn rotate_point_values() {
    let mut p = Vector { x: 3, y: 7, z: 1 };
    rotate_point(&mut p, 10, &Rotate::Ninety, RotationDirection::Forward);
    assert_eq!(p, Vector { x: 3, y: 3, z: 1 });
    let mut q = Vector { x: 3, y: 7, z: 1 };
    rotate_point(&mut q, 10, &Rotate::Ninety, RotationDirection::Reverse);
    assert_eq!(q, Vector { x: 7, y: 7, z: 1 });
    let mut h = Vector { x: 3, y: 7, z: 1 };
    rotate_point(&mut h, 10, &Rotate::OneEighty, RotationDirection::Forward);
    assert_eq!(h, Vector { x: 7, y: 3, z: 1 });
    let mut t = Vector { x: 3, y: 7, z: 1 };
    rotate_point(&mut t, 10, &Rotate::TwoSeventy, RotationDirection::Forward);
    assert_eq!(t, Vector { x: 7, y: 7, z: 1 });
}

#[test]
fn reverse_undoes_forward() {
    for r in ROTATIONS {
        let start = Vector { x: 2, y: 9, z: 5 };
        let mut p = start;
        rotate_point(&mut p, 10, &r, RotationDirection::Forward);
        rotate_point(&mut p, 10, &r, RotationDirection::Reverse);
        assert_eq!(p, start);
    }
}

#[test]
fn mirror_point_values() {
    let mut p = Vector { x: 3, y: 7, z: 1 };
    mirror_point(&mut p, 10, &Mirror::XZ);
    assert_eq!(p, Vector { x: 3, y: 3, z: 1 });
    let mut q = Vector { x: 3, y: 7, z: 1 };
    mirror_point(&mut q, 10, &Mirror::YZ);
    assert_eq!(q, Vector { x: 7, y: 7, z: 1 });
}

fn contact() -> Interference {
    // The point (3.5, 1, 2) over a denominator of 2, normal along -x.
    Interference {
        depth: 3,
        position: Position { x: 7, y: 2, z: 4 },
        den: 2,
        normal: Vector { x: -2, y: 0, z: 0 },
    }
}

#[test]
fn interference_mirror_scales_size() {
    let mut i = contact();
    i.mirror(10, &Mirror::YZ);
    assert_eq!(i.position, Position { x: 13, y: 2, z: 4 });
    assert_eq!(i.normal, Vector { x: 2, y: 0, z: 0 });
    assert_eq!((i.depth, i.den), (3, 2));
    i.mirror(10, &Mirror::YZ);
    assert_eq!(i, contact());
}

#[test]
fn interference_rotate_values() {
    let mut i = contact();
    i.rotate(10, &Rotate::Ninety, RotationDirection::Forward);
    assert_eq!(i.position, Position { x: 18, y: 7, z: 4 });
    assert_eq!(i.normal, Vector { x: 0, y: -2, z: 0 });
    for _ in 0..3 {
        i.rotate(10, &Rotate::Ninety, RotationDirection::Forward);
    }
    assert_eq!(i, contact());
}

#[test]
fn mirror_mesh_flips_winding() {
    let mut positions = vec![
        Vector { x: 0, y: 0, z: 0 },
        Vector { x: 10, y: 0, z: 0 },
        Vector { x: 0, y: 4, z: 0 },
    ];
    let mut normals = vec![Vector { x: 0, y: 1, z: 1 }; 3];
    let mut indices = vec![Triangle { a: 0, b: 1, c: 2 }];
    let mut uvs = vec![Uv { u: 0, v: 0 }, Uv { u: 3, v: 0 }, Uv { u: 0, v: 3 }];
    mirror_mesh(10, &mut positions, &mut normals, &mut indices, &mut uvs, &Mirror::XZ);
    assert_eq!(positions[0], Vector { x: 0, y: 10, z: 0 });
    assert_eq!(positions[2], Vector { x: 0, y: 6, z: 0 });
    assert_eq!(normals[1], Vector { x: 0, y: -1, z: 1 });
    assert_eq!(indices[0], Triangle { a: 0, b: 2, c: 1 });
    assert_eq!(uvs[1], Uv { u: 3, v: 0 });
}

#[test]
fn mirror_mesh_identity_keeps_everything() {
    let mut positions = vec![Vector { x: 1, y: 2, z: 0 }];
    let mut normals = vec![Vector { x: 0, y: 1, z: 1 }];
    let mut indices = vec![Triangle { a: 0, b: 0, c: 0 }];
    let mut uvs = vec![Uv { u: 1, v: 2 }];
    mirror_mesh(10, &mut positions, &mut normals, &mut indices, &mut uvs, &Mirror::Identity);
    assert_eq!(positions, vec![Vector { x: 1, y: 2, z: 0 }]);
    assert_eq!(normals, vec![Vector { x: 0, y: 1, z: 1 }]);
    assert_eq!(indices, vec![Triangle { a: 0, b: 0, c: 0 }]);
}

#[test]
fn rotate_mesh_values() {
    let mut positions = vec![Vector { x: 3, y: 7, z: 2 }];
    let mut normals = vec![Vector { x: 1, y: 0, z: 0 }];
    let mut uvs = vec![Uv { u: 1, v: 2 }];
    rotate_mesh(10, &mut positions, &mut normals, &mut uvs, &Rotate::Ninety);
    assert_eq!(positions[0], Vector { x: 3, y: 3, z: 2 });
    assert_eq!(normals[0], Vector { x: 0, y: 1, z: 0 });
    assert_eq!(uvs[0], Uv { u: -2, v: 1 });
    rotate_mesh(10, &mut positions, &mut normals, &mut uvs, &Rotate::OneEighty);
    assert_eq!(positions[0], Vector { x: 7, y: 7, z: 2 });
    assert_eq!(normals[0], Vector { x: 0, y: -1, z: 0 });
    assert_eq!(uvs[0], Uv { u: 2, v: -1 });
}
