use grid_terrain::examples::{steps, table_top};
use grid_terrain::geometry::Vector;
use grid_terrain::mesh::{MeshData, Triangle};
use grid_terrain::mirror::Mirror;
use grid_terrain::plane::Plane;
use grid_terrain::rotate::Rotate;
use grid_terrain::slope::Slope;
use grid_terrain::step::Step;
use grid_terrain::step_slope::StepSlope;
use grid_terrain::terrain::{GridElement, GridTerrain};

/// Twice the signed area, seen from above, of each triangle.
fn turns(mesh: &MeshData) -> Vec<(i64, Triangle)> {
    let mut out = Vec::new();
    for t in &mesh.indices {
        let a = mesh.positions[t.a as usize];
        let b = mesh.positions[t.b as usize];
        let c = mesh.positions[t.c as usize];
        let cross = (b.x - a.x) * (c.y - a.y) - (b.y - a.y) * (c.x - a.x);
        out.push((cross, *t));
    }
    out
}

/// Every triangle whose normal points up winds counterclockwise seen from above.
fn faces_up_counterclockwise(mesh: &MeshData) -> bool {
    turns(mesh).iter().all(|(cross, t)| {
        let up = mesh.normals[t.a as usize].z > 0;
        !up || *cross > 0
    })
}

fn placements() -> Vec<(Mirror, Rotate)> {
    let mut all = Vec::new();
    for m in [Mirror::Identity, Mirror::XZ, Mirror::YZ] {
        for r in [Rotate::Zero, Rotate::Ninety, Rotate::OneEighty, Rotate::TwoSeventy] {
            all.push((m, r));
        }
    }
    all
}

#[test]
fn step_mesh_winding_survives_transforms() {
    for (mirror, rotate) in placements() {
        let mesh = Step { size: 10, height: 2, rotate, mirror }.mesh();
        assert_eq!(mesh.scale, 2);
        assert_eq!(mesh.positions.len(), 20);
        assert!(faces_up_counterclockwise(&mesh), "{:?} {:?}", mirror, rotate);
    }
}

#[test]
fn step_slope_mesh_winding_survives_transforms() {
    for (mirror, rotate) in placements() {
        let mesh = StepSlope { size: 10, height: 2, rotate, mirror }.mesh();
        assert_eq!(mesh.positions.len(), 11);
        assert!(faces_up_counterclockwise(&mesh), "{:?} {:?}", mirror, rotate);
    }
}

#[test]
fn step_mesh_values() {
    let mesh = Step { size: 10, height: 2, rotate: Rotate::Zero, mirror: Mirror::XZ }.mesh();
    // The riser's top corner at (5, 0, 2) is reflected to (5, 10, 2), doubled.
    assert_eq!(mesh.positions[5], Vector { x: 10, y: 20, z: 4 });
    assert_eq!(mesh.normals[12], Vector { x: 0, y: 1, z: 0 });
    assert_eq!(mesh.indices[0], Triangle { a: 0, b: 3, c: 1 });
}

#[test]
fn slope_mesh_values() {
    let mesh = Slope { size: 40, height: 30, rotate: Rotate::Zero }.mesh();
    assert_eq!(mesh.scale, 1);
    assert_eq!(mesh.positions[2], Vector { x: 40, y: 40, z: 30 });
    assert_eq!(mesh.normals[0], Vector { x: 0, y: -30, z: 40 });
    assert!(faces_up_counterclockwise(&mesh));
    let turned = Slope { size: 40, height: 30, rotate: Rotate::Ninety }.mesh();
    assert_eq!(turned.normals[0], Vector { x: 30, y: 0, z: 40 });
    assert!(faces_up_counterclockwise(&turned));
}

#[test]
fn plane_mesh_values() {
    let mesh = Plane { size: [7, 3] }.mesh();
    assert_eq!(mesh.positions[2], Vector { x: 7, y: 3, z: 0 });
    assert!(faces_up_counterclockwise(&mesh));
}

#[test]
fn extension_meshes_surround_grid() {
    let terrain = GridTerrain::new(table_top(10, 2), [10, 10]);
    let patches = terrain.extension_meshes(500);
    let corners: Vec<(i64, i64, i64, i64)> = patches
        .iter()
        .map(|p| (p.offset.x, p.offset.y, p.mesh.positions[2].x, p.mesh.positions[2].y))
        .collect();
    assert_eq!(
        corners,
        vec![
            (-500, -500, 500, 500),
            (0, -500, 30, 500),
            (30, -500, 500, 500),
            (-500, 0, 500, 20),
            (30, 0, 500, 20),
            (-500, 20, 500, 500),
            (0, 20, 30, 500),
            (30, 20, 500, 500),
        ]
    );
}

#[test]
fn cell_meshes_are_offset() {
    let terrain = GridTerrain::new(steps(10, vec![2, 4]), [10, 10]);
    let cells = terrain.cell_meshes();
    assert_eq!(cells.len(), 2);
    assert_eq!(cells[1].len(), 3);
    assert_eq!(cells[1][2].offset, Vector { x: 20, y: 10, z: 0 });
    assert_eq!(cells[1][0].mesh.positions[5], Vector { x: 10, y: 0, z: 8 });
}

#[test]
fn table_top_layout() {
    let rows = table_top(10, 2);
    assert_eq!(rows.len(), 2);
    assert_eq!(
        rows[0][2],
        GridElement::StepSlope(StepSlope {
            size: 10,
            height: 2,
            rotate: Rotate::TwoSeventy,
            mirror: Mirror::YZ,
        })
    );
    assert_eq!(
        rows[1][1],
        GridElement::Step(Step { size: 10, height: 2, rotate: Rotate::TwoSeventy, mirror: Mirror::Identity })
    );
}

#[test]
fn table_top_plateau_is_reachable() {
    // The middle column's plateau stands at the table's height.
    let terrain = GridTerrain::new(table_top(100, 20), [100, 100]);
    let top = terrain.interference(Vector { x: 150, y: 90, z: 19 }).unwrap();
    assert_eq!(top.normal, Vector { x: 0, y: 0, z: 1 });
    assert_eq!(top.position.z, 20 * top.den);
}

#[test]
fn steps_layout() {
    let rows = steps(10, vec![1, 2, 3]);
    assert_eq!(rows.len(), 3);
    assert_eq!(rows[2][0], GridElement::Step(Step { size: 10, height: 3, rotate: Rotate::Zero, mirror: Mirror::Identity }));
    assert_eq!(rows[0][1], GridElement::Step(Step { size: 10, height: 1, rotate: Rotate::OneEighty, mirror: Mirror::Identity }));
    assert_eq!(rows[1][2], GridElement::Plane(Plane { size: [10, 10] }));
}
