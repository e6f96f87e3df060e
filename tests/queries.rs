use grid_terrain::geometry::{Interference, Position, Vector};
use grid_terrain::mirror::Mirror;
use grid_terrain::plane::Plane;
use grid_terrain::rotate::Rotate;
use grid_terrain::slope::Slope;
use grid_terrain::step::Step;
use grid_terrain::step_slope::StepSlope;
use grid_terrain::terrain::{GridElement, GridTerrain};

// Lengths below are in tenths of the unit of the examples they come from.

fn v(x: i64, y: i64, z: i64) -> Vector {
    Vector { x, y, z }
}

fn face(depth: i64, position: (i128, i128, i128), normal: (i64, i64, i64)) -> Interference {
    Interference {
        depth,
        position: Position { x: position.0, y: position.1, z: position.2 },
        den: 1,
        normal: v(normal.0, normal.1, normal.2),
    }
}

/// The depth, the contact point and the unit normal, as floating point.
fn as_floats(i: &Interference) -> (f64, [f64; 3], [f64; 3]) {
    let n = i.normal;
    let len = ((n.x * n.x + n.y * n.y + n.z * n.z) as f64).sqrt();
    let den = i.den as f64;
    (
        i.depth as f64 / len,
        [i.position.x as f64 / den, i.position.y as f64 / den, i.position.z as f64 / den],
        [n.x as f64 / len, n.y as f64 / len, n.z as f64 / len],
    )
}

fn close(a: f64, b: f64) -> bool {
    (a - b).abs() < 1e-9
}

fn step() -> Step {
    Step { size: 100, height: 20, rotate: Rotate::Zero, mirror: Mirror::Identity }
}

fn single(element: GridElement) -> GridTerrain {
    GridTerrain::new(vec![vec![element]], [100, 100])
}

#[test]
fn ground_left_of_grid_below_zero() {
    let terrain = single(GridElement::Step(step()));
    assert_eq!(terrain.interference(v(-5, 30, -20)), Some(face(20, (-5, 30, 0), (0, 0, 1))));
    assert_eq!(terrain.interference(v(30, -7, -1)), Some(face(1, (30, -7, 0), (0, 0, 1))));
    assert_eq!(terrain.interference(v(-30, -7, -4)), Some(face(4, (-30, -7, 0), (0, 0, 1))));
}

#[test]
fn ground_left_of_grid_above_zero() {
    let terrain = single(GridElement::Step(step()));
    assert_eq!(terrain.interference(v(-5, 30, 0)), None);
    assert_eq!(terrain.interference(v(30, -7, 12)), None);
}

#[test]
fn step_low_region() {
    let r = step().interference(v(20, 50, -10));
    assert_eq!(r, Some(face(10, (20, 50, 0), (0, 0, 1))));
    let (m, p, n) = as_floats(&r.unwrap());
    assert!(close(m, 10.0) && p == [20.0, 50.0, 0.0] && n == [0.0, 0.0, 1.0]);
}

#[test]
fn step_low_region_above_ground() {
    assert_eq!(step().interference(v(20, 50, 1)), None);
}

#[test]
fn step_plateau_top_wins() {
    assert_eq!(step().interference(v(80, 50, 15)), Some(face(5, (80, 50, 20), (0, 0, 1))));
}

#[test]
fn step_top_still_wins_near_wall() {
    assert_eq!(step().interference(v(80, 98, 19)), Some(face(1, (80, 98, 20), (0, 0, 1))));
}

#[test]
fn step_side_wall_priority() {
    assert_eq!(step().interference(v(80, 99, 5)), Some(face(1, (80, 100, 5), (0, 1, 0))));
}

#[test]
fn step_negative_wall() {
    assert_eq!(step().interference(v(80, 1, 5)), Some(face(1, (80, 0, 5), (0, -1, 0))));
}

#[test]
fn step_equal_walls_take_positive_wall() {
    // Both wall margins are 50, as is the riser's; the top's is 60.
    let s = Step { size: 100, height: 60, rotate: Rotate::Zero, mirror: Mirror::Identity };
    let r = s.interference(v(100, 50, 0)).unwrap();
    assert_eq!(r, face(50, (100, 100, 0), (0, 1, 0)));
}

#[test]
fn step_riser_wins() {
    // Riser margin 1, top 15, walls 50.
    let r = step().interference(v(51, 50, 5)).unwrap();
    assert_eq!(
        r,
        Interference {
            depth: 2,
            position: Position { x: 100, y: 100, z: 10 },
            den: 2,
            normal: v(-2, 0, 0),
        }
    );
    let (m, p, n) = as_floats(&r);
    assert!(close(m, 1.0) && p == [50.0, 50.0, 5.0] && n == [-1.0, 0.0, 0.0]);
}

#[test]
fn step_outside_and_above() {
    assert_eq!(step().interference(v(101, 50, -1)), None);
    assert_eq!(step().interference(v(80, 50, 21)), None);
}

#[test]
fn step_rotated_and_mirrored() {
    // Rotated a quarter turn, the plateau covers y >= 50 of the cell.
    let s = Step { size: 100, height: 20, rotate: Rotate::Ninety, mirror: Mirror::Identity };
    assert_eq!(s.interference(v(50, 80, 15)), Some(face(5, (50, 80, 20), (0, 0, 1))));
    assert_eq!(s.interference(v(50, 20, 15)), None);
    // Reflected across YZ, the plateau covers x <= 50 and the riser faces +x.
    let m = Step { size: 100, height: 20, rotate: Rotate::Zero, mirror: Mirror::YZ };
    assert_eq!(m.interference(v(20, 50, 15)), Some(face(5, (20, 50, 20), (0, 0, 1))));
    let riser = m.interference(v(49, 50, 5)).unwrap();
    let (depth, p, n) = as_floats(&riser);
    assert!(close(depth, 1.0) && p == [50.0, 50.0, 5.0] && n == [1.0, 0.0, 0.0]);
}

#[test]
fn grid_offset_round_trip() {
    let terrain = GridTerrain::new(
        vec![vec![GridElement::Plane(Plane { size: [100, 100] }), GridElement::Step(step())]],
        [100, 100],
    );
    let local = step().interference(v(20, 50, -10)).unwrap();
    let world = terrain.interference(v(120, 50, -10)).unwrap();
    assert_eq!(world.depth, local.depth);
    assert_eq!(world.normal, local.normal);
    assert_eq!(world.position, Position { x: 120, y: 50, z: 0 });
}

#[test]
fn grid_translates_fractional_contacts() {
    let terrain = GridTerrain::new(vec![vec![], vec![GridElement::Step(step())]], [100, 100]);
    let r = terrain.interference(v(51, 150, 5)).unwrap();
    let (m, p, n) = as_floats(&r);
    assert!(close(m, 1.0) && p == [50.0, 150.0, 5.0] && n == [-1.0, 0.0, 0.0]);
}

#[test]
fn grid_ragged_rows_fall_back_to_ground() {
    let plane = GridElement::Plane(Plane { size: [100, 100] });
    let terrain = GridTerrain::new(vec![vec![plane], vec![plane, plane]], [100, 100]);
    assert_eq!(terrain.interference(v(150, 50, -3)), Some(face(3, (150, 50, 0), (0, 0, 1))));
    assert_eq!(terrain.interference(v(150, 50, 3)), None);
    assert_eq!(terrain.interference(v(50, 350, -2)), Some(face(2, (50, 350, 0), (0, 0, 1))));
}

#[test]
fn grid_shape_miss_falls_back_to_ground() {
    let terrain = single(GridElement::Plane(Plane { size: [50, 50] }));
    assert_eq!(terrain.interference(v(70, 70, -5)), Some(face(5, (70, 70, 0), (0, 0, 1))));
    assert_eq!(terrain.interference(v(20, 20, -5)), Some(face(5, (20, 20, 0), (0, 0, 1))));
}

#[test]
fn slope_contact() {
    // Face from 0 at y = 0 up to 30 at y = 40 over a cell of 40: normal (0, -3, 4) / 5.
    let s = Slope { size: 40, height: 30, rotate: Rotate::Zero };
    let r = s.interference(v(10, 20, 5)).unwrap();
    let (m, p, n) = as_floats(&r);
    // The face is at z = 15 above (10, 20); the point lies 10 below it, 8 along the normal.
    assert!(close(m, 8.0));
    assert!(close(p[0], 10.0) && close(p[1], 15.2) && close(p[2], 11.4));
    assert!(close(n[0], 0.0) && close(n[1], -0.6) && close(n[2], 0.8));
    assert_eq!(s.interference(v(10, 20, 16)), None);
    assert_eq!(s.interference(v(10, 41, 5)), None);
}

#[test]
fn slope_rotated_half_turn() {
    let s = Slope { size: 40, height: 30, rotate: Rotate::OneEighty };
    let r = s.interference(v(30, 20, 5)).unwrap();
    let (m, p, n) = as_floats(&r);
    assert!(close(m, 8.0));
    assert!(close(p[0], 30.0) && close(p[1], 24.8) && close(p[2], 11.4));
    assert!(close(n[0], 0.0) && close(n[1], 0.6) && close(n[2], 0.8));
}

#[test]
fn step_slope_ramp_and_riser() {
    // Ramp from 30 at y = 0 down to 0 at y = 40, normal (0, 3, 4) / 5.
    let s = StepSlope { size: 40, height: 30, rotate: Rotate::Zero, mirror: Mirror::Identity };
    // Ramp at z = 15 over y = 20; the point is 5 below it, 4 along the normal;
    // the riser is 16 away.
    let ramp = s.interference(v(36, 20, 10)).unwrap();
    let (m, p, n) = as_floats(&ramp);
    assert!(close(m, 4.0));
    assert!(close(p[0], 36.0) && close(p[1], 22.4) && close(p[2], 13.2));
    assert!(close(n[1], 0.6) && close(n[2], 0.8));
    // Riser 1 away, ramp 4 away.
    let riser = s.interference(v(21, 20, 10)).unwrap();
    let (m, p, n) = as_floats(&riser);
    assert!(close(m, 1.0) && p == [20.0, 20.0, 10.0] && n == [-1.0, 0.0, 0.0]);
    // Ground on the low half, nothing above the ramp.
    assert_eq!(s.interference(v(5, 20, -2)), Some(face(2, (5, 20, 0), (0, 0, 1))));
    assert_eq!(s.interference(v(36, 20, 16)), None);
}

#[test]
fn step_slope_tie_goes_to_ramp() {
    // Riser margin 4 equals the distance to the ramp.
    let s = StepSlope { size: 40, height: 30, rotate: Rotate::Zero, mirror: Mirror::Identity };
    let r = s.interference(v(24, 20, 10)).unwrap();
    assert_eq!(r.normal, v(0, 30, 40));
}

#[test]
fn plane_contact() {
    let p = Plane { size: [100, 50] };
    assert_eq!(p.interference(v(100, 50, -1)), Some(face(1, (100, 50, 0), (0, 0, 1))));
    assert_eq!(p.interference(v(100, 51, -1)), None);
    assert_eq!(p.interference(v(10, 10, 1)), None);
}

#[test]
fn checked_accepts_ragged_rows() {
    let plane = GridElement::Plane(Plane { size: [100, 100] });
    let terrain = GridTerrain::checked(vec![vec![plane], vec![plane, GridElement::Step(step())]], [100, 100]);
    let terrain = terrain.expect("a ragged grid is a valid layout");
    assert_eq!(terrain.interference(v(180, 150, 15)), Some(face(5, (180, 150, 20), (0, 0, 1))));
}

#[test]
fn checked_rejects_bad_steps() {
    let plane = GridElement::Plane(Plane { size: [100, 100] });
    assert!(GridTerrain::checked(vec![vec![plane]], [0, 100]).is_none());
    assert!(GridTerrain::checked(vec![vec![plane]], [100, -1]).is_none());
    assert!(GridTerrain::checked(vec![vec![plane]], [268435457, 100]).is_none());
}

#[test]
fn checked_rejects_bad_shapes() {
    let flat = Step { size: 0, height: 20, rotate: Rotate::Zero, mirror: Mirror::Identity };
    assert!(!GridElement::Step(flat).is_valid());
    assert!(GridTerrain::checked(vec![vec![GridElement::Step(flat)]], [100, 100]).is_none());
    let sunk = Slope { size: 100, height: -1, rotate: Rotate::Zero };
    assert!(GridTerrain::checked(vec![vec![GridElement::Slope(sunk)]], [100, 100]).is_none());
    assert!(GridElement::Step(step()).is_valid());
}

#[test]
fn checked_rejects_grids_beyond_limit() {
    let plane = GridElement::Plane(Plane { size: [100, 100] });
    let wide = vec![plane; 3];
    assert!(GridTerrain::checked(vec![wide.clone()], [100_000_000, 100]).is_none());
    assert!(GridTerrain::checked(vec![wide], [80_000_000, 100]).is_some());
    let deep = vec![vec![plane]; 3];
    assert!(GridTerrain::checked(deep, [100, 100_000_000]).is_none());
    assert!(GridTerrain::checked(vec![], [100, 100]).is_some());
}
