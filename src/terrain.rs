use vstd::prelude::*;

use crate::geometry::{
    contact_bounded, contact_of, ground_contact, lemma_scaled_size, within, Contact,
    Interference, Position, Vector, LIMIT,
};
use crate::mesh::{MeshData, MeshView};
use crate::plane::{plane_mesh, Plane};
use crate::slope::Slope;
use crate::step::Step;
use crate::step_slope::StepSlope;

verus! {

/// The shape that fills one cell of a [`GridTerrain`].
#[derive(Clone, Copy, Debug, PartialEq, Eq)]
pub enum GridElement {
    Plane(Plane),
    Step(Step),
    StepSlope(StepSlope),
    Slope(Slope),
}

impl GridElement {
    /// Sizes that the shape's arithmetic supports.
    pub open spec fn wf(&self) -> bool {
        match self {
            GridElement::Plane(e) => e.wf(),
            GridElement::Step(e) => e.wf(),
            GridElement::StepSlope(e) => e.wf(),
            GridElement::Slope(e) => e.wf(),
        }
    }

    /// The contact of a point given in the cell's frame.
    pub open spec fn contact(&self, p: (int, int, int)) -> Option<Contact> {
        match self {
            GridElement::Plane(e) => e.contact(p),
            GridElement::Step(e) => e.contact(p),
            GridElement::StepSlope(e) => e.contact(p),
            GridElement::Slope(e) => e.contact(p),
        }
    }

    /// Whether the shape's sizes are ones that its arithmetic supports.
    pub fn is_valid(&self) -> (r: bool)
        ensures
            r == self.wf(),
    {
        match self {
            GridElement::Plane(e) => 0 <= e.size[0] && e.size[0] <= LIMIT && 0 <= e.size[1]
                && e.size[1] <= LIMIT,
            GridElement::Step(e) => 0 < e.size && e.size <= LIMIT && 0 <= e.height && e.height
                <= LIMIT,
            GridElement::StepSlope(e) => 0 < e.size && e.size <= LIMIT && 0 <= e.height
                && e.height <= LIMIT,
            GridElement::Slope(e) => 0 < e.size && e.size <= LIMIT && 0 <= e.height && e.height
                <= LIMIT,
        }
    }

    /// The shape's surface, placed in its cell.
    pub open spec fn mesh_view(&self) -> MeshView {
        match self {
            GridElement::Plane(e) => e.mesh_view(),
            GridElement::Step(e) => e.mesh_view(),
            GridElement::StepSlope(e) => e.mesh_view(),
            GridElement::Slope(e) => e.mesh_view(),
        }
    }

    /// The shape's surface, placed in its cell.
    pub fn mesh(&self) -> (r: MeshData)
        requires
            self.wf(),
        ensures
            r@ == self.mesh_view(),
    {
        match self {
            GridElement::Plane(e) => e.mesh(),
            GridElement::Step(e) => e.mesh(),
            GridElement::StepSlope(e) => e.mesh(),
            GridElement::Slope(e) => e.mesh(),
        }
    }

    /// The contact of a point given in the cell's frame, or `None`.
    pub fn interference(&self, point: Vector) -> (r: Option<Interference>)
        requires
            self.wf(),
            within(point@, LIMIT as int),
        ensures
            contact_of(r) == self.contact(point@),
            r matches Some(i) ==> contact_bounded(i@),
    {
        match self {
            GridElement::Plane(e) => e.interference(point),
            GridElement::Step(e) => e.interference(point),
            GridElement::StepSlope(e) => e.interference(point),
            GridElement::Slope(e) => e.interference(point),
        }
    }
}

/// The flat ground under a point, if the point is below it.
pub open spec fn ground_below(p: (int, int, int)) -> Option<Contact> {
    if p.2 < 0 {
        Some(ground_contact(p))
    } else {
        None
    }
}

/// A contact moved by `(dx, dy, 0)`.
pub open spec fn translated(c: Contact, dx: int, dy: int) -> Contact {
    Contact {
        depth: c.depth,
        position: (c.position.0 + dx * c.den, c.position.1 + dy * c.den, c.position.2),
        den: c.den,
        normal: c.normal,
    }
}

/// The contact of a world point with a grid of cells of `step_x` by `step_y`,
/// whose row `j` holds the cells `(i, j)`.
///
/// Left of or below the grid, and wherever no cell is or the cell's shape
/// reports no contact, the terrain is flat ground at height `0`.
pub open spec fn terrain_contact(
    rows: Seq<Seq<GridElement>>,
    step_x: int,
    step_y: int,
    p: (int, int, int),
) -> Option<Contact> {
    if p.0 < 0 || p.1 < 0 {
        ground_below(p)
    } else {
        let i = p.0 / step_x;
        let j = p.1 / step_y;
        let local = (p.0 - i * step_x, p.1 - j * step_y, p.2);
        if j < rows.len() && i < rows[j].len() {
            match rows[j][i].contact(local) {
                Some(c) => Some(translated(c, i * step_x, j * step_y)),
                None => ground_below(p),
            }
        } else {
            ground_below(p)
        }
    }
}

/// Left of the grid or below it (`x < 0` or `y < 0`), a point under the ground
/// touches the flat ground straight above it, at depth `-z` with the normal
/// `+z`, and a point at or above the ground touches nothing.
pub proof fn lemma_ground_outside(
    rows: Seq<Seq<GridElement>>,
    step_x: int,
    step_y: int,
    p: (int, int, int),
)
    requires
        p.0 < 0 || p.1 < 0,
    ensures
        p.2 < 0 ==> terrain_contact(rows, step_x, step_y, p) == Some(
            Contact { depth: -p.2, position: (p.0, p.1, 0), den: 1, normal: (0, 0, 1) },
        ),
        p.2 >= 0 ==> terrain_contact(rows, step_x, step_y, p) == None::<Contact>,
{
}

/// A mesh with the world position of its origin.
#[derive(Clone, Debug)]
pub struct PlacedMesh {
    pub mesh: MeshData,
    pub offset: Vector,
}

impl View for PlacedMesh {
    type V = (MeshView, (int, int, int));

    open spec fn view(&self) -> (MeshView, (int, int, int)) {
        (self.mesh@, self.offset@)
    }
}

/// A patch of flat ground of `sx` by `sy` whose corner is at `(ox, oy, 0)`.
pub open spec fn ground_patch(ox: int, oy: int, sx: int, sy: int) -> (MeshView, (int, int, int)) {
    (plane_mesh(sx, sy), (ox, oy, 0))
}

/// The eight patches of flat ground, `extension` wide, around a grid of
/// `width` by `depth`: by rows from `-y` to `+y`, each from `-x` to `+x`.
pub open spec fn extension_patches(width: int, depth: int, extension: int) -> Seq<
    (MeshView, (int, int, int)),
> {
    let e = extension;
    let n = -extension;
    seq![
        ground_patch(n, n, e, e),
        ground_patch(0, n, width, e),
        ground_patch(width, n, e, e),
        ground_patch(n, 0, e, depth),
        ground_patch(width, 0, e, depth),
        ground_patch(n, depth, e, e),
        ground_patch(0, depth, width, e),
        ground_patch(width, depth, e, e),
    ]
}

fn patch(ox: i64, oy: i64, sx: i64, sy: i64) -> (r: PlacedMesh)
    ensures
        r@ == ground_patch(ox as int, oy as int, sx as int, sy as int),
{
    let mesh = Plane { size: [sx, sy] }.mesh();
    PlacedMesh { mesh, offset: Vector { x: ox, y: oy, z: 0 } }
}

proof fn lemma_offset_bound(i: int, n: int, step: int)
    requires
        0 <= i <= n,
        0 < step,
        n * step <= LIMIT,
    ensures
        0 <= i <= LIMIT,
        0 <= i * step <= LIMIT,
{
    assert(0 <= i * step <= n * step && i <= i * step) by (nonlinear_arith)
        requires
            0 <= i <= n,
            0 < step,
    ;
}

/// Cells of `step_x` by `step_y` and shapes that the arithmetic supports, in
/// rows, and a grid, that reach no further than [`LIMIT`].
pub open spec fn valid_layout(rows: Seq<Seq<GridElement>>, step_x: int, step_y: int) -> bool {
    &&& 0 < step_x <= LIMIT
    &&& 0 < step_y <= LIMIT
    &&& rows.len() * step_y <= LIMIT
    &&& forall|j: int| 0 <= j < rows.len() ==> #[trigger] rows[j].len() * step_x <= LIMIT
    &&& forall|j: int, i: int|
        0 <= j < rows.len() && 0 <= i < rows[j].len() ==> (#[trigger] rows[j][i]).wf()
}

/// A rectangular, possibly ragged, grid of shapes, with flat ground around it.
pub struct GridTerrain {
    elements: Vec<Vec<GridElement>>,
    step: [i64; 2],
}

impl GridTerrain {
    /// The cells, by row.
    pub closed spec fn rows(&self) -> Seq<Seq<GridElement>> {
        self.elements@.map_values(|row: Vec<GridElement>| row@)
    }

    /// The width of a cell.
    pub closed spec fn step_x(&self) -> int {
        self.step[0] as int
    }

    /// The depth of a cell.
    pub closed spec fn step_y(&self) -> int {
        self.step[1] as int
    }

    /// Cell sizes, shapes and extents that the arithmetic supports.
    pub open spec fn wf(&self) -> bool {
        valid_layout(self.rows(), self.step_x(), self.step_y())
    }

    /// The extent along `x` of the grid's first row, which the ground around
    /// the grid takes as the grid's width.
    pub open spec fn width(&self) -> int {
        if self.rows().len() == 0 {
            0
        } else {
            self.rows()[0].len() * self.step_x()
        }
    }

    /// The extent along `y` of the grid.
    pub open spec fn depth(&self) -> int {
        self.rows().len() * self.step_y()
    }

    /// A terrain of the given rows of cells, each cell `step[0]` by `step[1]`.
    pub fn new(elements: Vec<Vec<GridElement>>, step: [i64; 2]) -> (r: GridTerrain)
        ensures
            r.rows() == elements@.map_values(|row: Vec<GridElement>| row@),
            r.step_x() == step[0] as int,
            r.step_y() == step[1] as int,
    {
        GridTerrain { elements, step }
    }

    /// A terrain of the given rows of cells, each cell `step[0]` by `step[1]`,
    /// or `None` when a cell size is not positive, a shape's sizes are out of
    /// range or a row, or the grid, reaches beyond [`LIMIT`].
    pub fn checked(elements: Vec<Vec<GridElement>>, step: [i64; 2]) -> (r: Option<GridTerrain>)
        ensures
            r matches Some(t) ==> {
                &&& t.rows() == elements@.map_values(|row: Vec<GridElement>| row@)
                &&& t.step_x() == step[0] as int
                &&& t.step_y() == step[1] as int
            },
            r is Some <==> valid_layout(
                elements@.map_values(|row: Vec<GridElement>| row@),
                step[0] as int,
                step[1] as int,
            ),
            r matches Some(t) ==> t.wf(),
    {
        let ghost whole = GridTerrain { elements, step };
        if step[0] <= 0 || step[0] > LIMIT || step[1] <= 0 || step[1] > LIMIT {
            return None;
        }
        let rows = elements.len();
        if rows as u64 > LIMIT as u64 / step[1] as u64 {
            proof {
                assert(whole.depth() > LIMIT) by (nonlinear_arith)
                    requires
                        whole.depth() == rows as int * step[1] as int,
                        rows as int > (LIMIT as int) / (step[1] as int),
                        step[1] as int > 0,
                ;
            }
            return None;
        }
        proof {
            assert(whole.depth() <= LIMIT) by (nonlinear_arith)
                requires
                    whole.depth() == rows as int * step[1] as int,
                    rows as int <= (LIMIT as int) / (step[1] as int),
                    step[1] as int > 0,
            ;
        }
        let mut j: usize = 0;
        while j < rows
            invariant
                0 <= j <= rows,
                rows == elements.len(),
                whole == (GridTerrain { elements, step }),
                rows == whole.rows().len(),
                whole.rows() == elements@.map_values(|row: Vec<GridElement>| row@),
                0 < step[0] <= LIMIT,
                forall|jj: int|
                    0 <= jj < j ==> #[trigger] whole.rows()[jj].len() * whole.step_x() <= LIMIT,
                forall|jj: int, i: int|
                    0 <= jj < j && 0 <= i < whole.rows()[jj].len() ==> (
                    #[trigger] whole.rows()[jj][i]).wf(),
            decreases rows - j,
        {
            let row = &elements[j];
            proof {
                assert(whole.rows()[j as int] == row@);
            }
            if row.len() as u64 > LIMIT as u64 / step[0] as u64 {
                proof {
                    assert(row.len() as int * step[0] as int > LIMIT as int) by (nonlinear_arith)
                        requires
                            row.len() as int > (LIMIT as int) / (step[0] as int),
                            step[0] as int > 0,
                    ;
                    assert(whole.rows()[j as int].len() * whole.step_x() > LIMIT);
                }
                return None;
            }
            proof {
                assert(row.len() as int * step[0] as int <= LIMIT as int) by (nonlinear_arith)
                    requires
                        row.len() as int <= (LIMIT as int) / (step[0] as int),
                        step[0] as int > 0,
                ;
            }
            let mut i: usize = 0;
            while i < row.len()
                invariant
                    0 <= i <= row.len(),
                    0 <= j < rows,
                    rows == whole.rows().len(),
                    whole.rows() == elements@.map_values(|row: Vec<GridElement>| row@),
                    whole.rows()[j as int] == row@,
                    forall|ii: int| 0 <= ii < i ==> (#[trigger] row@[ii]).wf(),
                decreases row.len() - i,
            {
                if !row[i].is_valid() {
                    proof {
                        assert(whole.rows()[j as int][i as int] == row@[i as int]);
                    }
                    return None;
                }
                i = i + 1;
            }
            j = j + 1;
        }
        Some(GridTerrain { elements, step })
    }

    /// The contact of a world point with the terrain, or `None` when the point is
    /// above it.
    pub fn interference(&self, point: Vector) -> (r: Option<Interference>)
        requires
            self.wf(),
            within(point@, LIMIT as int),
        ensures
            contact_of(r) == terrain_contact(self.rows(), self.step_x(), self.step_y(), point@),
    {
        let ground = if point.z < 0 {
            Some(
                Interference {
                    depth: -point.z,
                    position: Position { x: point.x as i128, y: point.y as i128, z: 0 },
                    den: 1,
                    normal: Vector { x: 0, y: 0, z: 1 },
                },
            )
        } else {
            None
        };
        if point.x < 0 || point.y < 0 {
            return ground;
        }
        let step_x = self.step[0];
        let step_y = self.step[1];
        let i = point.x / step_x;
        let j = point.y / step_y;
        proof {
            vstd::arithmetic::div_mod::lemma_fundamental_div_mod(point.x as int, step_x as int);
            vstd::arithmetic::div_mod::lemma_fundamental_div_mod(point.y as int, step_y as int);
            vstd::arithmetic::div_mod::lemma_mod_pos_bound(point.x as int, step_x as int);
            vstd::arithmetic::div_mod::lemma_mod_pos_bound(point.y as int, step_y as int);
            vstd::arithmetic::div_mod::lemma_div_pos_is_pos(point.x as int, step_x as int);
            vstd::arithmetic::div_mod::lemma_div_pos_is_pos(point.y as int, step_y as int);
            vstd::arithmetic::mul::lemma_mul_is_commutative(i as int, step_x as int);
            vstd::arithmetic::mul::lemma_mul_is_commutative(j as int, step_y as int);
            assert(0 <= i * step_x <= point.x);
            assert(0 <= j * step_y <= point.y);
        }
        let offset_x = i * step_x;
        let offset_y = j * step_y;
        let local = Vector { x: point.x - offset_x, y: point.y - offset_y, z: point.z };
        let row_index = j as usize;
        let column_index = i as usize;
        if row_index < self.elements.len() {
            let row = &self.elements[row_index];
            if column_index < row.len() {
                proof {
                    assert(self.rows()[j as int] == row@);
                    assert(self.rows()[j as int][i as int] == row@[i as int]);
                }
                match row[column_index].interference(local) {
                    Some(mut found) => {
                        proof {
                            lemma_scaled_size(offset_x as int, found.den as int);
                            lemma_scaled_size(offset_y as int, found.den as int);
                        }
                        found.position.x = found.position.x + offset_x as i128 * found.den;
                        found.position.y = found.position.y + offset_y as i128 * found.den;
                        return Some(found);
                    },
                    None => {
                        return ground;
                    },
                }
            }
        }
        ground
    }

    /// Flat ground around the grid, `extended_size` wide: the eight patches of
    /// [`extension_patches`], which draw the ground that [`Self::interference`]
    /// finds outside the grid.
    pub fn extension_meshes(&self, extended_size: i64) -> (r: Vec<PlacedMesh>)
        requires
            self.wf(),
            0 <= extended_size <= LIMIT,
        ensures
            r@.map_values(|m: PlacedMesh| m@) == extension_patches(
                self.width(),
                self.depth(),
                extended_size as int,
            ),
    {
        let rows = self.elements.len();
        let width = if rows == 0 {
            0
        } else {
            proof {
                assert(self.rows()[0] == self.elements@[0]@);
                assert(self.rows()[0].len() * self.step_x() <= LIMIT);
                lemma_offset_bound(
                    self.rows()[0].len() as int,
                    self.rows()[0].len() as int,
                    self.step_x(),
                );
            }
            self.elements[0].len() as i64 * self.step[0]
        };
        proof {
            lemma_offset_bound(rows as int, rows as int, self.step_y());
        }
        let depth = rows as i64 * self.step[1];
        let e = extended_size;
        let n = -extended_size;
        let r = vec![
            patch(n, n, e, e),
            patch(0, n, width, e),
            patch(width, n, e, e),
            patch(n, 0, e, depth),
            patch(width, 0, e, depth),
            patch(n, depth, e, e),
            patch(0, depth, width, e),
            patch(width, depth, e, e),
        ];
        assert(r@.map_values(|m: PlacedMesh| m@) =~= extension_patches(
            self.width(),
            self.depth(),
            extended_size as int,
        ));
        r
    }

    /// Each cell's surface, with the world position of the cell's corner, by
    /// rows as the cells are.
    pub fn cell_meshes(&self) -> (r: Vec<Vec<PlacedMesh>>)
        requires
            self.wf(),
        ensures
            r@.len() == self.rows().len(),
            forall|j: int|
                0 <= j < r@.len() ==> (#[trigger] r@[j]).len() == self.rows()[j].len(),
            forall|j: int, i: int|
                0 <= j < r@.len() && 0 <= i < r@[j].len() ==> (#[trigger] r@[j]@[i])@ == (
                    self.rows()[j][i].mesh_view(),
                    (i * self.step_x(), j * self.step_y(), 0int),
                ),
    {
        let mut r: Vec<Vec<PlacedMesh>> = Vec::new();
        let mut j: usize = 0;
        while j < self.elements.len()
            invariant
                self.wf(),
                0 <= j <= self.elements.len(),
                r@.len() == j,
                forall|jj: int|
                    0 <= jj < j ==> (#[trigger] r@[jj]).len() == self.rows()[jj].len(),
                forall|jj: int, i: int|
                    0 <= jj < j && 0 <= i < r@[jj].len() ==> (#[trigger] r@[jj]@[i])@ == (
                        self.rows()[jj][i].mesh_view(),
                        (i * self.step_x(), jj * self.step_y(), 0int),
                    ),
            decreases self.elements.len() - j,
        {
            let row = &self.elements[j];
            proof {
                assert(self.rows()[j as int] == row@);
                lemma_offset_bound(j as int, self.rows().len() as int, self.step_y());
            }
            let offset_y = j as i64 * self.step[1];
            let mut placed: Vec<PlacedMesh> = Vec::new();
            let mut i: usize = 0;
            while i < row.len()
                invariant
                    self.wf(),
                    0 <= j < self.rows().len(),
                    self.rows()[j as int] == row@,
                    offset_y == j * self.step_y(),
                    0 <= i <= row.len(),
                    placed@.len() == i,
                    forall|ii: int|
                        0 <= ii < i ==> (#[trigger] placed@[ii])@ == (
                            self.rows()[j as int][ii].mesh_view(),
                            (ii * self.step_x(), j * self.step_y(), 0int),
                        ),
                decreases row.len() - i,
            {
                proof {
                    assert(self.rows()[j as int].len() * self.step_x() <= LIMIT);
                    lemma_offset_bound(i as int, row@.len() as int, self.step_x());
                    assert(self.rows()[j as int][i as int].wf());
                }
                let offset_x = i as i64 * self.step[0];
                let mesh = row[i].mesh();
                placed.push(PlacedMesh { mesh, offset: Vector { x: offset_x, y: offset_y, z: 0 } });
                i = i + 1;
            }
            r.push(placed);
            j = j + 1;
        }
        r
    }
}

} // verus!
