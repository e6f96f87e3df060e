use vstd::prelude::*;

use crate::mirror::Mirror;
use crate::plane::Plane;
use crate::rotate::Rotate;
use crate::step::Step;
use crate::step_slope::StepSlope;
use crate::terrain::GridElement;

verus! {

/// A step slope cell.
pub open spec fn ramp(size: i64, height: i64, mirror: Mirror, rotate: Rotate) -> GridElement {
    GridElement::StepSlope(StepSlope { size, height, rotate, mirror })
}

/// A step cell without reflection.
pub open spec fn stair(size: i64, height: i64, rotate: Rotate) -> GridElement {
    GridElement::Step(Step { size, height, rotate, mirror: Mirror::Identity })
}

/// The layout of a table top: two rows of three cells, a plateau in the
/// middle column reached by ramps on both sides.
pub open spec fn table_top_layout(size: i64, height: i64) -> Seq<Seq<GridElement>> {
    seq![
        seq![
            ramp(size, height, Mirror::Identity, Rotate::Ninety),
            stair(size, height, Rotate::Ninety),
            ramp(size, height, Mirror::YZ, Rotate::TwoSeventy),
        ],
        seq![
            ramp(size, height, Mirror::YZ, Rotate::Ninety),
            stair(size, height, Rotate::TwoSeventy),
            ramp(size, height, Mirror::Identity, Rotate::TwoSeventy),
        ],
    ]
}

/// One row of a staircase: a step up, the same step turned back down, and flat
/// ground.
pub open spec fn steps_row(size: i64, height: i64) -> Seq<GridElement> {
    seq![
        stair(size, height, Rotate::Zero),
        stair(size, height, Rotate::OneEighty),
        GridElement::Plane(Plane { size: [size, size] }),
    ]
}

/// The cells of a table top of cells of edge `size`.
pub fn table_top(size: i64, height: i64) -> (r: Vec<Vec<GridElement>>)
    ensures
        r@.map_values(|row: Vec<GridElement>| row@) == table_top_layout(size, height),
{
    let first = vec![
        GridElement::StepSlope(
            StepSlope { size, height, mirror: Mirror::Identity, rotate: Rotate::Ninety },
        ),
        GridElement::Step(
            Step { size, height, mirror: Mirror::Identity, rotate: Rotate::Ninety },
        ),
        GridElement::StepSlope(
            StepSlope { size, height, mirror: Mirror::YZ, rotate: Rotate::TwoSeventy },
        ),
    ];
    let second = vec![
        GridElement::StepSlope(
            StepSlope { size, height, mirror: Mirror::YZ, rotate: Rotate::Ninety },
        ),
        GridElement::Step(
            Step { size, height, mirror: Mirror::Identity, rotate: Rotate::TwoSeventy },
        ),
        GridElement::StepSlope(
            StepSlope { size, height, mirror: Mirror::Identity, rotate: Rotate::TwoSeventy },
        ),
    ];
    assert(first@ =~= table_top_layout(size, height)[0]);
    assert(second@ =~= table_top_layout(size, height)[1]);
    let r = vec![first, second];
    assert(r@.map_values(|row: Vec<GridElement>| row@) =~= table_top_layout(size, height));
    r
}

/// The cells of a staircase: one row of [`steps_row`] for each height.
pub fn steps(size: i64, heights: Vec<i64>) -> (r: Vec<Vec<GridElement>>)
    ensures
        r@.len() == heights@.len(),
        forall|j: int| 0 <= j < r@.len() ==> (#[trigger] r@[j])@ == steps_row(size, heights@[j]),
{
    let mut r: Vec<Vec<GridElement>> = Vec::new();
    let mut j: usize = 0;
    while j < heights.len()
        invariant
            0 <= j <= heights.len(),
            r@.len() == j,
            forall|k: int| 0 <= k < j ==> (#[trigger] r@[k])@ == steps_row(size, heights@[k]),
        decreases heights.len() - j,
    {
        let height = heights[j];
        let row = vec![
            GridElement::Step(
                Step { size, height, rotate: Rotate::Zero, mirror: Mirror::Identity },
            ),
            GridElement::Step(
                Step { size, height, rotate: Rotate::OneEighty, mirror: Mirror::Identity },
            ),
            GridElement::Plane(Plane { size: [size, size] }),
        ];
        assert(row@ =~= steps_row(size, height));
        r.push(row);
        j = j + 1;
    }
    r
}

} // verus!
