use vstd::prelude::*;

use crate::mirror::Mirror;
use crate::rotate::{Rotate, RotationDirection};

verus! {

/// Largest magnitude accepted for a coordinate, a cell size or a height.
pub const LIMIT: i64 = 268435456;

/// A point or a direction with integer coordinates.
#[derive(Clone, Copy, Debug, PartialEq, Eq, Structural)]
pub struct Vector {
    pub x: i64,
    pub y: i64,
    pub z: i64,
}

impl View for Vector {
    type V = (int, int, int);

    open spec fn view(&self) -> (int, int, int) {
        (self.x as int, self.y as int, self.z as int)
    }
}

/// Every coordinate of `v` lies in `[-b, b]`.
pub open spec fn within(v: (int, int, int), b: int) -> bool {
    -b <= v.0 <= b && -b <= v.1 <= b && -b <= v.2 <= b
}

/// `v` lies over the square `[0, size] x [0, size]`, at a height within bounds.
pub open spec fn over_square(v: (int, int, int), size: int) -> bool {
    0 <= v.0 <= size && 0 <= v.1 <= size && -4 * LIMIT <= v.2 <= 4 * LIMIT
}

/// Reflection of `p` across the mirror plane of a cell of edge `size`.
/// With `size == 0` this is the reflection of a direction.
pub open spec fn mirrored(p: (int, int, int), size: int, m: Mirror) -> (int, int, int) {
    match m {
        Mirror::Identity => p,
        Mirror::XZ => (p.0, size - p.1, p.2),
        Mirror::YZ => (size - p.0, p.1, p.2),
    }
}

/// A quarter turn of a cell of edge `size`: `(x, y)` goes to `(size - y, x)`.
pub open spec fn quarter_turn(p: (int, int, int), size: int) -> (int, int, int) {
    (size - p.1, p.0, p.2)
}

/// The inverse of [`quarter_turn`]: `(x, y)` goes to `(y, size - x)`.
pub open spec fn quarter_turn_back(p: (int, int, int), size: int) -> (int, int, int) {
    (p.1, size - p.0, p.2)
}

/// A half turn of a cell of edge `size`.
pub open spec fn half_turn(p: (int, int, int), size: int) -> (int, int, int) {
    (size - p.0, size - p.1, p.2)
}

/// Rotation of `p` by `r` inside a cell of edge `size`; `Forward` turns the
/// shape's own frame out to the cell's frame, `Reverse` turns it back.
/// With `size == 0` this is the rotation of a direction.
pub open spec fn rotated(
    p: (int, int, int),
    size: int,
    r: Rotate,
    d: RotationDirection,
) -> (int, int, int) {
    match (r, d) {
        (Rotate::Zero, _) => p,
        (Rotate::Ninety, RotationDirection::Forward) => quarter_turn(p, size),
        (Rotate::TwoSeventy, RotationDirection::Reverse) => quarter_turn(p, size),
        (Rotate::OneEighty, _) => half_turn(p, size),
        (Rotate::TwoSeventy, RotationDirection::Forward) => quarter_turn_back(p, size),
        (Rotate::Ninety, RotationDirection::Reverse) => quarter_turn_back(p, size),
    }
}


/// Largest denominator that a contact may carry.
pub const DEN_LIMIT: i128 = 1152921504606846976;

/// Largest magnitude of a numerator of a contact's position.
pub const WIDE_LIMIT: i128 = 1267650600228229401496703205376;

/// A point whose coordinates are numerators over a common denominator.
#[derive(Clone, Copy, Debug, PartialEq, Eq, Structural)]
pub struct Position {
    pub x: i128,
    pub y: i128,
    pub z: i128,
}

impl View for Position {
    type V = (int, int, int);

    open spec fn view(&self) -> (int, int, int) {
        (self.x as int, self.y as int, self.z as int)
    }
}

/// A contact between a query point and the terrain, in exact form.
///
/// With `|normal|` the Euclidean length of `normal`:
/// - the penetration depth is `depth / |normal|`;
/// - the contact point is `position / den`, coordinate by coordinate;
/// - the outward unit normal is `normal / |normal|`.
///
/// A face along an axis has a unit `normal` and `den == 1`, so that `depth` and
/// `position` are the depth and the point themselves.
#[derive(Clone, Copy, Debug, PartialEq, Eq, Structural)]
pub struct Interference {
    pub depth: i64,
    pub position: Position,
    pub den: i128,
    pub normal: Vector,
}

/// The mathematical value of an [`Interference`].
pub struct Contact {
    pub depth: int,
    pub position: (int, int, int),
    pub den: int,
    pub normal: (int, int, int),
}

impl View for Interference {
    type V = Contact;

    open spec fn view(&self) -> Contact {
        Contact {
            depth: self.depth as int,
            position: self.position@,
            den: self.den as int,
            normal: self.normal@,
        }
    }
}

/// The contact at `(x, y, 0)` with the flat ground below a point at height `z`.
pub open spec fn ground_contact(p: (int, int, int)) -> Contact {
    Contact { depth: -p.2, position: (p.0, p.1, 0), den: 1, normal: (0, 0, 1) }
}

/// A contact with a face along an axis: unit normal, whole coordinates.
pub open spec fn face_contact(
    depth: int,
    position: (int, int, int),
    normal: (int, int, int),
) -> Contact {
    Contact { depth, position, den: 1, normal }
}

/// A contact reflected by `m` inside a cell of edge `size`.
pub open spec fn contact_mirrored(c: Contact, size: int, m: Mirror) -> Contact {
    Contact {
        depth: c.depth,
        position: mirrored(c.position, size * c.den, m),
        den: c.den,
        normal: mirrored(c.normal, 0, m),
    }
}

/// A contact rotated by `r` inside a cell of edge `size`.
pub open spec fn contact_rotated(
    c: Contact,
    size: int,
    r: Rotate,
    d: RotationDirection,
) -> Contact {
    Contact {
        depth: c.depth,
        position: rotated(c.position, size * c.den, r, d),
        den: c.den,
        normal: rotated(c.normal, 0, r, d),
    }
}

/// A contact found in a shape's own frame, carried out to its cell's frame:
/// the reflection first, then the rotation.
pub open spec fn contact_to_cell(c: Contact, size: int, m: Mirror, r: Rotate) -> Contact {
    contact_rotated(contact_mirrored(c, size, m), size, r, RotationDirection::Forward)
}

/// A query point of a cell carried into a shape's own frame: the rotation is
/// undone first, then the reflection.
pub open spec fn point_to_shape(p: (int, int, int), size: int, m: Mirror, r: Rotate) -> (
    int,
    int,
    int,
) {
    mirrored(rotated(p, size, r, RotationDirection::Reverse), size, m)
}

/// A point of a shape's own frame carried out to its cell's frame.
pub open spec fn point_to_cell(p: (int, int, int), size: int, m: Mirror, r: Rotate) -> (
    int,
    int,
    int,
) {
    rotated(mirrored(p, size, m), size, r, RotationDirection::Forward)
}

/// A contact whose numbers fit the bounds under which it can be transformed.
pub open spec fn contact_bounded(c: Contact) -> bool {
    &&& 0 < c.den <= DEN_LIMIT
    &&& within(c.position, WIDE_LIMIT as int)
    &&& within(c.normal, LIMIT as int)
}

pub proof fn lemma_scaled_size(size: int, den: int)
    requires
        0 <= size <= LIMIT,
        0 < den <= DEN_LIMIT,
    ensures
        0 <= size * den <= 309485009821345068724781056,
{
    assert(0 <= size * den <= 309485009821345068724781056) by (nonlinear_arith)
        requires
            0 <= size <= 268435456,
            0 < den <= 1152921504606846976,
    ;
}

/// A bound on a product from bounds on its factors.
pub proof fn lemma_mul_within(a: int, b: int, ba: int, bb: int)
    requires
        -ba <= a <= ba,
        -bb <= b <= bb,
    ensures
        -(ba * bb) <= a * b <= ba * bb,
{
    assert(-(ba * bb) <= a * b <= ba * bb) by (nonlinear_arith)
        requires
            -ba <= a <= ba,
            -bb <= b <= bb,
    ;
}

/// Bounds on the numbers of a contact with an inclined face whose normal is
/// `(0, height, size)` or `(0, -height, size)`, `d` being its scaled depth.
pub proof fn lemma_incline_bounds(size: int, height: int, x: int, y: int, z: int, d: int)
    requires
        1 <= size <= LIMIT,
        0 <= height <= LIMIT,
        -4 * LIMIT <= x <= 4 * LIMIT,
        -4 * LIMIT <= y <= 4 * LIMIT,
        -4 * LIMIT <= z <= 4 * LIMIT,
        0 <= d <= 432345564227567616,
    ensures
        1 <= height * height + size * size <= 144115188075855872,
        -1237940039285380274899124224 <= (height * height + size * size) * x
            <= 1237940039285380274899124224,
        -1237940039285380274899124224 <= (height * height + size * size) * y
            <= 1237940039285380274899124224,
        -1237940039285380274899124224 <= (height * height + size * size) * z
            <= 1237940039285380274899124224,
        -1237940039285380274899124224 <= d * height <= 1237940039285380274899124224,
        -1237940039285380274899124224 <= d * size <= 1237940039285380274899124224,
{
    let n2 = height * height + size * size;
    assert(1 <= n2 <= 144115188075855872) by (nonlinear_arith)
        requires
            1 <= size <= 268435456,
            0 <= height <= 268435456,
            n2 == height * height + size * size,
    ;
    assert(-1237940039285380274899124224 <= n2 * x <= 1237940039285380274899124224
        && -1237940039285380274899124224 <= n2 * y <= 1237940039285380274899124224
        && -1237940039285380274899124224 <= n2 * z <= 1237940039285380274899124224
        && -1237940039285380274899124224 <= d * height <= 1237940039285380274899124224
        && -1237940039285380274899124224 <= d * size <= 1237940039285380274899124224)
        by (nonlinear_arith)
        requires
            1 <= n2 <= 144115188075855872,
            -1073741824 <= x <= 1073741824,
            -1073741824 <= y <= 1073741824,
            -1073741824 <= z <= 1073741824,
            0 <= d <= 432345564227567616,
            1 <= size <= 268435456,
            0 <= height <= 268435456,
    ;
}

impl Interference {
    /// Reflects the contact by `mirror` inside a cell of edge `size`.
    pub fn mirror(&mut self, size: i64, mirror: &Mirror)
        requires
            0 <= size <= LIMIT,
            contact_bounded(old(self)@),
        ensures
            final(self)@ == contact_mirrored(old(self)@, size as int, *mirror),
    {
        proof {
            lemma_scaled_size(size as int, self.den as int);
        }
        let scaled = size as i128 * self.den;
        match mirror {
            Mirror::Identity => {},
            Mirror::XZ => {
                self.position.y = scaled - self.position.y;
                self.normal.y = -self.normal.y;
            },
            Mirror::YZ => {
                self.position.x = scaled - self.position.x;
                self.normal.x = -self.normal.x;
            },
        }
    }

    /// Rotates the contact by `rotate` inside a cell of edge `size`.
    pub fn rotate(&mut self, size: i64, rotate: &Rotate, direction: RotationDirection)
        requires
            0 <= size <= LIMIT,
            contact_bounded(old(self)@),
        ensures
            final(self)@ == contact_rotated(old(self)@, size as int, *rotate, direction),
    {
        proof {
            lemma_scaled_size(size as int, self.den as int);
        }
        let scaled = size as i128 * self.den;
        let x = self.position.x;
        let y = self.position.y;
        let nx = self.normal.x;
        let ny = self.normal.y;
        match (rotate, direction) {
            (Rotate::Zero, _) => {},
            (Rotate::Ninety, RotationDirection::Forward)
            | (Rotate::TwoSeventy, RotationDirection::Reverse) => {
                self.position.x = scaled - y;
                self.position.y = x;
                self.normal.x = -ny;
                self.normal.y = nx;
            },
            (Rotate::OneEighty, _) => {
                self.position.x = scaled - x;
                self.position.y = scaled - y;
                self.normal.x = -nx;
                self.normal.y = -ny;
            },
            (Rotate::TwoSeventy, RotationDirection::Forward)
            | (Rotate::Ninety, RotationDirection::Reverse) => {
                self.position.x = y;
                self.position.y = scaled - x;
                self.normal.x = ny;
                self.normal.y = -nx;
            },
        }
    }
}

/// The contact held by an optional [`Interference`].
pub open spec fn contact_of(r: Option<Interference>) -> Option<Contact> {
    match r {
        Some(i) => Some(i@),
        None => None,
    }
}

/// Carries an optional shape-frame contact out to the cell's frame.
pub open spec fn option_to_cell(c: Option<Contact>, size: int, m: Mirror, r: Rotate) -> Option<
    Contact,
> {
    match c {
        Some(c) => Some(contact_to_cell(c, size, m, r)),
        None => None,
    }
}

/// Carries a contact found in a shape's own frame out to its cell's frame.
pub fn to_cell_frame(
    interference: Option<Interference>,
    size: i64,
    mirror: &Mirror,
    rotate: &Rotate,
) -> (r: Option<Interference>)
    requires
        0 <= size <= LIMIT,
        interference matches Some(i) ==> {
            &&& 0 < i.den <= DEN_LIMIT
            &&& within(i.position@, WIDE_LIMIT / 2)
            &&& within(i.normal@, LIMIT as int)
        },
    ensures
        contact_of(r) == option_to_cell(contact_of(interference), size as int, *mirror, *rotate),
        r matches Some(i) ==> contact_bounded(i@),
{
    match interference {
        Some(mut i) => {
            proof {
                lemma_scaled_size(size as int, i.den as int);
            }
            i.mirror(size, mirror);
            i.rotate(size, rotate, RotationDirection::Forward);
            Some(i)
        },
        None => None,
    }
}

/// Applying the same rotation four times, in either direction, gives back the
/// point exactly.
pub proof fn lemma_rotate_four_times(
    p: (int, int, int),
    size: int,
    r: Rotate,
    d: RotationDirection,
)
    ensures
        rotated(rotated(rotated(rotated(p, size, r, d), size, r, d), size, r, d), size, r, d)
            == p,
{
}

/// Applying the same reflection twice gives back the point exactly.
pub proof fn lemma_mirror_twice(p: (int, int, int), size: int, m: Mirror)
    ensures
        mirrored(mirrored(p, size, m), size, m) == p,
{
}

/// A rotation applied in one direction is undone by the same rotation in the
/// other direction.
pub proof fn lemma_rotate_round_trip(p: (int, int, int), size: int, r: Rotate)
    ensures
        rotated(rotated(p, size, r, RotationDirection::Forward), size, r, RotationDirection::Reverse)
            == p,
        rotated(rotated(p, size, r, RotationDirection::Reverse), size, r, RotationDirection::Forward)
            == p,
{
}

/// Carrying a query point into a shape's frame and back out gives the point back.
pub proof fn lemma_point_round_trip(p: (int, int, int), size: int, m: Mirror, r: Rotate)
    ensures
        point_to_cell(point_to_shape(p, size, m, r), size, m, r) == p,
        point_to_shape(point_to_cell(p, size, m, r), size, m, r) == p,
{
}

/// A contact transformed four times by the same rotation, or twice by the same
/// reflection, is the contact it was.
pub proof fn lemma_contact_involutions(c: Contact, size: int, m: Mirror, r: Rotate, d: RotationDirection)
    ensures
        contact_mirrored(contact_mirrored(c, size, m), size, m) == c,
        contact_rotated(
            contact_rotated(contact_rotated(contact_rotated(c, size, r, d), size, r, d), size, r, d),
            size,
            r,
            d,
        ) == c,
{
}

} // verus!
