//! Shapes for demonstrations: the Sierpinski subdivision of a triangle and
//! the fan of triangles that makes a disc.

use vstd::prelude::*;

verus! {

/// A point of a subdivided triangle, named by how it is constructed from the
/// three corners: a corner, or the point halfway between two points.
#[derive(Debug)]
pub enum Point {
    Top,
    Right,
    Left,
    Mid(Box<Point>, Box<Point>),
}

/// A vertex of a disc's triangle fan: the point on the rim at the given
/// step out of the number of sides, counted from angle zero, or the centre.
#[derive(Clone, Copy, PartialEq, Eq, Debug, Structural)]
pub enum DiscPoint {
    Rim(usize),
    Centre,
}

/// The point halfway between two points.
pub open spec fn mid(a: Point, b: Point) -> Point {
    Point::Mid(Box::new(a), Box::new(b))
}

/// The vertices of the Sierpinski subdivision of the triangle `top`,
/// `right`, `left` to the given depth, three to a triangle. At depth 0 the
/// triangle stands as it is. At a greater depth the three corner triangles,
/// each cut off by the midpoints of the two sides that meet in the corner,
/// are subdivided one level less: first the one at the left corner, then the
/// one at the right, then the one at the top.
pub open spec fn subdivision(top: Point, right: Point, left: Point, depth: nat) -> Seq<Point>
    decreases depth,
{
    if depth == 0 {
        seq![top, right, left]
    } else {
        let deeper = (depth - 1) as nat;
        subdivision(mid(left, top), mid(right, left), left, deeper) + subdivision(
            mid(top, right),
            right,
            mid(right, left),
            deeper,
        ) + subdivision(top, mid(top, right), mid(left, top), deeper)
    }
}

/// The vertex of a disc's fan at place `place`: each side of the rim makes a
/// triangle of its two ends and the centre.
pub open spec fn fan_vertex(num_sides: usize, place: int) -> DiscPoint {
    if place % 3 == 0 {
        DiscPoint::Rim((place / 3) as usize)
    } else if place % 3 == 1 {
        DiscPoint::Rim(((place / 3 + 1) % (num_sides as int)) as usize)
    } else {
        DiscPoint::Centre
    }
}

/// A subdivision to depth `depth` has 3 to the power of `depth` triangles.
pub open spec fn triangle_count(depth: nat) -> nat
    decreases depth,
{
    if depth == 0 {
        1
    } else {
        3 * triangle_count((depth - 1) as nat)
    }
}

/// The subdivision has three vertices for each of its triangles, whatever
/// the triangle it starts from.
pub proof fn lemma_subdivision_len(top: Point, right: Point, left: Point, depth: nat)
    ensures
        subdivision(top, right, left, depth).len() == 3 * triangle_count(depth),
    decreases depth,
{
    if depth > 0 {
        let deeper = (depth - 1) as nat;
        lemma_subdivision_len(mid(left, top), mid(right, left), left, deeper);
        lemma_subdivision_len(mid(top, right), right, mid(right, left), deeper);
        lemma_subdivision_len(top, mid(top, right), mid(left, top), deeper);
    }
}

impl Point {
    /// A copy of the point.
    pub fn duplicate(&self) -> (copy: Point)
        ensures
            copy == *self,
        decreases *self,
    {
        match self {
            Point::Top => Point::Top,
            Point::Right => Point::Right,
            Point::Left => Point::Left,
            Point::Mid(a, b) => Point::Mid(Box::new(a.duplicate()), Box::new(b.duplicate())),
        }
    }

    /// The point halfway between this one and another.
    pub fn halfway(&self, other: &Point) -> (middle: Point)
        ensures
            middle == mid(*self, *other),
    {
        Point::Mid(Box::new(self.duplicate()), Box::new(other.duplicate()))
    }
}

/// The Sierpinski subdivision of a triangle to the given depth.
pub fn serpinski(top: &Point, right: &Point, left: &Point, depth: u32) -> (vertices: Vec<Point>)
    ensures
        vertices@ == subdivision(*top, *right, *left, depth as nat),
{
    let mut vertices: Vec<Point> = Vec::new();
    serpinski_triangle(&mut vertices, top, right, left, depth);
    vertices
}

/// Appends the subdivision of one triangle to `vertices`.
pub fn serpinski_triangle(
    vertices: &mut Vec<Point>,
    top: &Point,
    right: &Point,
    left: &Point,
    depth: u32,
)
    ensures
        final(vertices)@ == old(vertices)@ + subdivision(*top, *right, *left, depth as nat),
    decreases depth,
{
    if depth == 0 {
        vertices.push(top.duplicate());
        vertices.push(right.duplicate());
        vertices.push(left.duplicate());
        assert(vertices@ =~= old(vertices)@ + seq![*top, *right, *left]);
    } else {
        let top_right = top.halfway(right);
        let right_left = right.halfway(left);
        let left_top = left.halfway(top);
        let ghost deeper = (depth - 1) as nat;
        serpinski_triangle(vertices, &left_top, &right_left, left, depth - 1);
        serpinski_triangle(vertices, &top_right, right, &right_left, depth - 1);
        serpinski_triangle(vertices, top, &top_right, &left_top, depth - 1);
        assert(vertices@ =~= old(vertices)@ + (subdivision(left_top, right_left, *left, deeper)
            + subdivision(top_right, *right, right_left, deeper) + subdivision(
            *top,
            top_right,
            left_top,
            deeper,
        )));
    }
}

/// The vertices of a disc of `num_sides` sides as a fan of triangles, three
/// to a side: the rim point where the side starts, the rim point where it
/// ends, and the centre. A disc of no sides has no vertices.
pub fn create_circle_model(num_sides: usize) -> (vertices: Vec<DiscPoint>)
    requires
        num_sides * 3 <= usize::MAX,
    ensures
        vertices.len() == num_sides * 3,
        forall|place: int|
            0 <= place < vertices.len() ==> #[trigger] vertices[place] == fan_vertex(
                num_sides,
                place,
            ),
{
    let mut vertices: Vec<DiscPoint> = Vec::new();
    let count = num_sides * 3;
    let mut place: usize = 0;
    while place < count
        invariant
            place <= count == num_sides * 3,
            vertices.len() == place,
            forall|earlier: int|
                0 <= earlier < place ==> #[trigger] vertices[earlier] == fan_vertex(
                    num_sides,
                    earlier,
                ),
        decreases count - place,
    {
        let offset = place % 3;
        let index = place / 3;
        let vertex = if offset == 0 {
            DiscPoint::Rim(index)
        } else if offset == 1 {
            DiscPoint::Rim((index + 1) % num_sides)
        } else {
            DiscPoint::Centre
        };
        vertices.push(vertex);
        place += 1;
    }
    vertices
}

} // verus!
