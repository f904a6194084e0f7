//! Coordinates of a cell in a row-major square grid.

use vstd::prelude::*;

verus! {

/// A cell of a grid: `x` is the column, `y` the row.
#[derive(Debug, Clone, Copy, PartialEq, Eq, Structural)]
pub struct Point {
    pub x: usize,
    pub y: usize,
}

impl Point {
    /// The point that the row-major index `idx` names in a grid of `n_rows` columns.
    pub open spec fn point_of(idx: usize, n_rows: usize) -> Point {
        Point { x: (idx % n_rows) as usize, y: (idx / n_rows) as usize }
    }

    /// The row-major index of this point in a grid of `n_rows` columns.
    pub open spec fn index_in(self, n_rows: int) -> int {
        self.y * n_rows + self.x
    }

    /// Sum of the squared differences of the coordinates.
    pub open spec fn sq_distance(self, other: Point) -> int {
        let dx = self.x - other.x;
        let dy = self.y - other.y;
        dx * dx + dy * dy
    }

    /// The point with row-major index `idx` in a grid of `n_rows` columns.
    pub fn new(idx: usize, n_rows: usize) -> (p: Point)
        requires
            n_rows > 0,
        ensures
            p == Point::point_of(idx, n_rows),
    {
        Point { x: idx % n_rows, y: idx / n_rows }
    }

    /// The squared Euclidean distance `dx² + dy²` to `other`: no square root
    /// is taken. The differences are taken as absolute values, so the order
    /// of the two points does not matter.
    pub fn euclidean_distance(&self, other: &Point) -> (r: usize)
        requires
            self.sq_distance(*other) <= usize::MAX,
        ensures
            r == self.sq_distance(*other),
    {
        let dx: usize = if self.x >= other.x { self.x - other.x } else { other.x - self.x };
        let dy: usize = if self.y >= other.y { self.y - other.y } else { other.y - self.y };
        proof {
            lemma_abs_square(dx as int, self.x as int, other.x as int);
            lemma_abs_square(dy as int, self.y as int, other.y as int);
        }
        dx * dx + dy * dy
    }
}

/// The square of an absolute difference is the square of the difference.
proof fn lemma_abs_square(d: int, a: int, b: int)
    requires
        d == a - b || d == b - a,
    ensures
        d * d == (a - b) * (a - b),
        d * d >= 0,
{
    assert(d * d == (a - b) * (a - b) && d * d >= 0) by (nonlinear_arith)
        requires
            d == a - b || d == b - a,
    ;
}

/// A row-major index names a point from which the same index is recovered;
/// an index below `n_rows * n_rows` names a point inside the square grid.
pub proof fn lemma_index_round_trip(idx: usize, n_rows: usize)
    requires
        n_rows > 0,
    ensures
        Point::point_of(idx, n_rows).index_in(n_rows as int) == idx,
        Point::point_of(idx, n_rows).x < n_rows,
        idx < n_rows * n_rows ==> Point::point_of(idx, n_rows).y < n_rows,
{
    let p = Point::point_of(idx, n_rows);
    vstd::arithmetic::div_mod::lemma_fundamental_div_mod(idx as int, n_rows as int);
    vstd::arithmetic::div_mod::lemma_mod_bound(idx as int, n_rows as int);
    assert(p.x == idx % n_rows && p.y == idx / n_rows);
    assert(p.y * n_rows == n_rows * (idx / n_rows)) by (nonlinear_arith)
        requires
            p.y == idx / n_rows,
    ;
    if idx < n_rows * n_rows {
        let (x, y): (int, int) = (p.x as int, p.y as int);
        assert(y < n_rows) by (nonlinear_arith)
            requires
                y * n_rows + x == idx,
                idx < n_rows * n_rows,
                x >= 0,
                n_rows > 0,
        ;
    }
}

/// The distance between two points does not depend on their order.
pub proof fn lemma_distance_symmetric(a: Point, b: Point)
    ensures
        a.sq_distance(b) == b.sq_distance(a),
{
    lemma_abs_square(a.x - b.x, b.x as int, a.x as int);
    lemma_abs_square(a.y - b.y, b.y as int, a.y as int);
}

/// A point is at distance zero from itself.
pub proof fn lemma_distance_to_self(p: Point)
    ensures
        p.sq_distance(p) == 0,
{
}

} // verus!
