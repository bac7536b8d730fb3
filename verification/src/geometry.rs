use vstd::prelude::*;

verus! {

/// A place on a grid, by its three coordinates.
pub type Point = (i32, i32, i32);

pub type Size = (i32, i32, i32);

/// One if the point is among `set`, zero if not.
pub open spec fn one_if_in(set: Seq<Point>, point: Point) -> int {
    if set.contains(point) {
        1
    } else {
        0
    }
}

/// How many of the four places next to `point` on its level are among
/// `set`: the two beside it along the first coordinate and the two
/// beside it along the third.
pub open spec fn neighbours_among(point: Point, set: Seq<Point>) -> int {
    one_if_in(set, (point.0, point.1, (point.2 + 1) as i32)) + one_if_in(
        set,
        (point.0, point.1, (point.2 - 1) as i32),
    ) + one_if_in(set, ((point.0 - 1) as i32, point.1, point.2)) + one_if_in(
        set,
        ((point.0 + 1) as i32, point.1, point.2),
    )
}

/// Whether `point` is among `set`.
fn holds(set: &Vec<Point>, point: Point) -> (r: bool)
    ensures
        r == set@.contains(point),
{
    let n = set.len();
    let mut i: usize = 0;
    while i < n
        invariant
            i <= n,
            n == set@.len(),
            forall|k: int| 0 <= k < i ==> set@[k] != point,
        decreases n - i,
    {
        let p = set[i];
        if p.0 == point.0 && p.1 == point.1 && p.2 == point.2 {
            assert(set@[i as int] == point);
            return true;
        }
        i += 1;
    }
    false
}

/// How many of the four places next to `point` on its level are among
/// `set`. The point does not lie on the rim of the grid, where a place
/// next to it could not be told.
pub fn neighbours(point: &Point, set: &Vec<Point>) -> (r: u8)
    requires
        i32::MIN < point.0 < i32::MAX,
        i32::MIN < point.2 < i32::MAX,
    ensures
        r == neighbours_among(*point, set@),
        r <= 4,
{
    let top = (point.0, point.1, point.2 + 1);
    let bottom = (point.0, point.1, point.2 - 1);
    let right = (point.0 + 1, point.1, point.2);
    let left = (point.0 - 1, point.1, point.2);

    let mut found: u8 = 0;
    if holds(set, top) {
        found += 1;
    }
    if holds(set, bottom) {
        found += 1;
    }
    if holds(set, left) {
        found += 1;
    }
    if holds(set, right) {
        found += 1;
    }
    found
}

} // verus!
