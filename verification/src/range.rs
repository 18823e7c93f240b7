//! Which part of the board a diagram shows.

use crate::board::{Goban, MoveRecord, Point, PointLabel, Stone};
use std::ops::Range;
use vstd::prelude::*;

verus! {

/// Why a diagram cannot be drawn.
#[derive(Clone, Copy, Debug, PartialEq, Eq, Structural)]
pub enum GobanSVGError {
    /// The range asked for is empty or reaches beyond the board.
    InvalidRange,
    /// Labels were asked for on a range that is too wide or too tall to label.
    UnlabellableRange,
}

/// The part of the board to show.
#[derive(Debug)]
pub enum GobanRange {
    /// The smallest rectangle round everything on the board, one line wider on each side.
    ShrinkWrap,
    /// The whole board.
    FullBoard,
    /// The given columns and rows.
    Ranged(Range<u8>, Range<u8>),
}

/// How many lines an automatic crop leaves round what is on the board.
pub const CROP_MARGIN: u8 = 1;

/// The first line of a crop round lines `lo..=hi`.
pub open spec fn crop_start(lo: int) -> int {
    if lo >= CROP_MARGIN {
        lo - CROP_MARGIN
    } else {
        0
    }
}

/// The line behind the last line of a crop round lines `lo..=hi` of a board with `size` lines.
pub open spec fn crop_end(hi: int, size: int) -> int {
    if hi + 1 + CROP_MARGIN <= size {
        hi + 1 + CROP_MARGIN
    } else {
        size
    }
}

/// Whether `x_lo..=x_hi` and `y_lo..=y_hi` are the columns and rows of the
/// smallest rectangle that holds every point of the set.
pub open spec fn is_bounding_box(points: Set<Point>, x_lo: int, x_hi: int, y_lo: int, y_hi: int) -> bool {
    &&& forall|p: Point| #[trigger]
        points.contains(p) ==> x_lo <= p.0 <= x_hi && y_lo <= p.1 <= y_hi
    &&& exists|p: Point| #[trigger] points.contains(p) && p.0 == x_lo
    &&& exists|p: Point| #[trigger] points.contains(p) && p.0 == x_hi
    &&& exists|p: Point| #[trigger] points.contains(p) && p.1 == y_lo
    &&& exists|p: Point| #[trigger] points.contains(p) && p.1 == y_hi
}

/// The columns and rows of the smallest rectangle that holds every point
/// of the set, as `(first column, last column, first row, last row)`.
pub open spec fn bounding_box(points: Set<Point>) -> (int, int, int, int) {
    choose|b: (int, int, int, int)| is_bounding_box(points, b.0, b.1, b.2, b.3)
}

/// A set of points has at most one bounding box.
pub proof fn lemma_bounding_box_is_unique(
    points: Set<Point>,
    a: (int, int, int, int),
    b: (int, int, int, int),
)
    requires
        is_bounding_box(points, a.0, a.1, a.2, a.3),
        is_bounding_box(points, b.0, b.1, b.2, b.3),
    ensures
        a == b,
{
}

/// The whole board.
pub open spec fn full_board(goban: Goban) -> (Range<u8>, Range<u8>) {
    (Range { start: 0u8, end: goban.size.0 }, Range { start: 0u8, end: goban.size.1 })
}

/// The bounding box of the occupied points with the margin, cut off at the board's edge.
pub open spec fn cropped_board(goban: Goban) -> (Range<u8>, Range<u8>) {
    let b = bounding_box(goban.occupied_points());
    (
        Range { start: crop_start(b.0) as u8, end: crop_end(b.1, goban.size.0 as int) as u8 },
        Range { start: crop_start(b.2) as u8, end: crop_end(b.3, goban.size.1 as int) as u8 },
    )
}

/// Whether the two ranges are not empty and lie on the board.
pub open spec fn fits(goban: Goban, columns: Range<u8>, rows: Range<u8>) -> bool {
    &&& columns.start < columns.end <= goban.size.0
    &&& rows.start < rows.end <= goban.size.1
}

fn extend_points(out: &mut Vec<Point>, more: &Vec<Point>)
    ensures
        final(out)@ == old(out)@ + more@,
{
    let n: usize = more.len();
    let mut i: usize = 0;
    assert(more@.subrange(0, 0) == Seq::<Point>::empty());
    while i < n
        invariant
            n == more@.len(),
            i <= n,
            out@ == old(out)@ + more@.subrange(0, i as int),
        decreases n - i,
    {
        out.push(more[i]);
        assert(more@.subrange(0, i + 1) == more@.subrange(0, i as int).push(more@[i as int]));
        i += 1;
    }
    assert(more@.subrange(0, n as int) == more@);
}

impl Goban {
    /// Every point that a collection of the board names.
    pub fn all_named_points(&self) -> (points: Vec<Point>)
        ensures
            points@ == self.named_points(),
    {
        let mut points: Vec<Point> = Vec::new();
        let mut i: usize = 0;
        while i < self.stones.len()
            invariant
                i <= self.stones@.len(),
                points@ == crate::board::stone_points(self.stones@.subrange(0, i as int)),
            decreases self.stones@.len() - i,
        {
            let stone: Stone = self.stones[i];
            points.push((stone.x, stone.y));
            assert(self.stones@.subrange(0, i + 1) == self.stones@.subrange(0, i as int).push(
                self.stones@[i as int],
            ));
            i += 1;
        }
        assert(self.stones@.subrange(0, i as int) == self.stones@);
        let ghost stones = points@;
        let mut i: usize = 0;
        while i < self.move_numbers.len()
            invariant
                i <= self.move_numbers@.len(),
                points@ == stones + crate::board::record_points(
                    self.move_numbers@.subrange(0, i as int),
                ),
            decreases self.move_numbers@.len() - i,
        {
            let record: &MoveRecord = &self.move_numbers[i];
            points.push((record.x, record.y));
            assert(self.move_numbers@.subrange(0, i + 1) == self.move_numbers@.subrange(
                0,
                i as int,
            ).push(self.move_numbers@[i as int]));
            i += 1;
        }
        assert(self.move_numbers@.subrange(0, i as int) == self.move_numbers@);
        extend_points(&mut points, &self.marks);
        extend_points(&mut points, &self.triangles);
        extend_points(&mut points, &self.circles);
        extend_points(&mut points, &self.squares);
        extend_points(&mut points, &self.selected);
        extend_points(&mut points, &self.dimmed);
        let ghost sets = points@;
        let mut i: usize = 0;
        while i < self.labels.len()
            invariant
                i <= self.labels@.len(),
                points@ == sets + crate::board::label_points(self.labels@.subrange(0, i as int)),
            decreases self.labels@.len() - i,
        {
            let label: &PointLabel = &self.labels[i];
            points.push((label.x, label.y));
            assert(self.labels@.subrange(0, i + 1) == self.labels@.subrange(0, i as int).push(
                self.labels@[i as int],
            ));
            i += 1;
        }
        assert(self.labels@.subrange(0, i as int) == self.labels@);
        let ghost labelled = points@;
        let mut i: usize = 0;
        assert(self.lines@.subrange(0, 0) == Seq::<(Point, Point)>::empty());
        while i < self.lines.len()
            invariant
                i <= self.lines@.len(),
                points@ == labelled + crate::board::pair_points(
                    self.lines@.subrange(0, i as int),
                ),
            decreases self.lines@.len() - i,
        {
            let pair: (Point, Point) = self.lines[i];
            points.push(pair.0);
            points.push(pair.1);
            assert(self.lines@.subrange(0, i + 1).drop_last() == self.lines@.subrange(
                0,
                i as int,
            ));
            i += 1;
        }
        assert(self.lines@.subrange(0, i as int) == self.lines@);
        let ghost lined = points@;
        let mut i: usize = 0;
        assert(self.arrows@.subrange(0, 0) == Seq::<(Point, Point)>::empty());
        while i < self.arrows.len()
            invariant
                i <= self.arrows@.len(),
                points@ == lined + crate::board::pair_points(self.arrows@.subrange(0, i as int)),
            decreases self.arrows@.len() - i,
        {
            let pair: (Point, Point) = self.arrows[i];
            points.push(pair.0);
            points.push(pair.1);
            assert(self.arrows@.subrange(0, i + 1).drop_last() == self.arrows@.subrange(
                0,
                i as int,
            ));
            i += 1;
        }
        assert(self.arrows@.subrange(0, i as int) == self.arrows@);
        points
    }
}

impl GobanRange {
    /// The columns and the rows that the range stands for on a board.
    pub open spec fn resolve(self, goban: Goban) -> Result<(Range<u8>, Range<u8>), GobanSVGError> {
        match self {
            GobanRange::FullBoard => if goban.size.0 >= 1 && goban.size.1 >= 1 {
                Ok(full_board(goban))
            } else {
                Err(GobanSVGError::InvalidRange)
            },
            GobanRange::Ranged(columns, rows) => if fits(goban, columns, rows) {
                Ok((columns, rows))
            } else {
                Err(GobanSVGError::InvalidRange)
            },
            GobanRange::ShrinkWrap => if goban.size.0 == 0 || goban.size.1 == 0 {
                Err(GobanSVGError::InvalidRange)
            } else if exists|p: Point| #[trigger] goban.occupied(p) {
                Ok(cropped_board(goban))
            } else {
                Ok(full_board(goban))
            },
        }
    }

    /// The columns and the rows to show, each as a half-open range.
    ///
    /// The whole board is shown as it is; given ranges are checked against
    /// the board and returned unchanged; an automatic crop is the bounding
    /// box of the occupied points with a margin of [`CROP_MARGIN`], cut off
    /// at the board's edge, or the whole board if no point is occupied. An
    /// empty range, or one that reaches beyond the board, is refused.
    pub fn get_ranges(&self, goban: &Goban) -> (result: Result<
        (Range<u8>, Range<u8>),
        GobanSVGError,
    >)
        ensures
            result == self.resolve(*goban),
            result matches Ok(r) ==> fits(*goban, r.0, r.1),
            self is ShrinkWrap ==> (result matches Ok(r) ==> forall|p: Point| #[trigger]
                goban.occupied(p) ==> r.0.start <= p.0 < r.0.end && r.1.start <= p.1 < r.1.end),
    {
        let width: u8 = goban.size.0;
        let height: u8 = goban.size.1;
        match self {
            GobanRange::FullBoard => {
                if width >= 1 && height >= 1 {
                    Ok((0..width, 0..height))
                } else {
                    Err(GobanSVGError::InvalidRange)
                }
            },
            GobanRange::Ranged(columns, rows) => {
                if columns.start < columns.end && columns.end <= width && rows.start < rows.end
                    && rows.end <= height {
                    Ok((columns.start..columns.end, rows.start..rows.end))
                } else {
                    Err(GobanSVGError::InvalidRange)
                }
            },
            GobanRange::ShrinkWrap => {
                if width == 0 || height == 0 {
                    return Err(GobanSVGError::InvalidRange);
                }
                let points = goban.all_named_points();
                let n: usize = points.len();
                let mut found: bool = false;
                let mut x_lo: u8 = 0;
                let mut x_hi: u8 = 0;
                let mut y_lo: u8 = 0;
                let mut y_hi: u8 = 0;
                let mut i: usize = 0;
                while i < n
                    invariant
                        n == points@.len(),
                        i <= n,
                        width == goban.size.0,
                        height == goban.size.1,
                        found ==> x_lo <= x_hi < width && y_lo <= y_hi < height,
                        forall|k: int|
                            0 <= k < i && goban.on_board(#[trigger] points@[k]) ==> found && x_lo
                                <= points@[k].0 <= x_hi && y_lo <= points@[k].1 <= y_hi,
                        found ==> exists|k: int|
                            0 <= k < i && goban.on_board(#[trigger] points@[k]) && points@[k].0
                                == x_lo,
                        found ==> exists|k: int|
                            0 <= k < i && goban.on_board(#[trigger] points@[k]) && points@[k].0
                                == x_hi,
                        found ==> exists|k: int|
                            0 <= k < i && goban.on_board(#[trigger] points@[k]) && points@[k].1
                                == y_lo,
                        found ==> exists|k: int|
                            0 <= k < i && goban.on_board(#[trigger] points@[k]) && points@[k].1
                                == y_hi,
                    decreases n - i,
                {
                    let p: Point = points[i];
                    if p.0 < width && p.1 < height {
                        if !found {
                            found = true;
                            x_lo = p.0;
                            x_hi = p.0;
                            y_lo = p.1;
                            y_hi = p.1;
                        } else {
                            if p.0 < x_lo {
                                x_lo = p.0;
                            }
                            if p.0 > x_hi {
                                x_hi = p.0;
                            }
                            if p.1 < y_lo {
                                y_lo = p.1;
                            }
                            if p.1 > y_hi {
                                y_hi = p.1;
                            }
                        }
                    }
                    i += 1;
                }
                proof {
                    assert forall|p: Point| #[trigger] goban.occupied(p) implies found && x_lo
                        <= p.0 <= x_hi && y_lo <= p.1 <= y_hi by {
                        let k = choose|k: int| 0 <= k < points@.len() && points@[k] == p;
                        assert(goban.on_board(points@[k]));
                    }
                }
                if !found {
                    return Ok((0..width, 0..height));
                }
                proof {
                    let kx = choose|k: int|
                        0 <= k < n && goban.on_board(#[trigger] points@[k]) && points@[k].0 == x_lo;
                    assert(goban.occupied(points@[kx]));
                    let kX = choose|k: int|
                        0 <= k < n && goban.on_board(#[trigger] points@[k]) && points@[k].0 == x_hi;
                    assert(goban.occupied(points@[kX]));
                    let ky = choose|k: int|
                        0 <= k < n && goban.on_board(#[trigger] points@[k]) && points@[k].1 == y_lo;
                    assert(goban.occupied(points@[ky]));
                    let kY = choose|k: int|
                        0 <= k < n && goban.on_board(#[trigger] points@[k]) && points@[k].1 == y_hi;
                    assert(goban.occupied(points@[kY]));
                    let occupied = goban.occupied_points();
                    assert(occupied.contains(points@[kx]));
                    assert(occupied.contains(points@[kX]));
                    assert(occupied.contains(points@[ky]));
                    assert(occupied.contains(points@[kY]));
                    let found_box = (x_lo as int, x_hi as int, y_lo as int, y_hi as int);
                    assert(is_bounding_box(
                        occupied,
                        found_box.0,
                        found_box.1,
                        found_box.2,
                        found_box.3,
                    ));
                    lemma_bounding_box_is_unique(occupied, bounding_box(occupied), found_box);
                }
                let x_start: u8 = if x_lo >= CROP_MARGIN {
                    x_lo - CROP_MARGIN
                } else {
                    0
                };
                let y_start: u8 = if y_lo >= CROP_MARGIN {
                    y_lo - CROP_MARGIN
                } else {
                    0
                };
                let x_end: u8 = if x_hi as u16 + 1 + CROP_MARGIN as u16 <= width as u16 {
                    x_hi + 1 + CROP_MARGIN
                } else {
                    width
                };
                let y_end: u8 = if y_hi as u16 + 1 + CROP_MARGIN as u16 <= height as u16 {
                    y_hi + 1 + CROP_MARGIN
                } else {
                    height
                };
                Ok((x_start..x_end, y_start..y_end))
            },
        }
    }
}

} // verus!
