//! The board state that a diagram is drawn from.

use vstd::prelude::*;

verus! {

/// A point of the board: column and row, both counted from zero.
pub type Point = (u8, u8);

/// The colour of a stone.
#[derive(Clone, Copy, Debug, PartialEq, Eq, Structural)]
pub enum StoneColor {
    Black,
    White,
}

/// A stone on a point.
#[derive(Clone, Copy, Debug, PartialEq, Eq, Structural)]
pub struct Stone {
    pub x: u8,
    pub y: u8,
    pub color: StoneColor,
}

/// A text label on a point.
#[derive(Debug)]
pub struct PointLabel {
    pub x: u8,
    pub y: u8,
    pub text: String,
}

/// The numbers of the moves that were played on a point, in the order played.
#[derive(Debug)]
pub struct MoveRecord {
    pub x: u8,
    pub y: u8,
    pub numbers: Vec<u64>,
}

/// The kinds of markup that sit on single points.
#[derive(Clone, Copy, Debug, PartialEq, Eq, Structural)]
pub enum Marker {
    Mark,
    Triangle,
    Circle,
    Square,
    Selected,
    Dimmed,
}

/// A board position with its markup.
///
/// `stones`, `labels` and `move_numbers` are mappings by point, the other
/// collections are sets; [`Goban::wf`] says so.
#[derive(Debug)]
pub struct Goban {
    /// Number of columns and of rows.
    pub size: (u8, u8),
    pub stones: Vec<Stone>,
    pub move_numbers: Vec<MoveRecord>,
    pub marks: Vec<Point>,
    pub triangles: Vec<Point>,
    pub circles: Vec<Point>,
    pub squares: Vec<Point>,
    pub selected: Vec<Point>,
    pub dimmed: Vec<Point>,
    pub labels: Vec<PointLabel>,
    pub lines: Vec<(Point, Point)>,
    pub arrows: Vec<(Point, Point)>,
}

/// The points of a sequence of stones.
pub open spec fn stone_points(stones: Seq<Stone>) -> Seq<Point> {
    stones.map_values(|s: Stone| (s.x, s.y))
}

/// The points of a sequence of labels.
pub open spec fn label_points(labels: Seq<PointLabel>) -> Seq<Point> {
    labels.map_values(|l: PointLabel| (l.x, l.y))
}

/// The points of a sequence of move records.
pub open spec fn record_points(records: Seq<MoveRecord>) -> Seq<Point> {
    records.map_values(|r: MoveRecord| (r.x, r.y))
}

/// Both ends of every pair, the first end before the second.
pub open spec fn pair_points(pairs: Seq<(Point, Point)>) -> Seq<Point>
    decreases pairs.len(),
{
    if pairs.len() == 0 {
        Seq::empty()
    } else {
        pair_points(pairs.drop_last()).push(pairs.last().0).push(pairs.last().1)
    }
}

/// The colour of the first stone of the sequence that lies on the point.
pub open spec fn stone_at(stones: Seq<Stone>, p: Point) -> Option<StoneColor>
    decreases stones.len(),
{
    if stones.len() == 0 {
        None
    } else if stones[0].x == p.0 && stones[0].y == p.1 {
        Some(stones[0].color)
    } else {
        stone_at(stones.drop_first(), p)
    }
}

/// What a sequence of labels says: each point with its text.
pub open spec fn label_entries(labels: Seq<PointLabel>) -> Seq<(Point, Seq<char>)> {
    labels.map_values(|l: PointLabel| ((l.x, l.y), l.text@))
}

/// What a sequence of move records says: each point with its history.
pub open spec fn record_entries(records: Seq<MoveRecord>) -> Seq<(Point, Seq<u64>)> {
    records.map_values(|r: MoveRecord| ((r.x, r.y), r.numbers@))
}

/// The text of the first entry of the sequence that lies on the point, or
/// the empty text if there is none.
pub open spec fn label_at(entries: Seq<(Point, Seq<char>)>, p: Point) -> Seq<char>
    decreases entries.len(),
{
    if entries.len() == 0 {
        Seq::empty()
    } else if entries[0].0 == p {
        entries[0].1
    } else {
        label_at(entries.drop_first(), p)
    }
}

/// The star points of a board: nine on 19×19, five on 13×13 and on 9×9,
/// none on any other size.
pub open spec fn star_points(size: (u8, u8)) -> Seq<Point> {
    if size == (19u8, 19u8) {
        seq![
            (3u8, 3u8),
            (9u8, 3u8),
            (15u8, 3u8),
            (3u8, 9u8),
            (9u8, 9u8),
            (15u8, 9u8),
            (3u8, 15u8),
            (9u8, 15u8),
            (15u8, 15u8),
        ]
    } else if size == (13u8, 13u8) {
        seq![(3u8, 3u8), (9u8, 3u8), (6u8, 6u8), (3u8, 9u8), (9u8, 9u8)]
    } else if size == (9u8, 9u8) {
        seq![(2u8, 2u8), (6u8, 2u8), (4u8, 4u8), (2u8, 6u8), (6u8, 6u8)]
    } else {
        Seq::empty()
    }
}

/// What the lookup of a stone finds: a stone of the sequence on the
/// point, or that there is none.
pub proof fn lemma_stone_at_finds(stones: Seq<Stone>, p: Point)
    ensures
        match stone_at(stones, p) {
            Some(c) => stones.contains(Stone { x: p.0, y: p.1, color: c }),
            None => forall|i: int|
                0 <= i < stones.len() ==> !((#[trigger] stones[i]).x == p.0 && stones[i].y == p.1),
        },
    decreases stones.len(),
{
    if stones.len() > 0 {
        if stones[0].x == p.0 && stones[0].y == p.1 {
            assert(stones[0] == Stone { x: p.0, y: p.1, color: stones[0].color });
        } else {
            let rest = stones.drop_first();
            lemma_stone_at_finds(rest, p);
            match stone_at(rest, p) {
                Some(c) => {
                    let w = Stone { x: p.0, y: p.1, color: c };
                    let i = choose|i: int| 0 <= i < rest.len() && rest[i] == w;
                    assert(stones[i + 1] == w);
                },
                None => {
                    assert forall|i: int| 0 <= i < stones.len() implies !((
                    #[trigger] stones[i]).x == p.0 && stones[i].y == p.1) by {
                        if i > 0 {
                            assert(rest[i - 1] == stones[i]);
                        }
                    }
                },
            }
        }
    }
}

/// Whether the point is among the points.
pub fn has_point(points: &Vec<Point>, x: u8, y: u8) -> (found: bool)
    ensures
        found == points@.contains((x, y)),
{
    let n: usize = points.len();
    let mut i: usize = 0;
    while i < n
        invariant
            n == points@.len(),
            i <= n,
            forall|k: int| 0 <= k < i ==> points@[k] != (x, y),
        decreases n - i,
    {
        let p: Point = points[i];
        if p.0 == x && p.1 == y {
            assert(points@[i as int] == (x, y));
            return true;
        }
        i += 1;
    }
    false
}

/// Whether the pair is among the pairs.
pub fn has_pair(pairs: &Vec<(Point, Point)>, from: Point, to: Point) -> (found: bool)
    ensures
        found == pairs@.contains((from, to)),
{
    let n: usize = pairs.len();
    let mut i: usize = 0;
    while i < n
        invariant
            n == pairs@.len(),
            i <= n,
            forall|k: int| 0 <= k < i ==> pairs@[k] != (from, to),
        decreases n - i,
    {
        let pair: (Point, Point) = pairs[i];
        if pair.0.0 == from.0 && pair.0.1 == from.1 && pair.1.0 == to.0 && pair.1.1 == to.1 {
            assert(pairs@[i as int] == (from, to));
            return true;
        }
        i += 1;
    }
    false
}

impl Goban {
    /// Whether the point lies on the board.
    pub open spec fn on_board(self, p: Point) -> bool {
        p.0 < self.size.0 && p.1 < self.size.1
    }

    /// Whether every point of the sequence lies on the board and none occurs twice.
    pub open spec fn point_set(self, points: Seq<Point>) -> bool {
        &&& forall|i: int| 0 <= i < points.len() ==> self.on_board(#[trigger] points[i])
        &&& points.no_duplicates()
    }

    /// The board has at least one column and one row, every point named
    /// lies on it, no collection names a point (or a pair of points) twice,
    /// and every recorded history has at least one move.
    pub open spec fn wf(self) -> bool {
        &&& self.size.0 >= 1
        &&& self.size.1 >= 1
        &&& self.point_set(stone_points(self.stones@))
        &&& self.point_set(record_points(self.move_numbers@))
        &&& forall|i: int|
            0 <= i < self.move_numbers.len() ==> (#[trigger] self.move_numbers[i]).numbers.len() > 0
        &&& self.point_set(self.marks@)
        &&& self.point_set(self.triangles@)
        &&& self.point_set(self.circles@)
        &&& self.point_set(self.squares@)
        &&& self.point_set(self.selected@)
        &&& self.point_set(self.dimmed@)
        &&& self.point_set(label_points(self.labels@))
        &&& forall|i: int|
            0 <= i < pair_points(self.lines@).len() ==> self.on_board(
                #[trigger] pair_points(self.lines@)[i],
            )
        &&& self.lines@.no_duplicates()
        &&& forall|i: int|
            0 <= i < pair_points(self.arrows@).len() ==> self.on_board(
                #[trigger] pair_points(self.arrows@)[i],
            )
        &&& self.arrows@.no_duplicates()
    }

    /// Every point that a collection of the board names, in the order of the
    /// collections: stones, move records, marks, triangles, circles,
    /// squares, selected, dimmed, labels, both ends of lines and of arrows.
    pub open spec fn named_points(self) -> Seq<Point> {
        stone_points(self.stones@) + record_points(self.move_numbers@) + self.marks@
            + self.triangles@ + self.circles@ + self.squares@ + self.selected@ + self.dimmed@
            + label_points(self.labels@) + pair_points(self.lines@) + pair_points(self.arrows@)
    }

    /// Whether the point is occupied: it lies on the board and holds a stone
    /// or markup of any kind.
    pub open spec fn occupied(self, p: Point) -> bool {
        self.on_board(p) && self.named_points().contains(p)
    }

    /// The occupied points of the board.
    pub open spec fn occupied_points(self) -> Set<Point> {
        Set::new(|p: Point| self.occupied(p))
    }

    /// An empty board of the given size.
    pub fn new(width: u8, height: u8) -> (goban: Goban)
        ensures
            goban.size == (width, height),
            goban.stones@.len() == 0,
            goban.move_numbers@.len() == 0,
            goban.marks@.len() == 0,
            goban.triangles@.len() == 0,
            goban.circles@.len() == 0,
            goban.squares@.len() == 0,
            goban.selected@.len() == 0,
            goban.dimmed@.len() == 0,
            goban.labels@.len() == 0,
            goban.lines@.len() == 0,
            goban.arrows@.len() == 0,
            width >= 1 && height >= 1 ==> goban.wf(),
    {
        let goban = Goban {
            size: (width, height),
            stones: Vec::new(),
            move_numbers: Vec::new(),
            marks: Vec::new(),
            triangles: Vec::new(),
            circles: Vec::new(),
            squares: Vec::new(),
            selected: Vec::new(),
            dimmed: Vec::new(),
            labels: Vec::new(),
            lines: Vec::new(),
            arrows: Vec::new(),
        };
        assert(pair_points(goban.lines@).len() == 0);
        assert(pair_points(goban.arrows@).len() == 0);
        goban
    }

    /// The markers of a kind.
    pub open spec fn markers(self, kind: Marker) -> Seq<Point> {
        match kind {
            Marker::Mark => self.marks@,
            Marker::Triangle => self.triangles@,
            Marker::Circle => self.circles@,
            Marker::Square => self.squares@,
            Marker::Selected => self.selected@,
            Marker::Dimmed => self.dimmed@,
        }
    }

    /// Puts a stone on a free point of the board. A stone beyond the board,
    /// or on a point that has one, is not added.
    pub fn add_stone(&mut self, stone: Stone) -> (added: bool)
        ensures
            added == (old(self).on_board((stone.x, stone.y)) && stone_at(
                old(self).stones@,
                (stone.x, stone.y),
            ) is None),
            added ==> final(self).stones@ == old(self).stones@.push(stone),
            !added ==> final(self).stones@ == old(self).stones@,
            *final(self) == (Goban { stones: final(self).stones, ..*old(self) }),
            old(self).wf() ==> final(self).wf(),
    {
        if stone.x < self.size.0 && stone.y < self.size.1 && self.stone_color(
            stone.x,
            stone.y,
        ).is_none() {
            proof {
                lemma_stone_at_finds(self.stones@, (stone.x, stone.y));
                assert(stone_points(self.stones@.push(stone)) == stone_points(self.stones@).push(
                    (stone.x, stone.y),
                ));
                assert forall|i: int| 0 <= i < self.stones@.len() implies stone_points(
                    self.stones@,
                )[i] != (stone.x, stone.y) by {
                    assert(!(self.stones@[i].x == stone.x && self.stones@[i].y == stone.y));
                }
            }
            self.stones.push(stone);
            true
        } else {
            false
        }
    }

    /// Puts a marker of a kind on a point of the board that has none of
    /// that kind. One beyond the board, or a second one, is not added.
    pub fn add_marker(&mut self, kind: Marker, x: u8, y: u8) -> (added: bool)
        ensures
            added == (old(self).on_board((x, y)) && !old(self).markers(kind).contains((x, y))),
            added ==> final(self).markers(kind) == old(self).markers(kind).push((x, y)),
            !added ==> *final(self) == *old(self),
            forall|other: Marker|
                other != kind ==> final(self).markers(other) == old(self).markers(other),
            *final(self) == (Goban {
                marks: final(self).marks,
                triangles: final(self).triangles,
                circles: final(self).circles,
                squares: final(self).squares,
                selected: final(self).selected,
                dimmed: final(self).dimmed,
                ..*old(self)
            }),
            old(self).wf() ==> final(self).wf(),
    {
        if !(x < self.size.0 && y < self.size.1) {
            return false;
        }
        match kind {
            Marker::Mark => {
                if has_point(&self.marks, x, y) {
                    return false;
                }
                self.marks.push((x, y));
            },
            Marker::Triangle => {
                if has_point(&self.triangles, x, y) {
                    return false;
                }
                self.triangles.push((x, y));
            },
            Marker::Circle => {
                if has_point(&self.circles, x, y) {
                    return false;
                }
                self.circles.push((x, y));
            },
            Marker::Square => {
                if has_point(&self.squares, x, y) {
                    return false;
                }
                self.squares.push((x, y));
            },
            Marker::Selected => {
                if has_point(&self.selected, x, y) {
                    return false;
                }
                self.selected.push((x, y));
            },
            Marker::Dimmed => {
                if has_point(&self.dimmed, x, y) {
                    return false;
                }
                self.dimmed.push((x, y));
            },
        }
        true
    }

    /// Puts a text label on a point of the board that has none. One beyond
    /// the board, or a second one, is not added.
    pub fn add_label(&mut self, x: u8, y: u8, text: String) -> (added: bool)
        ensures
            added == (old(self).on_board((x, y)) && !label_points(old(self).labels@).contains(
                (x, y),
            )),
            added ==> label_entries(final(self).labels@) == label_entries(old(self).labels@).push(
                ((x, y), text@),
            ),
            !added ==> final(self).labels@ == old(self).labels@,
            *final(self) == (Goban { labels: final(self).labels, ..*old(self) }),
            old(self).wf() ==> final(self).wf(),
    {
        if !(x < self.size.0 && y < self.size.1) {
            return false;
        }
        let n: usize = self.labels.len();
        let mut i: usize = 0;
        while i < n
            invariant
                n == self.labels@.len(),
                i <= n,
                *self == *old(self),
                forall|k: int| 0 <= k < i ==> label_points(self.labels@)[k] != (x, y),
            decreases n - i,
        {
            if self.labels[i].x == x && self.labels[i].y == y {
                assert(label_points(self.labels@)[i as int] == (x, y));
                return false;
            }
            i += 1;
        }
        let label = PointLabel { x, y, text };
        proof {
            assert(label_points(self.labels@.push(label)) == label_points(self.labels@).push(
                (x, y),
            ));
            assert(label_entries(self.labels@.push(label)) == label_entries(self.labels@).push(
                ((x, y), text@),
            ));
        }
        self.labels.push(label);
        true
    }

    /// Records the moves played on a point of the board that has no
    /// record. A record beyond the board, a second one, or one without a
    /// move is not added.
    pub fn add_move_record(&mut self, x: u8, y: u8, numbers: Vec<u64>) -> (added: bool)
        ensures
            added == (old(self).on_board((x, y)) && numbers@.len() > 0 && !record_points(
                old(self).move_numbers@,
            ).contains((x, y))),
            added ==> record_entries(final(self).move_numbers@) == record_entries(
                old(self).move_numbers@,
            ).push(((x, y), numbers@)),
            !added ==> final(self).move_numbers@ == old(self).move_numbers@,
            *final(self) == (Goban { move_numbers: final(self).move_numbers, ..*old(self) }),
            old(self).wf() ==> final(self).wf(),
    {
        if !(x < self.size.0 && y < self.size.1) || numbers.len() == 0 {
            return false;
        }
        let n: usize = self.move_numbers.len();
        let mut i: usize = 0;
        while i < n
            invariant
                n == self.move_numbers@.len(),
                i <= n,
                *self == *old(self),
                forall|k: int| 0 <= k < i ==> record_points(self.move_numbers@)[k] != (x, y),
            decreases n - i,
        {
            if self.move_numbers[i].x == x && self.move_numbers[i].y == y {
                assert(record_points(self.move_numbers@)[i as int] == (x, y));
                return false;
            }
            i += 1;
        }
        let record = MoveRecord { x, y, numbers };
        proof {
            assert(record_points(self.move_numbers@.push(record)) == record_points(
                self.move_numbers@,
            ).push((x, y)));
            assert(record_entries(self.move_numbers@.push(record)) == record_entries(
                self.move_numbers@,
            ).push(((x, y), numbers@)));
        }
        self.move_numbers.push(record);
        true
    }

    /// Connects two points of the board by a line, unless they are so
    /// connected already or one of them lies beyond the board.
    pub fn add_line(&mut self, from: Point, to: Point) -> (added: bool)
        ensures
            added == (old(self).on_board(from) && old(self).on_board(to)
                && !old(self).lines@.contains((from, to))),
            added ==> final(self).lines@ == old(self).lines@.push((from, to)),
            !added ==> final(self).lines@ == old(self).lines@,
            *final(self) == (Goban { lines: final(self).lines, ..*old(self) }),
            old(self).wf() ==> final(self).wf(),
    {
        if from.0 < self.size.0 && from.1 < self.size.1 && to.0 < self.size.0 && to.1
            < self.size.1 && !has_pair(&self.lines, from, to) {
            proof {
                let before = pair_points(self.lines@);
                let after = pair_points(self.lines@.push((from, to)));
                assert(self.lines@.push((from, to)).drop_last() == self.lines@);
                assert(after == before.push(from).push(to));
                if self.wf() {
                    assert forall|i: int| 0 <= i < after.len() implies self.on_board(
                        #[trigger] after[i],
                    ) by {
                        if i < before.len() {
                            assert(after[i] == before[i]);
                        }
                    }
                }
            }
            self.lines.push((from, to));
            true
        } else {
            false
        }
    }

    /// Draws an arrow from one point of the board to another, unless there
    /// is one already or one of the points lies beyond the board.
    pub fn add_arrow(&mut self, from: Point, to: Point) -> (added: bool)
        ensures
            added == (old(self).on_board(from) && old(self).on_board(to)
                && !old(self).arrows@.contains((from, to))),
            added ==> final(self).arrows@ == old(self).arrows@.push((from, to)),
            !added ==> final(self).arrows@ == old(self).arrows@,
            *final(self) == (Goban { arrows: final(self).arrows, ..*old(self) }),
            old(self).wf() ==> final(self).wf(),
    {
        if from.0 < self.size.0 && from.1 < self.size.1 && to.0 < self.size.0 && to.1
            < self.size.1 && !has_pair(&self.arrows, from, to) {
            proof {
                let before = pair_points(self.arrows@);
                let after = pair_points(self.arrows@.push((from, to)));
                assert(self.arrows@.push((from, to)).drop_last() == self.arrows@);
                assert(after == before.push(from).push(to));
                if self.wf() {
                    assert forall|i: int| 0 <= i < after.len() implies self.on_board(
                        #[trigger] after[i],
                    ) by {
                        if i < before.len() {
                            assert(after[i] == before[i]);
                        }
                    }
                }
            }
            self.arrows.push((from, to));
            true
        } else {
            false
        }
    }

    /// The colour of the stone on a point, if one lies there.
    pub fn stone_color(&self, x: u8, y: u8) -> (color: Option<StoneColor>)
        ensures
            color == stone_at(self.stones@, (x, y)),
    {
        let n: usize = self.stones.len();
        let mut i: usize = 0;
        assert(self.stones@.subrange(0, n as int) == self.stones@);
        while i < n
            invariant
                n == self.stones@.len(),
                i <= n,
                stone_at(self.stones@, (x, y)) == stone_at(
                    self.stones@.subrange(i as int, n as int),
                    (x, y),
                ),
            decreases n - i,
        {
            let stone: Stone = self.stones[i];
            assert(self.stones@.subrange(i as int, n as int).drop_first()
                == self.stones@.subrange(i + 1, n as int));
            if stone.x == x && stone.y == y {
                return Some(stone.color);
            }
            i += 1;
        }
        None
    }

    /// The text of the label on a point, or the empty text if none lies there.
    pub fn label_text_at(&self, x: u8, y: u8) -> (text: String)
        ensures
            text@ == label_at(label_entries(self.labels@), (x, y)),
    {
        let n: usize = self.labels.len();
        let mut i: usize = 0;
        let ghost entries = label_entries(self.labels@);
        assert(entries.subrange(0, n as int) == entries);
        while i < n
            invariant
                n == self.labels@.len(),
                i <= n,
                entries == label_entries(self.labels@),
                label_at(entries, (x, y)) == label_at(entries.subrange(i as int, n as int), (x, y)),
            decreases n - i,
        {
            assert(entries.subrange(i as int, n as int).drop_first() == entries.subrange(
                i + 1,
                n as int,
            ));
            assert(entries.subrange(i as int, n as int)[0] == entries[i as int]);
            if self.labels[i].x == x && self.labels[i].y == y {
                return self.labels[i].text.clone();
            }
            i += 1;
        }
        String::new()
    }

    /// The star points of the board.
    pub fn hoshi_points(&self) -> (points: Vec<Point>)
        ensures
            points@ == star_points(self.size),
    {
        if self.size.0 == 19 && self.size.1 == 19 {
            vec![(3, 3), (9, 3), (15, 3), (3, 9), (9, 9), (15, 9), (3, 15), (9, 15), (15, 15)]
        } else if self.size.0 == 13 && self.size.1 == 13 {
            vec![(3, 3), (9, 3), (6, 6), (3, 9), (9, 9)]
        } else if self.size.0 == 9 && self.size.1 == 9 {
            vec![(2, 2), (6, 2), (4, 4), (2, 6), (6, 6)]
        } else {
            Vec::new()
        }
    }
}

} // verus!
