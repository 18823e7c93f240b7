//! A picture depends on what a board holds, not on the order in which its
//! collections were filled.

use crate::board::{
    label_at, label_entries, label_points, lemma_stone_at_finds, pair_points, record_entries,
    record_points, stone_at,
    stone_points, Goban, Marker, Point, Stone,
};
use crate::layers::label_shapes;
use crate::moves::{is_shown, move_key, move_keys, number_shapes};
use crate::options::MakeSvgOptions;
use crate::order::{
    key_point, lemma_sorted_keys_ignore_insertion_order, pair_key, pair_keys, point_key,
    point_keys, sorted_keys, stone_key, stone_keys,
};
use crate::render::{layer_of_rank, layers_below, picture_markup};
use crate::style::GobanStyle;
use std::ops::Range;
use vstd::prelude::*;

verus! {

/// Whether two sequences hold the same items, each as often as the other.
pub open spec fn same_items<T>(a: Seq<T>, b: Seq<T>) -> bool {
    a.to_multiset() == b.to_multiset()
}

/// Sequences with the same items are equally long and have the same members.
pub proof fn lemma_same_items_same_members<T>(a: Seq<T>, b: Seq<T>)
    requires
        same_items(a, b),
    ensures
        a.len() == b.len(),
        forall|x: T| a.contains(x) <==> b.contains(x),
{
    broadcast use vstd::seq_lib::group_to_multiset_ensures;

    assert(a.to_multiset().len() == b.to_multiset().len());
    assert forall|x: T| a.contains(x) <==> b.contains(x) by {
        assert(a.to_multiset().count(x) == b.to_multiset().count(x));
    }
}

/// Applying a function to every item keeps sequences with the same items so.
pub proof fn lemma_map_keeps_same_items<A, B>(a: Seq<A>, b: Seq<A>, f: spec_fn(A) -> B)
    requires
        same_items(a, b),
    ensures
        same_items(a.map_values(f), b.map_values(f)),
    decreases a.len(),
{
    broadcast use vstd::seq_lib::group_to_multiset_ensures;

    lemma_same_items_same_members(a, b);
    if a.len() == 0 {
        assert(a.map_values(f) =~= b.map_values(f));
    } else {
        let x = a.last();
        assert(a[a.len() - 1] == x);
        assert(a.contains(x));
        let i = choose|i: int| 0 <= i < b.len() && b[i] == x;
        let a1 = a.drop_last();
        let b1 = b.remove(i);
        assert(a =~= a1.push(x));
        assert(a.to_multiset() =~= a1.to_multiset().insert(x));
        assert(b1.to_multiset() =~= b.to_multiset().remove(x));
        assert(a1.to_multiset() =~= b1.to_multiset());
        lemma_map_keeps_same_items(a1, b1, f);
        assert(a.map_values(f) =~= a1.map_values(f).push(f(x)));
        assert(b.map_values(f) =~= b1.map_values(f).insert(i, f(x)));
    }
}

/// Where no two stones share a point, the stone on a point does not depend
/// on the order of the stones.
pub proof fn lemma_stone_at_ignores_order(a: Seq<Stone>, b: Seq<Stone>, p: Point)
    requires
        same_items(a, b),
        stone_points(a).no_duplicates(),
        stone_points(b).no_duplicates(),
    ensures
        stone_at(a, p) == stone_at(b, p),
{
    lemma_same_items_same_members(a, b);
    lemma_stone_at_finds(a, p);
    lemma_stone_at_finds(b, p);
    match stone_at(a, p) {
        Some(c) => {
            let w = Stone { x: p.0, y: p.1, color: c };
            assert(b.contains(w));
            let i = choose|i: int| 0 <= i < b.len() && b[i] == w;
            match stone_at(b, p) {
                Some(d) => {
                    let v = Stone { x: p.0, y: p.1, color: d };
                    let j = choose|j: int| 0 <= j < b.len() && b[j] == v;
                    assert(stone_points(b)[i] == p);
                    assert(stone_points(b)[j] == p);
                },
                None => {
                    assert(b[i].x == p.0);
                },
            }
        },
        None => {
            match stone_at(b, p) {
                Some(d) => {
                    let v = Stone { x: p.0, y: p.1, color: d };
                    assert(a.contains(v));
                    let j = choose|j: int| 0 <= j < a.len() && a[j] == v;
                    assert(a[j].x == p.0);
                },
                None => {},
            }
        },
    }
}

/// What the lookup of a label finds: the text of an entry of the sequence
/// on the point, or the empty text where there is none.
pub proof fn lemma_label_at_finds(entries: Seq<(Point, Seq<char>)>, p: Point)
    ensures
        entries.contains((p, label_at(entries, p))) || (label_at(entries, p) == Seq::<char>::empty()
            && forall|i: int| 0 <= i < entries.len() ==> (#[trigger] entries[i]).0 != p),
    decreases entries.len(),
{
    if entries.len() > 0 {
        if entries[0].0 == p {
            assert(entries[0] == (p, label_at(entries, p)));
        } else {
            let rest = entries.drop_first();
            lemma_label_at_finds(rest, p);
            if rest.contains((p, label_at(rest, p))) {
                let i = choose|i: int| 0 <= i < rest.len() && rest[i] == (p, label_at(rest, p));
                assert(entries[i + 1] == (p, label_at(entries, p)));
            } else {
                assert forall|i: int| 0 <= i < entries.len() implies (#[trigger] entries[i]).0
                    != p by {
                    if i > 0 {
                        assert(rest[i - 1] == entries[i]);
                    }
                }
            }
        }
    }
}

/// The points of a sequence of entries.
pub open spec fn entry_points<T>(entries: Seq<(Point, T)>) -> Seq<Point> {
    entries.map_values(|e: (Point, T)| e.0)
}

/// Where no two labels share a point, the label on a point does not depend
/// on the order of the labels.
pub proof fn lemma_label_at_ignores_order(
    a: Seq<(Point, Seq<char>)>,
    b: Seq<(Point, Seq<char>)>,
    p: Point,
)
    requires
        same_items(a, b),
        entry_points(a).no_duplicates(),
        entry_points(b).no_duplicates(),
    ensures
        label_at(a, p) == label_at(b, p),
{
    lemma_same_items_same_members(a, b);
    lemma_label_at_finds(a, p);
    lemma_label_at_finds(b, p);
    if a.contains((p, label_at(a, p))) {
        assert(b.contains((p, label_at(a, p))));
        let i = choose|i: int| 0 <= i < b.len() && b[i] == (p, label_at(a, p));
        if b.contains((p, label_at(b, p))) {
            let j = choose|j: int| 0 <= j < b.len() && b[j] == (p, label_at(b, p));
            assert(entry_points(b)[i] == p);
            assert(entry_points(b)[j] == p);
        } else {
            assert(b[i].0 == p);
        }
    } else if b.contains((p, label_at(b, p))) {
        assert(a.contains((p, label_at(b, p))));
        let j = choose|j: int| 0 <= j < a.len() && a[j] == (p, label_at(b, p));
        assert(a[j].0 == p);
    }
}

/// Moving one record to the end keeps the keys of the shown records the same items.
proof fn lemma_move_keys_rotate(s: Seq<(Point, Seq<u64>)>, i: int, first: u64)
    requires
        0 <= i < s.len(),
    ensures
        same_items(move_keys(s, first), move_keys(s.remove(i).push(s[i]), first)),
    decreases s.len(),
{
    broadcast use vstd::seq_lib::group_to_multiset_ensures;

    let moved = s.remove(i).push(s[i]);
    if i == s.len() - 1 {
        assert(moved =~= s);
    } else {
        let last = s.last();
        let front = s.drop_last();
        lemma_move_keys_rotate(front, i, first);
        let inner = front.remove(i);
        assert(front[i] == s[i]);
        assert(moved.drop_last() =~= inner.push(last));
        assert(moved.last() == s[i]);
        assert(inner.push(last).drop_last() =~= inner);
        assert(inner.push(last).last() == last);
        assert(inner.push(s[i]).drop_last() =~= inner);
        assert(inner.push(s[i]).last() == s[i]);
        let base = move_keys(inner, first).to_multiset();
        let with_i = move_keys(inner.push(s[i]), first).to_multiset();
        assert(move_keys(front, first).to_multiset() == with_i);
        if is_shown(s[i], first) {
            assert(with_i =~= base.insert(move_key(s[i])));
        } else {
            assert(with_i =~= base);
        }
        if is_shown(last, first) {
            assert(move_keys(s, first).to_multiset() =~= with_i.insert(move_key(last)));
            assert(move_keys(inner.push(last), first).to_multiset() =~= base.insert(
                move_key(last),
            ));
        } else {
            assert(move_keys(s, first) == move_keys(front, first));
            assert(move_keys(inner.push(last), first) == move_keys(inner, first));
        }
        if is_shown(s[i], first) {
            assert(move_keys(moved, first).to_multiset() =~= move_keys(
                inner.push(last),
                first,
            ).to_multiset().insert(move_key(s[i])));
        } else {
            assert(move_keys(moved, first) == move_keys(inner.push(last), first));
        }
        assert(move_keys(s, first).to_multiset() =~= move_keys(moved, first).to_multiset());
    }
}

/// The keys of the shown move records do not depend, as items, on the
/// order of the records.
pub proof fn lemma_move_keys_ignore_order(
    a: Seq<(Point, Seq<u64>)>,
    b: Seq<(Point, Seq<u64>)>,
    first: u64,
)
    requires
        same_items(a, b),
    ensures
        same_items(move_keys(a, first), move_keys(b, first)),
    decreases a.len(),
{
    broadcast use vstd::seq_lib::group_to_multiset_ensures;

    lemma_same_items_same_members(a, b);
    if a.len() == 0 {
        assert(a =~= b);
    } else {
        let x = a.last();
        assert(a[a.len() - 1] == x);
        assert(a.contains(x));
        let i = choose|i: int| 0 <= i < b.len() && b[i] == x;
        let a1 = a.drop_last();
        let b1 = b.remove(i);
        assert(a =~= a1.push(x));
        assert(a.to_multiset() =~= a1.to_multiset().insert(x));
        assert(b1.to_multiset() =~= b.to_multiset().remove(x));
        assert(a1.to_multiset() =~= b1.to_multiset());
        lemma_move_keys_ignore_order(a1, b1, first);
        lemma_move_keys_rotate(b, i, first);
        assert(b1.push(x).drop_last() =~= b1);
        assert(b1.push(x).last() == x);
        if is_shown(x, first) {
            assert(move_keys(a, first).to_multiset() =~= move_keys(a1, first).to_multiset().insert(
                move_key(x),
            ));
            assert(move_keys(b1.push(x), first).to_multiset() =~= move_keys(
                b1,
                first,
            ).to_multiset().insert(move_key(x)));
        } else {
            assert(move_keys(a, first) == move_keys(a1, first));
            assert(move_keys(b1.push(x), first) == move_keys(b1, first));
        }
    }
}

/// A point is an end of some pair exactly if it is among the pairs' points.
pub proof fn lemma_pair_points_members(pairs: Seq<(Point, Point)>, p: Point)
    ensures
        pair_points(pairs).contains(p) <==> exists|i: int|
            0 <= i < pairs.len() && ((#[trigger] pairs[i]).0 == p || pairs[i].1 == p),
    decreases pairs.len(),
{
    if pairs.len() > 0 {
        let front = pairs.drop_last();
        let last = pairs.last();
        lemma_pair_points_members(front, p);
        let points = pair_points(pairs);
        let before = pair_points(front);
        assert(points == before.push(last.0).push(last.1));
        if points.contains(p) {
            let k = choose|k: int| 0 <= k < points.len() && points[k] == p;
            if k < before.len() {
                assert(before[k] == p);
                assert(before.contains(p));
                let i = choose|i: int|
                    0 <= i < front.len() && ((#[trigger] front[i]).0 == p || front[i].1 == p);
                assert(pairs[i] == front[i]);
            } else {
                assert(pairs[pairs.len() - 1] == last);
            }
        }
        if exists|i: int| 0 <= i < pairs.len() && ((#[trigger] pairs[i]).0 == p || pairs[i].1 == p) {
            let i = choose|i: int|
                0 <= i < pairs.len() && ((#[trigger] pairs[i]).0 == p || pairs[i].1 == p);
            if i < front.len() {
                assert(front[i] == pairs[i]);
                assert(before.contains(p));
                let k = choose|k: int| 0 <= k < before.len() && before[k] == p;
                assert(points[k] == p);
            } else if last.0 == p {
                assert(points[before.len() as int] == p);
            } else {
                assert(points[before.len() as int + 1] == p);
            }
        }
    }
}

/// The points of the ends of the pairs do not depend, as members, on the order of the pairs.
pub proof fn lemma_pair_points_ignore_order(a: Seq<(Point, Point)>, b: Seq<(Point, Point)>, p: Point)
    requires
        same_items(a, b),
    ensures
        pair_points(a).contains(p) <==> pair_points(b).contains(p),
{
    lemma_same_items_same_members(a, b);
    lemma_pair_points_members(a, p);
    lemma_pair_points_members(b, p);
    if pair_points(a).contains(p) {
        let i = choose|i: int| 0 <= i < a.len() && ((#[trigger] a[i]).0 == p || a[i].1 == p);
        assert(a.contains(a[i]));
        let j = choose|j: int| 0 <= j < b.len() && b[j] == a[i];
        assert(b[j].0 == p || b[j].1 == p);
    }
    if pair_points(b).contains(p) {
        let i = choose|i: int| 0 <= i < b.len() && ((#[trigger] b[i]).0 == p || b[i].1 == p);
        assert(b.contains(b[i]));
        let j = choose|j: int| 0 <= j < a.len() && a[j] == b[i];
        assert(a[j].0 == p || a[j].1 == p);
    }
}

/// A member of a concatenation is a member of one of its parts.
pub proof fn lemma_concat_members<T>(s: Seq<T>, t: Seq<T>, x: T)
    ensures
        (s + t).contains(x) <==> s.contains(x) || t.contains(x),
{
    if (s + t).contains(x) {
        let k = choose|k: int| 0 <= k < (s + t).len() && (s + t)[k] == x;
        if k < s.len() {
            assert(s[k] == x);
        } else {
            assert(t[k - s.len()] == x);
        }
    }
    if s.contains(x) {
        let k = choose|k: int| 0 <= k < s.len() && s[k] == x;
        assert((s + t)[k] == x);
    }
    if t.contains(x) {
        let k = choose|k: int| 0 <= k < t.len() && t[k] == x;
        assert((s + t)[k + s.len()] == x);
    }
}

/// Whether two boards hold the same: they are equally large, and each
/// collection of the one has the items of the same collection of the
/// other, in whatever order.
pub open spec fn same_board(a: Goban, b: Goban) -> bool {
    &&& a.size == b.size
    &&& same_items(a.stones@, b.stones@)
    &&& same_items(record_entries(a.move_numbers@), record_entries(b.move_numbers@))
    &&& same_items(a.marks@, b.marks@)
    &&& same_items(a.triangles@, b.triangles@)
    &&& same_items(a.circles@, b.circles@)
    &&& same_items(a.squares@, b.squares@)
    &&& same_items(a.selected@, b.selected@)
    &&& same_items(a.dimmed@, b.dimmed@)
    &&& same_items(label_entries(a.labels@), label_entries(b.labels@))
    &&& same_items(a.lines@, b.lines@)
    &&& same_items(a.arrows@, b.arrows@)
}

/// Whether some collection of the board names the point.
pub open spec fn is_named(g: Goban, p: Point) -> bool {
    ||| stone_points(g.stones@).contains(p)
    ||| record_points(g.move_numbers@).contains(p)
    ||| g.marks@.contains(p)
    ||| g.triangles@.contains(p)
    ||| g.circles@.contains(p)
    ||| g.squares@.contains(p)
    ||| g.selected@.contains(p)
    ||| g.dimmed@.contains(p)
    ||| label_points(g.labels@).contains(p)
    ||| pair_points(g.lines@).contains(p)
    ||| pair_points(g.arrows@).contains(p)
}

/// A point is among the named points exactly if some collection names it.
pub proof fn lemma_named_points_members(g: Goban, p: Point)
    ensures
        g.named_points().contains(p) <==> is_named(g, p),
{
    let s1 = stone_points(g.stones@);
    let s2 = s1 + record_points(g.move_numbers@);
    let s3 = s2 + g.marks@;
    let s4 = s3 + g.triangles@;
    let s5 = s4 + g.circles@;
    let s6 = s5 + g.squares@;
    let s7 = s6 + g.selected@;
    let s8 = s7 + g.dimmed@;
    let s9 = s8 + label_points(g.labels@);
    let s10 = s9 + pair_points(g.lines@);
    lemma_concat_members(s1, record_points(g.move_numbers@), p);
    lemma_concat_members(s2, g.marks@, p);
    lemma_concat_members(s3, g.triangles@, p);
    lemma_concat_members(s4, g.circles@, p);
    lemma_concat_members(s5, g.squares@, p);
    lemma_concat_members(s6, g.selected@, p);
    lemma_concat_members(s7, g.dimmed@, p);
    lemma_concat_members(s8, label_points(g.labels@), p);
    lemma_concat_members(s9, pair_points(g.lines@), p);
    lemma_concat_members(s10, pair_points(g.arrows@), p);
}

/// Boards that hold the same have the same occupied points.
pub proof fn lemma_same_board_same_occupied(a: Goban, b: Goban)
    requires
        same_board(a, b),
    ensures
        a.occupied_points() == b.occupied_points(),
{
    assert forall|p: Point| a.occupied(p) <==> b.occupied(p) by {
        lemma_named_points_members(a, p);
        lemma_named_points_members(b, p);
        lemma_map_keeps_same_items(a.stones@, b.stones@, |s: Stone| (s.x, s.y));
        assert(stone_points(a.stones@) =~= a.stones@.map_values(|s: Stone| (s.x, s.y)));
        assert(stone_points(b.stones@) =~= b.stones@.map_values(|s: Stone| (s.x, s.y)));
        lemma_same_items_same_members(stone_points(a.stones@), stone_points(b.stones@));
        let ra = record_entries(a.move_numbers@);
        let rb = record_entries(b.move_numbers@);
        lemma_map_keeps_same_items(ra, rb, |e: (Point, Seq<u64>)| e.0);
        assert(record_points(a.move_numbers@) =~= ra.map_values(|e: (Point, Seq<u64>)| e.0));
        assert(record_points(b.move_numbers@) =~= rb.map_values(|e: (Point, Seq<u64>)| e.0));
        lemma_same_items_same_members(
            record_points(a.move_numbers@),
            record_points(b.move_numbers@),
        );
        lemma_same_items_same_members(a.marks@, b.marks@);
        lemma_same_items_same_members(a.triangles@, b.triangles@);
        lemma_same_items_same_members(a.circles@, b.circles@);
        lemma_same_items_same_members(a.squares@, b.squares@);
        lemma_same_items_same_members(a.selected@, b.selected@);
        lemma_same_items_same_members(a.dimmed@, b.dimmed@);
        let la = label_entries(a.labels@);
        let lb = label_entries(b.labels@);
        lemma_map_keeps_same_items(la, lb, |e: (Point, Seq<char>)| e.0);
        assert(label_points(a.labels@) =~= la.map_values(|e: (Point, Seq<char>)| e.0));
        assert(label_points(b.labels@) =~= lb.map_values(|e: (Point, Seq<char>)| e.0));
        lemma_same_items_same_members(label_points(a.labels@), label_points(b.labels@));
        lemma_pair_points_ignore_order(a.lines@, b.lines@, p);
        lemma_pair_points_ignore_order(a.arrows@, b.arrows@, p);
    }
    assert(a.occupied_points() =~= b.occupied_points());
}

/// The keys of points with the same items come out in the same order.
pub proof fn lemma_point_order_is_stable(a: Seq<Point>, b: Seq<Point>)
    requires
        same_items(a, b),
    ensures
        sorted_keys(point_keys(a)) == sorted_keys(point_keys(b)),
{
    lemma_map_keeps_same_items(a, b, |p: Point| point_key(p));
    assert(point_keys(a) =~= a.map_values(|p: Point| point_key(p)));
    assert(point_keys(b) =~= b.map_values(|p: Point| point_key(p)));
    lemma_sorted_keys_ignore_insertion_order(point_keys(a), point_keys(b));
}

/// A layer of markers does not depend on the order of its points, nor on
/// the order of the stones below.
pub proof fn lemma_marker_layer_is_stable(
    kind: Marker,
    a: Seq<Point>,
    b: Seq<Point>,
    stones_a: Seq<Stone>,
    stones_b: Seq<Stone>,
    style: GobanStyle,
)
    requires
        same_items(a, b),
        same_items(stones_a, stones_b),
        stone_points(stones_a).no_duplicates(),
        stone_points(stones_b).no_duplicates(),
    ensures
        kind.layer(a, stones_a, style) == kind.layer(b, stones_b, style),
{
    lemma_point_order_is_stable(a, b);
    let keys = sorted_keys(point_keys(a));
    assert forall|i: int| 0 <= i < keys.len() implies kind.shapes(keys, stones_a, style)[i]
        == kind.shapes(keys, stones_b, style)[i] by {
        lemma_stone_at_ignores_order(stones_a, stones_b, key_point(keys[i]));
    }
    assert(kind.shapes(keys, stones_a, style) =~= kind.shapes(keys, stones_b, style));
}

/// Every layer of a board, and so the board as drawn, is the same for
/// boards that hold the same.
pub proof fn lemma_layers_are_stable(a: Goban, b: Goban, options: MakeSvgOptions, rank: int)
    requires
        a.wf(),
        b.wf(),
        same_board(a, b),
    ensures
        layer_of_rank(a, options, rank) == layer_of_rank(b, options, rank),
{
    let style = options.style;
    let sa = a.stones@;
    let sb = b.stones@;
    if rank == 1 {
        lemma_map_keeps_same_items(sa, sb, |s: Stone| stone_key(s));
        assert(stone_keys(sa) =~= sa.map_values(|s: Stone| stone_key(s)));
        assert(stone_keys(sb) =~= sb.map_values(|s: Stone| stone_key(s)));
        lemma_sorted_keys_ignore_insertion_order(stone_keys(sa), stone_keys(sb));
    } else if rank == 2 {
        let first = options.first_move_number;
        let ra = record_entries(a.move_numbers@);
        let rb = record_entries(b.move_numbers@);
        lemma_move_keys_ignore_order(ra, rb, first);
        lemma_sorted_keys_ignore_insertion_order(move_keys(ra, first), move_keys(rb, first));
        let keys = sorted_keys(move_keys(ra, first));
        assert forall|i: int| 0 <= i < keys.len() implies number_shapes(keys, first, sa, style)[i]
            == number_shapes(keys, first, sb, style)[i] by {
            lemma_stone_at_ignores_order(sa, sb, key_point(keys[i]));
        }
        assert(number_shapes(keys, first, sa, style) =~= number_shapes(keys, first, sb, style));
    } else if rank == 3 {
        lemma_marker_layer_is_stable(Marker::Mark, a.marks@, b.marks@, sa, sb, style);
    } else if rank == 4 {
        lemma_marker_layer_is_stable(Marker::Triangle, a.triangles@, b.triangles@, sa, sb, style);
    } else if rank == 5 {
        lemma_marker_layer_is_stable(Marker::Circle, a.circles@, b.circles@, sa, sb, style);
    } else if rank == 6 {
        lemma_marker_layer_is_stable(Marker::Square, a.squares@, b.squares@, sa, sb, style);
    } else if rank == 7 {
        lemma_marker_layer_is_stable(Marker::Selected, a.selected@, b.selected@, sa, sb, style);
    } else if rank == 8 {
        lemma_marker_layer_is_stable(Marker::Dimmed, a.dimmed@, b.dimmed@, sa, sb, style);
    } else if rank == 9 {
        let la = label_entries(a.labels@);
        let lb = label_entries(b.labels@);
        lemma_map_keeps_same_items(la, lb, |e: (Point, Seq<char>)| e.0);
        assert(label_points(a.labels@) =~= la.map_values(|e: (Point, Seq<char>)| e.0));
        assert(label_points(b.labels@) =~= lb.map_values(|e: (Point, Seq<char>)| e.0));
        assert(entry_points(la) =~= label_points(a.labels@));
        assert(entry_points(lb) =~= label_points(b.labels@));
        lemma_point_order_is_stable(label_points(a.labels@), label_points(b.labels@));
        let keys = sorted_keys(point_keys(label_points(a.labels@)));
        assert forall|i: int| 0 <= i < keys.len() implies label_shapes(
            keys,
            a.labels@,
            sa,
            style,
        )[i] == label_shapes(keys, b.labels@, sb, style)[i] by {
            lemma_stone_at_ignores_order(sa, sb, key_point(keys[i]));
            lemma_label_at_ignores_order(la, lb, key_point(keys[i]));
        }
        assert(label_shapes(keys, a.labels@, sa, style) =~= label_shapes(
            keys,
            b.labels@,
            sb,
            style,
        ));
    } else if rank == 10 {
        lemma_map_keeps_same_items(a.lines@, b.lines@, |pair: (Point, Point)| pair_key(pair));
        assert(pair_keys(a.lines@) =~= a.lines@.map_values(|pair: (Point, Point)| pair_key(pair)));
        assert(pair_keys(b.lines@) =~= b.lines@.map_values(|pair: (Point, Point)| pair_key(pair)));
        lemma_sorted_keys_ignore_insertion_order(pair_keys(a.lines@), pair_keys(b.lines@));
    } else if rank == 11 {
        lemma_map_keeps_same_items(a.arrows@, b.arrows@, |pair: (Point, Point)| pair_key(pair));
        assert(pair_keys(a.arrows@) =~= a.arrows@.map_values(
            |pair: (Point, Point)| pair_key(pair),
        ));
        assert(pair_keys(b.arrows@) =~= b.arrows@.map_values(
            |pair: (Point, Point)| pair_key(pair),
        ));
        lemma_sorted_keys_ignore_insertion_order(pair_keys(a.arrows@), pair_keys(b.arrows@));
    }
}

/// The layers below a rank are the same for boards that hold the same.
pub proof fn lemma_layers_below_are_stable(a: Goban, b: Goban, options: MakeSvgOptions, rank: int)
    requires
        a.wf(),
        b.wf(),
        same_board(a, b),
    ensures
        layers_below(a, options, rank) == layers_below(b, options, rank),
    decreases rank,
{
    if rank > 0 {
        lemma_layers_below_are_stable(a, b, options, rank - 1);
        lemma_layers_are_stable(a, b, options, rank - 1);
    }
}

/// Two well-formed boards that hold the same, however their collections
/// were filled, resolve every range alike and give the same picture.
pub proof fn lemma_same_board_same_picture(
    a: Goban,
    b: Goban,
    options: MakeSvgOptions,
    columns: Range<u8>,
    rows: Range<u8>,
)
    requires
        a.wf(),
        b.wf(),
        same_board(a, b),
    ensures
        options.goban_range.resolve(a) == options.goban_range.resolve(b),
        picture_markup(a, options, columns, rows) == picture_markup(b, options, columns, rows),
{
    lemma_same_board_same_occupied(a, b);
    assert forall|p: Point| a.occupied(p) <==> b.occupied(p) by {
        assert(a.occupied_points().contains(p) <==> b.occupied_points().contains(p));
    }
    lemma_layers_below_are_stable(a, b, options, crate::render::LAYER_COUNT as int);
}

} // verus!
