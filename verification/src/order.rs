//! The order in which the items of a layer are drawn.
//!
//! The collections of a board have no order of their own. Each item gets a
//! numeric key, and a layer draws its items by ascending key, so that the
//! same board always gives the same document.

use crate::board::{Point, Stone, StoneColor};
use vstd::prelude::*;
use vstd::relations::{sorted_by, total_ordering};
use vstd::seq_lib::lemma_sorted_unique;

verus! {

/// The order of the keys.
pub open spec fn key_leq() -> spec_fn(u128, u128) -> bool {
    |a: u128, b: u128| a <= b
}

/// The keys in ascending order.
pub open spec fn sorted_keys(keys: Seq<u128>) -> Seq<u128> {
    keys.sort_by(key_leq())
}

/// The key of a point: by column, then by row.
pub open spec fn point_key(p: Point) -> u128 {
    (p.0 * 256 + p.1) as u128
}

/// The point that the low sixteen bits of a key stand for.
pub open spec fn key_point(k: u128) -> Point {
    ((k / 256 % 256) as u8, (k % 256) as u8)
}

/// The keys of a sequence of points.
pub open spec fn point_keys(points: Seq<Point>) -> Seq<u128> {
    points.map_values(|p: Point| point_key(p))
}

/// The key of a stone: by point, black before white.
pub open spec fn stone_key(s: Stone) -> u128 {
    (point_key((s.x, s.y)) * 2 + if s.color == StoneColor::White {
        1int
    } else {
        0int
    }) as u128
}

/// The stone that a key stands for.
pub open spec fn key_stone(k: u128) -> Stone {
    Stone {
        x: key_point(k / 2).0,
        y: key_point(k / 2).1,
        color: if k % 2 == 1 {
            StoneColor::White
        } else {
            StoneColor::Black
        },
    }
}

/// The keys of a sequence of stones.
pub open spec fn stone_keys(stones: Seq<Stone>) -> Seq<u128> {
    stones.map_values(|s: Stone| stone_key(s))
}

/// The key of a pair of points: by the first point, then by the second.
pub open spec fn pair_key(pair: (Point, Point)) -> u128 {
    (point_key(pair.0) * 65536 + point_key(pair.1)) as u128
}

/// The pair of points that a key stands for.
pub open spec fn key_pair(k: u128) -> (Point, Point) {
    (key_point(k / 65536), key_point(k))
}

/// The keys of a sequence of pairs.
pub open spec fn pair_keys(pairs: Seq<(Point, Point)>) -> Seq<u128> {
    pairs.map_values(|pair: (Point, Point)| pair_key(pair))
}

/// A key names its point, its stone and its pair without loss, so the
/// order of the keys is an order of the items themselves.
pub proof fn lemma_keys_are_faithful(p: Point, q: Point, s: Stone)
    ensures
        key_point(point_key(p)) == p,
        key_stone(stone_key(s)) == s,
        key_pair(pair_key((p, q))) == (p, q),
{
}

/// Ascending keys of points are column-major: a point comes before every
/// point of a later column, and before the points of its own column in
/// later rows.
pub proof fn lemma_point_keys_are_column_major(p: Point, q: Point)
    ensures
        point_key(p) <= point_key(q) <==> (p.0 < q.0 || (p.0 == q.0 && p.1 <= q.1)),
{
}

/// The order of the keys is total.
pub proof fn lemma_key_order_is_total()
    ensures
        total_ordering(key_leq()),
{
}

/// Two collections that hold the same keys, in whatever order they were
/// filled, are drawn in the same order.
pub proof fn lemma_sorted_keys_ignore_insertion_order(a: Seq<u128>, b: Seq<u128>)
    requires
        a.to_multiset() == b.to_multiset(),
    ensures
        sorted_keys(a) == sorted_keys(b),
{
    lemma_key_order_is_total();
    a.lemma_sort_by_ensures(key_leq());
    b.lemma_sort_by_ensures(key_leq());
    lemma_sorted_unique(sorted_keys(a), sorted_keys(b), key_leq());
}

/// The keys in ascending order.
pub fn sort_keys(keys: &Vec<u128>) -> (sorted: Vec<u128>)
    ensures
        sorted@ == sorted_keys(keys@),
        sorted@.to_multiset() == keys@.to_multiset(),
        forall|i: int| 0 <= i < sorted@.len() ==> keys@.contains(#[trigger] sorted@[i]),
{
    let n: usize = keys.len();
    let mut sorted: Vec<u128> = Vec::new();
    let mut i: usize = 0;
    assert(keys@.subrange(0, 0) == Seq::<u128>::empty());
    while i < n
        invariant
            n == keys@.len(),
            i <= n,
            sorted@.len() == i,
            sorted_by(sorted@, key_leq()),
            sorted@.to_multiset() == keys@.subrange(0, i as int).to_multiset(),
        decreases n - i,
    {
        let key: u128 = keys[i];
        let mut j: usize = 0;
        while j < sorted.len() && sorted[j] <= key
            invariant
                j <= sorted@.len(),
                forall|k: int| 0 <= k < j ==> sorted@[k] <= key,
            decreases sorted@.len() - j,
        {
            j += 1;
        }
        let ghost before = sorted@;
        sorted.insert(j, key);
        proof {
            broadcast use vstd::seq_lib::group_to_multiset_ensures;

            assert(sorted@ == before.insert(j as int, key));
            assert(keys@.subrange(0, i + 1) == keys@.subrange(0, i as int).push(key));
            assert forall|a: int, b: int| 0 <= a < b < sorted@.len() implies key_leq()(
                sorted@[a],
                sorted@[b],
            ) by {
                if a < j && b > j {
                    assert(key_leq()(before[a], before[b - 1]));
                } else if a < j && b < j {
                    assert(key_leq()(before[a], before[b]));
                } else if a > j {
                    assert(key_leq()(before[a - 1], before[b - 1]));
                } else if a == j {
                    assert(before[j as int] > key);
                    assert(key_leq()(before[j as int], before[b - 1]) || b - 1 == j);
                }
            }
        }
        i += 1;
    }
    proof {
        assert(keys@.subrange(0, n as int) == keys@);
        lemma_key_order_is_total();
        keys@.lemma_sort_by_ensures(key_leq());
        lemma_sorted_unique(sorted@, sorted_keys(keys@), key_leq());
        assert forall|i: int| 0 <= i < sorted@.len() implies keys@.contains(
            #[trigger] sorted@[i],
        ) by {
            assert(sorted@.contains(sorted@[i]));
        }
    }
    sorted
}

} // verus!
