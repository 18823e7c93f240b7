//! The layer of the move numbers.
//!
//! A point shows the greatest number of the moves played on it, counted
//! from the first move that is to be numbered, and wrapped so that it stays
//! between 1 and 99.

use crate::board::{record_entries, stone_at, Goban, MoveRecord, Point, Stone};
use crate::layers::{key_of_point, point_of_key};
use crate::markup::{append, assign, element_markup, lemma_add_all_step, new_element, Markup};
use crate::options::MakeSvgOptions;
use crate::order::{key_point, point_key, sort_keys, sorted_keys};
use crate::shapes::{draw_move_number, move_number_markup};
use crate::style::GobanStyle;
use vstd::prelude::*;

verus! {

/// The numbers shown lie between 1 and this.
pub const NUMBER_WRAP: u64 = 99;

/// The greatest number of a history, or 0 for an empty one.
pub open spec fn history_max(numbers: Seq<u64>) -> u64
    decreases numbers.len(),
{
    if numbers.len() == 0 {
        0
    } else if numbers.last() > history_max(numbers.drop_last()) {
        numbers.last()
    } else {
        history_max(numbers.drop_last())
    }
}

/// The number shown for move `n` when numbering starts with move `first`:
/// `first` is shown as 1, and after 99 comes 1 again.
pub open spec fn displayed_number(n: u64, first: u64) -> u64 {
    if n >= first {
        ((n - first) % 99 + 1) as u64
    } else {
        0
    }
}

/// Whether the point of a record shows a number: a move was played on it,
/// and its latest move is not before the first numbered one.
pub open spec fn is_shown(record: (Point, Seq<u64>), first: u64) -> bool {
    record.1.len() > 0 && history_max(record.1) >= first
}

/// The key of a record: by its greatest move number, then by its point.
pub open spec fn move_key(record: (Point, Seq<u64>)) -> u128 {
    (history_max(record.1) * 65536 + point_key(record.0)) as u128
}

/// The move number that a key stands for.
pub open spec fn key_number(k: u128) -> u64 {
    (k / 65536) as u64
}

/// The keys of the records that show a number, in the order of the records.
pub open spec fn move_keys(records: Seq<(Point, Seq<u64>)>, first: u64) -> Seq<u128>
    decreases records.len(),
{
    if records.len() == 0 {
        Seq::empty()
    } else if is_shown(records.last(), first) {
        move_keys(records.drop_last(), first).push(move_key(records.last()))
    } else {
        move_keys(records.drop_last(), first)
    }
}

/// The numbers that the keys stand for, as shapes on their points.
pub open spec fn number_shapes(keys: Seq<u128>, first: u64, stones: Seq<Stone>, style: GobanStyle) -> Seq<
    Markup,
> {
    keys.map_values(
        |k: u128|
            move_number_markup(
                key_point(k).0,
                key_point(k).1,
                displayed_number(key_number(k), first),
                stone_at(stones, key_point(k)),
                style,
            ),
    )
}

/// The layer of the move numbers: a group of centred texts that holds the
/// number of every point that shows one, in ascending order of the greatest
/// move number and, among equal ones, of the point.
pub open spec fn move_numbers_layer(
    records: Seq<(Point, Seq<u64>)>,
    first: u64,
    stones: Seq<Stone>,
    style: GobanStyle,
) -> Markup {
    Markup::element("g"@).set("id"@, "move-numbers"@).set("text-anchor"@, "middle"@).add_all(
        number_shapes(sorted_keys(move_keys(records, first)), first, stones, style),
    )
}

/// The greatest number of a history is one of its numbers and no smaller than any of them.
pub proof fn lemma_history_max_is_greatest(numbers: Seq<u64>)
    requires
        numbers.len() > 0,
    ensures
        numbers.contains(history_max(numbers)),
        forall|i: int| 0 <= i < numbers.len() ==> numbers[i] <= history_max(numbers),
    decreases numbers.len(),
{
    let rest = numbers.drop_last();
    if rest.len() > 0 {
        lemma_history_max_is_greatest(rest);
        let w = choose|i: int| 0 <= i < rest.len() && rest[i] == history_max(rest);
        assert(numbers[w] == history_max(rest));
        assert forall|i: int| 0 <= i < numbers.len() implies numbers[i] <= history_max(
            numbers,
        ) by {
            if i < rest.len() {
                assert(rest[i] == numbers[i]);
            }
        }
        if history_max(numbers) != numbers.last() {
            assert(numbers[w] == history_max(numbers));
        }
    } else {
        assert(history_max(rest) == 0);
    }
    if history_max(numbers) == numbers.last() {
        assert(numbers[numbers.len() - 1] == history_max(numbers));
    }
}

/// The order in which the moves on a point were recorded does not matter:
/// two histories that hold the same numbers have the same greatest number,
/// so the point shows the same number and keeps its place in the layer.
pub proof fn lemma_history_order_is_irrelevant(a: Seq<u64>, b: Seq<u64>, first: u64)
    requires
        a.to_multiset() == b.to_multiset(),
    ensures
        history_max(a) == history_max(b),
        displayed_number(history_max(a), first) == displayed_number(history_max(b), first),
{
    broadcast use vstd::seq_lib::group_to_multiset_ensures;

    assert(a.len() == b.len()) by {
        a.to_multiset_ensures();
        b.to_multiset_ensures();
    }
    if a.len() > 0 {
        lemma_history_max_is_greatest(a);
        lemma_history_max_is_greatest(b);
        assert(a.to_multiset().contains(history_max(a)));
        assert(b.contains(history_max(a)));
        assert(b.to_multiset().contains(history_max(b)));
        assert(a.contains(history_max(b)));
    }
}

/// A board whose records differ from another's only in the order of the
/// histories shows the same move numbers.
pub proof fn lemma_move_keys_ignore_history_order(
    r1: Seq<(Point, Seq<u64>)>,
    r2: Seq<(Point, Seq<u64>)>,
    first: u64,
)
    requires
        r1.len() == r2.len(),
        forall|i: int|
            0 <= i < r1.len() ==> r1[i].0 == r2[i].0 && (#[trigger] r1[i]).1.to_multiset()
                == r2[i].1.to_multiset(),
    ensures
        move_keys(r1, first) == move_keys(r2, first),
    decreases r1.len(),
{
    broadcast use vstd::seq_lib::group_to_multiset_ensures;

    if r1.len() > 0 {
        let last = r1.len() - 1;
        assert(r1[last].1.to_multiset() == r2[last].1.to_multiset());
        lemma_history_order_is_irrelevant(r1[last].1, r2[last].1, first);
        assert(r1[last].1.len() == r2[last].1.len()) by {
            r1[last].1.to_multiset_ensures();
            r2[last].1.to_multiset_ensures();
        }
        assert forall|i: int| 0 <= i < r1.drop_last().len() implies r1.drop_last()[i].0
            == r2.drop_last()[i].0 && (#[trigger] r1.drop_last()[i]).1.to_multiset()
            == r2.drop_last()[i].1.to_multiset() by {
            assert(r1.drop_last()[i] == r1[i]);
            assert(r2.drop_last()[i] == r2[i]);
        }
        lemma_move_keys_ignore_history_order(r1.drop_last(), r2.drop_last(), first);
    }
}

/// The number shown stays between 1 and 99, and is the same for two moves
/// that lie 99 apart.
pub proof fn lemma_displayed_number_wraps(n: u64, first: u64)
    requires
        n >= first,
    ensures
        1 <= displayed_number(n, first) <= 99,
        n == first ==> displayed_number(n, first) == 1,
        n + 99 <= u64::MAX ==> displayed_number((n + 99) as u64, first) == displayed_number(
            n,
            first,
        ),
        n - first < 99 ==> displayed_number(n, first) == n - first + 1,
{
}

/// Every key of a record that shows a number stands for a number that is
/// not before the first numbered move.
pub proof fn lemma_move_keys_are_shown(records: Seq<(Point, Seq<u64>)>, first: u64)
    ensures
        forall|i: int|
            0 <= i < move_keys(records, first).len() ==> first <= (#[trigger] move_keys(
                records,
                first,
            )[i]) / 65536 <= u64::MAX,
    decreases records.len(),
{
    if records.len() > 0 {
        let rest = move_keys(records.drop_last(), first);
        lemma_move_keys_are_shown(records.drop_last(), first);
        let last = records.last();
        assert(point_key(last.0) < 65536);
        assert(move_key(last) / 65536 == history_max(last.1));
        assert forall|i: int| 0 <= i < move_keys(records, first).len() implies first <= (
        #[trigger] move_keys(records, first)[i]) / 65536 <= u64::MAX by {
            if i < rest.len() {
                assert(move_keys(records, first)[i] == rest[i]);
            }
        }
    }
}

/// The greatest number of a history, or 0 for an empty one.
pub fn greatest_number(numbers: &Vec<u64>) -> (greatest: u64)
    ensures
        greatest == history_max(numbers@),
{
    let n: usize = numbers.len();
    let mut greatest: u64 = 0;
    let mut i: usize = 0;
    assert(numbers@.subrange(0, 0) == Seq::<u64>::empty());
    while i < n
        invariant
            n == numbers@.len(),
            i <= n,
            greatest == history_max(numbers@.subrange(0, i as int)),
        decreases n - i,
    {
        assert(numbers@.subrange(0, i + 1).drop_last() == numbers@.subrange(0, i as int));
        if numbers[i] > greatest {
            greatest = numbers[i];
        }
        i += 1;
    }
    assert(numbers@.subrange(0, n as int) == numbers@);
    greatest
}

/// The number shown for move `n` when numbering starts with move `first`.
pub fn display_number(n: u64, first: u64) -> (shown: u64)
    ensures
        shown == displayed_number(n, first),
{
    if n >= first {
        (n - first) % NUMBER_WRAP + 1
    } else {
        0
    }
}

/// Draws the move number of every point that shows one.
pub fn build_move_numbers_group(goban: &Goban, options: &MakeSvgOptions) -> (group:
    svg::node::element::Element)
    ensures
        element_markup(group) == move_numbers_layer(
            record_entries(goban.move_numbers@),
            options.first_move_number,
            goban.stones@,
            options.style,
        ),
{
    let style = options.style;
    let first: u64 = options.first_move_number;
    let mut group = new_element("g");
    assign(&mut group, "id", "move-numbers");
    assign(&mut group, "text-anchor", "middle");
    let count: usize = goban.move_numbers.len();
    let mut unsorted: Vec<u128> = Vec::new();
    let mut j: usize = 0;
    let ghost records = record_entries(goban.move_numbers@);
    assert(records.subrange(0, 0) == Seq::<(Point, Seq<u64>)>::empty());
    while j < count
        invariant
            count == goban.move_numbers@.len(),
            j <= count,
            records == record_entries(goban.move_numbers@),
            unsorted@ == move_keys(records.subrange(0, j as int), first),
        decreases count - j,
    {
        let record: &MoveRecord = &goban.move_numbers[j];
        assert(records.subrange(0, j + 1).drop_last() == records.subrange(0, j as int));
        assert(records.subrange(0, j + 1).last() == ((record.x, record.y), record.numbers@));
        if record.numbers.len() > 0 {
            let greatest: u64 = greatest_number(&record.numbers);
            if greatest >= first {
                unsorted.push(greatest as u128 * 65536 + key_of_point((record.x, record.y)));
            }
        }
        j += 1;
    }
    assert(records.subrange(0, count as int) == records);
    let keys = sort_keys(&unsorted);
    let ghost base = element_markup(group);
    let n: usize = keys.len();
    let mut i: usize = 0;
    proof {
        lemma_add_all_step(base, Seq::empty(), base);
        assert(number_shapes(keys@.subrange(0, 0), first, goban.stones@, style) == Seq::<
            Markup,
        >::empty());
        lemma_move_keys_are_shown(records, first);
        assert forall|i: int| 0 <= i < keys@.len() implies first <= (#[trigger] keys@[i]) / 65536
            <= u64::MAX by {
            assert(unsorted@.contains(keys@[i]));
            let w = choose|w: int| 0 <= w < unsorted@.len() && unsorted@[w] == keys@[i];
            assert(first <= unsorted@[w] / 65536 <= u64::MAX);
        }
    }
    while i < n
        invariant
            n == keys@.len(),
            i <= n,
            forall|i: int| 0 <= i < keys@.len() ==> first <= (#[trigger] keys@[i]) / 65536 <= u64::MAX,
            element_markup(group) == base.add_all(
                number_shapes(keys@.subrange(0, i as int), first, goban.stones@, style),
            ),
        decreases n - i,
    {
        let k: u128 = keys[i];
        let p: Point = point_of_key(k);
        let number: u64 = (k / 65536) as u64;
        let color = goban.stone_color(p.0, p.1);
        let shape = draw_move_number(p.0, p.1, display_number(number, first), color, style);
        proof {
            let done = number_shapes(keys@.subrange(0, i as int), first, goban.stones@, style);
            lemma_add_all_step(base, done, element_markup(shape));
            assert(number_shapes(keys@.subrange(0, i + 1), first, goban.stones@, style)
                == done.push(element_markup(shape)));
        }
        append(&mut group, shape);
        i += 1;
    }
    assert(keys@.subrange(0, n as int) == keys@);
    group
}

} // verus!
