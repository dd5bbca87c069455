//! Lists of rows: what is left of them after a filter, and when two of them hold
//! the same rows in the same order.

use crate::models::CommentView;
use vstd::prelude::*;

verus! {

/// Whether two lists hold the same rows, each as often, in whatever order.
pub open spec fn same_rows(a: Seq<CommentView>, b: Seq<CommentView>) -> bool {
    a.to_multiset() == b.to_multiset()
}

/// Whether `c` stands before `d` in a list.
pub open spec fn stands_before(rows: Seq<CommentView>, c: CommentView, d: CommentView) -> bool {
    exists|i: int, j: int|
        0 <= i < j < rows.len() && #[trigger] rows[i] == c && #[trigger] rows[j] == d
}

/// Whether no two comments have the same id.
pub open spec fn distinct_ids(rows: Seq<CommentView>) -> bool {
    forall|i: int, j: int|
        0 <= i < j < rows.len() ==> (#[trigger] rows[i]).id != (#[trigger] rows[j]).id
}

/// The rows without those that have some id.
pub open spec fn without(rows: Seq<CommentView>, id: Seq<char>) -> Seq<CommentView> {
    rows.filter(|c: CommentView| c.id != id)
}

/// What a filter leaves is what passes it.
pub proof fn lemma_filtered(
    rows: Seq<CommentView>,
    pred: spec_fn(CommentView) -> bool,
    c: CommentView,
)
    ensures
        rows.filter(pred).contains(c) <==> rows.contains(c) && pred(c),
{
    let left = rows.filter(pred);
    if left.contains(c) {
        let i = choose|i: int| 0 <= i < left.len() && left[i] == c;
        rows.lemma_filter_pred(pred, i);
        rows.lemma_filter_contains_rev(pred, c);
    }
    if rows.contains(c) && pred(c) {
        let i = choose|i: int| 0 <= i < rows.len() && rows[i] == c;
        rows.lemma_filter_contains(pred, i);
    }
}

/// A filter leaves each row that passes as often as it was there.
pub proof fn lemma_filtered_count(
    rows: Seq<CommentView>,
    pred: spec_fn(CommentView) -> bool,
    c: CommentView,
)
    ensures
        rows.filter(pred).to_multiset().count(c) == if pred(c) {
            rows.to_multiset().count(c)
        } else {
            0
        },
    decreases rows.len(),
{
    reveal(Seq::filter);
    if rows.len() > 0 {
        let rest = rows.drop_last();
        let last = rows.last();
        lemma_filtered_count(rest, pred, c);
        assert(rows == rest.push(last));
        rest.to_multiset_ensures();
        rest.filter(pred).to_multiset_ensures();
    } else {
        rows.to_multiset_ensures();
        assert(!rows.contains(c));
    }
}

/// Lists of the same rows have the same rows left after a filter.
pub proof fn lemma_same_rows_filtered(
    a: Seq<CommentView>,
    b: Seq<CommentView>,
    pred: spec_fn(CommentView) -> bool,
)
    requires
        same_rows(a, b),
    ensures
        same_rows(a.filter(pred), b.filter(pred)),
{
    assert forall|c: CommentView| #[trigger]
        a.filter(pred).to_multiset().count(c) == b.filter(pred).to_multiset().count(c) by {
        lemma_filtered_count(a, pred, c);
        lemma_filtered_count(b, pred, c);
    }
    assert(a.filter(pred).to_multiset() =~= b.filter(pred).to_multiset());
}

/// Lists of the same rows are equally long and hold the same.
pub proof fn lemma_same_rows(a: Seq<CommentView>, b: Seq<CommentView>)
    requires
        same_rows(a, b),
    ensures
        a.len() == b.len(),
        forall|c: CommentView| #[trigger] a.contains(c) <==> b.contains(c),
{
    a.to_multiset_ensures();
    b.to_multiset_ensures();
    assert forall|c: CommentView| #[trigger] a.contains(c) <==> b.contains(c) by {
        assert(a.to_multiset().count(c) == b.to_multiset().count(c));
    }
}

/// A list of rows with different ids holds none twice.
pub proof fn lemma_no_duplicates(rows: Seq<CommentView>)
    requires
        distinct_ids(rows),
    ensures
        rows.no_duplicates(),
{
    assert forall|i: int, j: int| 0 <= i < rows.len() && 0 <= j < rows.len() && i != j implies rows[i]
        != rows[j] by {
        if i < j {
            assert(rows[i].id != rows[j].id);
        } else {
            assert(rows[j].id != rows[i].id);
        }
    }
}

/// Lists of the same rows have different ids both or neither.
pub proof fn lemma_same_rows_distinct(a: Seq<CommentView>, b: Seq<CommentView>)
    requires
        same_rows(a, b),
        distinct_ids(a),
    ensures
        distinct_ids(b),
{
    lemma_same_rows(a, b);
    lemma_no_duplicates(a);
    a.lemma_multiset_has_no_duplicates();
    b.lemma_multiset_has_no_duplicates_conv();
    assert forall|i: int, j: int| 0 <= i < j < b.len() implies (#[trigger] b[i]).id != (
    #[trigger] b[j]).id by {
        assert(a.contains(b[i]));
        assert(a.contains(b[j]));
        let k = choose|k: int| 0 <= k < a.len() && a[k] == b[i];
        let l = choose|l: int| 0 <= l < a.len() && a[l] == b[j];
        assert(b[i] != b[j]);
        assert(k != l);
        if k < l {
            assert(a[k].id != a[l].id);
        } else {
            assert(a[l].id != a[k].id);
        }
    }
}

/// A filter leaves rows in the order in which they stood.
pub proof fn lemma_filter_keeps_order(
    rows: Seq<CommentView>,
    pred: spec_fn(CommentView) -> bool,
    c: CommentView,
    d: CommentView,
)
    requires
        stands_before(rows.filter(pred), c, d),
    ensures
        stands_before(rows, c, d),
    decreases rows.len(),
{
    reveal(Seq::filter);
    let left = rows.filter(pred);
    let (i, j) = choose|i: int, j: int|
        0 <= i < j < left.len() && #[trigger] left[i] == c && #[trigger] left[j] == d;
    assert(left[i] == c && left[j] == d);
    if rows.len() > 0 {
        let rest = rows.drop_last();
        let above = rest.filter(pred);
        if j < above.len() {
            assert(above[i] == c && above[j] == d);
            assert(stands_before(above, c, d));
            lemma_filter_keeps_order(rest, pred, c, d);
            let (k, l) = choose|k: int, l: int|
                0 <= k < l < rest.len() && #[trigger] rest[k] == c && #[trigger] rest[l] == d;
            assert(rows[k] == c && rows[l] == d);
        } else {
            assert(pred(rows.last()));
            assert(d == rows.last());
            assert(above[i] == c);
            assert(above.contains(c));
            lemma_filtered(rest, pred, c);
            let k = choose|k: int| 0 <= k < rest.len() && rest[k] == c;
            assert(rows[k] == c && rows[rows.len() - 1] == d);
        }
    }
}

/// A filter leaves ids different.
pub proof fn lemma_filter_distinct(rows: Seq<CommentView>, pred: spec_fn(CommentView) -> bool)
    requires
        distinct_ids(rows),
    ensures
        distinct_ids(rows.filter(pred)),
{
    let left = rows.filter(pred);
    assert forall|i: int, j: int| 0 <= i < j < left.len() implies (#[trigger] left[i]).id != (
    #[trigger] left[j]).id by {
        let c = left[i];
        let d = left[j];
        assert(stands_before(left, c, d));
        lemma_filter_keeps_order(rows, pred, c, d);
        let (k, l) = choose|k: int, l: int|
            0 <= k < l < rows.len() && #[trigger] rows[k] == c && #[trigger] rows[l] == d;
        assert(rows[k].id != rows[l].id);
    }
}

/// Two filters may be applied in either order.
pub proof fn lemma_filters_commute(
    rows: Seq<CommentView>,
    p: spec_fn(CommentView) -> bool,
    q: spec_fn(CommentView) -> bool,
)
    ensures
        rows.filter(p).filter(q) == rows.filter(q).filter(p),
    decreases rows.len(),
{
    reveal(Seq::filter);
    if rows.len() > 0 {
        let rest = rows.drop_last();
        let last = rows.last();
        lemma_filters_commute(rest, p, q);
        assert(rest.filter(p).push(last).drop_last() == rest.filter(p));
        assert(rest.filter(q).push(last).drop_last() == rest.filter(q));
    }
}

/// A filter that all rows pass leaves them all.
proof fn lemma_filter_all(rows: Seq<CommentView>, pred: spec_fn(CommentView) -> bool)
    requires
        forall|i: int| 0 <= i < rows.len() ==> pred(#[trigger] rows[i]),
    ensures
        rows.filter(pred) == rows,
    decreases rows.len(),
{
    reveal(Seq::filter);
    if rows.len() > 0 {
        lemma_filter_all(rows.drop_last(), pred);
        assert(rows.drop_last().push(rows.last()) == rows);
    }
}

/// Of rows with different ids, one id leaves out one row.
pub proof fn lemma_without_one(rows: Seq<CommentView>, k: int)
    requires
        distinct_ids(rows),
        0 <= k < rows.len(),
    ensures
        without(rows, rows[k].id) == rows.remove(k),
{
    let id = rows[k].id;
    let pred = |c: CommentView| c.id != id;
    let x = rows.take(k);
    let y = rows.skip(k + 1);
    assert forall|i: int| 0 <= i < x.len() implies pred(#[trigger] x[i]) by {
        assert(rows[i].id != rows[k].id);
    }
    assert forall|i: int| 0 <= i < y.len() implies pred(#[trigger] y[i]) by {
        assert(rows[k].id != rows[k + 1 + i].id);
    }
    lemma_filter_all(x, pred);
    lemma_filter_all(y, pred);
    assert(x.push(rows[k]).filter(pred) == x) by {
        reveal(Seq::filter);
        assert(x.push(rows[k]).drop_last() == x);
    }
    Seq::filter_distributes_over_add(x.push(rows[k]), y, pred);
    assert(rows == x.push(rows[k]) + y);
    assert(rows.remove(k) == x + y);
}

/// Two lists that hold the same rows, none of them twice, and that put no two of
/// them in a different order are the same list.
pub proof fn lemma_one_order(a: Seq<CommentView>, b: Seq<CommentView>)
    requires
        a.no_duplicates(),
        b.no_duplicates(),
        forall|c: CommentView| #[trigger] a.contains(c) <==> b.contains(c),
        forall|c: CommentView, d: CommentView| #[trigger]
            stands_before(a, c, d) ==> !stands_before(b, d, c),
    ensures
        a == b,
    decreases a.len(),
{
    if a.len() == 0 {
        if b.len() > 0 {
            assert(b.contains(b[0]));
            assert(a.contains(b[0]));
        }
        assert(a =~= b);
    } else {
        assert(a.contains(a[0]));
        assert(b.contains(a[0]));
        assert(b.contains(b[0]));
        assert(a.contains(b[0]));
        let j = choose|j: int| 0 <= j < a.len() && a[j] == b[0];
        let l = choose|l: int| 0 <= l < b.len() && b[l] == a[0];
        if a[0] != b[0] {
            assert(a[0] == a[0] && a[j] == b[0]);
            assert(stands_before(a, a[0], b[0]));
            assert(b[0] == b[0] && b[l] == a[0]);
            assert(stands_before(b, b[0], a[0]));
        }
        let x = a.drop_first();
        let y = b.drop_first();
        assert forall|c: CommentView| #[trigger] x.contains(c) <==> y.contains(c) by {
            lemma_drop_first_contains(a, c);
            lemma_drop_first_contains(b, c);
            assert(a.contains(c) <==> b.contains(c));
        }
        assert forall|c: CommentView, d: CommentView| #[trigger]
            stands_before(x, c, d) implies !stands_before(y, d, c) by {
            lemma_drop_first_order(a, c, d);
            if stands_before(y, d, c) {
                lemma_drop_first_order(b, d, c);
            }
        }
        lemma_one_order(x, y);
        assert(a =~= seq![a[0]] + x);
        assert(b =~= seq![b[0]] + y);
    }
}

proof fn lemma_drop_first_contains(a: Seq<CommentView>, c: CommentView)
    requires
        a.len() > 0,
        a.no_duplicates(),
    ensures
        a.drop_first().contains(c) <==> a.contains(c) && c != a[0],
{
    let x = a.drop_first();
    if x.contains(c) {
        let i = choose|i: int| 0 <= i < x.len() && x[i] == c;
        assert(a[i + 1] == c);
    }
    if a.contains(c) && c != a[0] {
        let i = choose|i: int| 0 <= i < a.len() && a[i] == c;
        assert(x[i - 1] == c);
    }
}

proof fn lemma_drop_first_order(a: Seq<CommentView>, c: CommentView, d: CommentView)
    requires
        a.len() > 0,
        stands_before(a.drop_first(), c, d),
    ensures
        stands_before(a, c, d),
{
    let x = a.drop_first();
    let (i, j) = choose|i: int, j: int|
        0 <= i < j < x.len() && #[trigger] x[i] == c && #[trigger] x[j] == d;
    assert(a[i + 1] == c && a[j + 1] == d);
}

} // verus!
