//! What the queries ask for, in which order, and what visitors and the
//! administrator see of it over several requests.
//!
//! As with the table, the store runs the queries; that it answers them as they
//! ask is not proved.

use crate::admin::toggled_row;
use crate::author::by_admin;
use crate::comments::{
    insert_statement, rendered, stored_comment, submission, threads_page, NewCommentView,
    NO_COMMENTS,
};
use crate::models::{CommentView, FormView};
use crate::pages::admin_row;
use crate::reply::{html, OK};
use crate::rows::{
    distinct_ids, lemma_filter_distinct, lemma_filter_keeps_order, lemma_filtered,
    lemma_no_duplicates, lemma_one_order, lemma_same_rows, lemma_same_rows_distinct,
    lemma_same_rows_filtered, lemma_without_one, same_rows, stands_before, without,
};
use crate::store::{
    with_text, StatementView, DELETE, SELECT_APPROVED, SELECT_LATEST, SELECT_ONE, TOGGLE,
};
use crate::table::{
    after, after_submission, approved_of, flipped, law_approved_comments_join_their_page,
    law_deleted_comments_leave_their_page, law_hidden_comments_leave_their_page,
    law_only_the_administrator_adds_approved_comments, law_second_toggle_restores_the_table,
    law_stored_comments_stand_in_the_table, lemma_delete, lemma_toggle, lemma_toggled_rows,
    text_of, toggled,
};
use crate::threads::{
    law_absent_comment_is_cut_out_with_its_replies,
    law_absent_reply_is_cut_out_beneath_its_parent, thread, thread_without, threads_of, top_level,
    RenderedView,
};
use crate::time::Civil;
use vstd::prelude::*;

verus! {

/// Whether no comment of a list is older than one that stands after it.
pub open spec fn newest_first(rows: Seq<CommentView>) -> bool {
    forall|i: int, j: int|
        0 <= i < j < rows.len() ==> !(#[trigger] rows[i]).created_at.before(
            (#[trigger] rows[j]).created_at,
        )
}

/// Whether `rows` are the latest comments of a table: a hundred, or all where
/// there are fewer, newest first, and none that is left out is newer than one
/// that is listed.
pub open spec fn latest(table: Seq<CommentView>, rows: Seq<CommentView>) -> bool {
    &&& rows.len() == if table.len() <= 100 {
        table.len()
    } else {
        100
    }
    &&& rows.to_multiset().subset_of(table.to_multiset())
    &&& newest_first(rows)
    &&& forall|c: CommentView, i: int|
        #![trigger table.to_multiset().count(c), rows[i]]
        0 <= i < rows.len() && table.to_multiset().count(c) > rows.to_multiset().count(c)
            ==> !rows[i].created_at.before(c.created_at)
}

/// Whether a query may be answered with `rows`. Comments of the same time may
/// stand in either order, and either may be left out where not all are listed.
pub open spec fn answers(
    table: Seq<CommentView>,
    query: StatementView,
    rows: Seq<CommentView>,
) -> bool {
    if query.sql == SELECT_APPROVED@ {
        &&& same_rows(rows, approved_of(table, text_of(query.values[0])->0))
        &&& newest_first(rows)
    } else if query.sql == SELECT_LATEST@ {
        latest(table, rows)
    } else if query.sql == SELECT_ONE@ {
        same_rows(rows, table.filter(|c: CommentView| c.id == text_of(query.values[0])->0))
    } else {
        rows.len() == 0
    }
}

/// The one row that is fetched of an answer: its first.
pub open spec fn fetched(rows: Seq<CommentView>) -> Option<CommentView> {
    if rows.len() == 0 {
        None
    } else {
        Some(rows[0])
    }
}

/// Whether `fetched` is a row with some id, or nothing where there is none.
pub open spec fn is_row_with(
    table: Seq<CommentView>,
    id: Seq<char>,
    fetched: Option<CommentView>,
) -> bool {
    match fetched {
        Some(c) => table.contains(c) && c.id == id,
        None => forall|i: int| 0 <= i < table.len() ==> (#[trigger] table[i]).id != id,
    }
}

/// Whether two lists put comments of the same time in the same order.
pub open spec fn keeps_ties(a: Seq<CommentView>, b: Seq<CommentView>) -> bool {
    forall|c: CommentView, d: CommentView| #[trigger]
        stands_before(a, c, d) && #[trigger] stands_before(b, d, c) ==> c.created_at
            != d.created_at
}

/// Whether no two comments of a list have the same time.
pub open spec fn times_differ(rows: Seq<CommentView>) -> bool {
    forall|i: int, j: int|
        0 <= i < j < rows.len() ==> (#[trigger] rows[i]).created_at != (
        #[trigger] rows[j]).created_at
}

/// The query for the latest comments.
pub open spec fn latest_query() -> StatementView {
    StatementView { sql: SELECT_LATEST@, values: Seq::empty() }
}

/// The queries are told apart by their text.
proof fn lemma_texts_differ()
    ensures
        SELECT_APPROVED@ != SELECT_LATEST@,
        SELECT_APPROVED@ != SELECT_ONE@,
        SELECT_LATEST@ != SELECT_ONE@,
{
    reveal_strlit(
        "SELECT id, post_slug, author_name, author_email, content, is_approved, created_at, parent_id FROM comments WHERE post_slug = ? AND is_approved = 1 ORDER BY created_at DESC",
    );
    reveal_strlit(
        "SELECT id, post_slug, author_name, author_email, content, is_approved, created_at, parent_id FROM comments ORDER BY created_at DESC LIMIT 100",
    );
    reveal_strlit(
        "SELECT id, post_slug, author_name, author_email, content, is_approved, created_at, parent_id FROM comments WHERE id = ?",
    );
    assert(SELECT_APPROVED@.len() != SELECT_LATEST@.len());
    assert(SELECT_APPROVED@.len() != SELECT_ONE@.len());
    assert(SELECT_LATEST@.len() != SELECT_ONE@.len());
}

/// What a list says of two comments of which one stands before the other.
proof fn lemma_newest_first(rows: Seq<CommentView>, c: CommentView, d: CommentView)
    requires
        newest_first(rows),
        stands_before(rows, c, d),
    ensures
        !c.created_at.before(d.created_at),
{
    let (i, j) = choose|i: int, j: int|
        0 <= i < j < rows.len() && #[trigger] rows[i] == c && #[trigger] rows[j] == d;
    assert(!rows[i].created_at.before(rows[j].created_at));
}

/// Two lists of the same comments, newest first, are the same where they put
/// comments of the same time in the same order.
proof fn lemma_same_list(a: Seq<CommentView>, b: Seq<CommentView>)
    requires
        distinct_ids(a),
        same_rows(a, b),
        newest_first(a),
        newest_first(b),
        keeps_ties(a, b),
    ensures
        a == b,
{
    lemma_same_rows(a, b);
    lemma_same_rows_distinct(a, b);
    lemma_no_duplicates(a);
    lemma_no_duplicates(b);
    assert forall|c: CommentView, d: CommentView| #[trigger]
        stands_before(a, c, d) implies !stands_before(b, d, c) by {
        if stands_before(b, d, c) {
            lemma_newest_first(a, c, d);
            lemma_newest_first(b, d, c);
        }
    }
    lemma_one_order(a, b);
}

/// A list without the comments that a filter takes away is newest first still.
proof fn lemma_newest_first_filtered(
    rows: Seq<CommentView>,
    pred: spec_fn(CommentView) -> bool,
)
    requires
        newest_first(rows),
    ensures
        newest_first(rows.filter(pred)),
{
    let left = rows.filter(pred);
    assert forall|i: int, j: int| 0 <= i < j < left.len() implies !(
    #[trigger] left[i]).created_at.before((#[trigger] left[j]).created_at) by {
        assert(stands_before(left, left[i], left[j]));
        lemma_filter_keeps_order(rows, pred, left[i], left[j]);
        lemma_newest_first(rows, left[i], left[j]);
    }
}

/// Where no two approved comments of a page have the same time, the visitors'
/// query has one answer.
pub proof fn law_different_times_leave_one_answer(
    table: Seq<CommentView>,
    slug: Seq<char>,
    rows: Seq<CommentView>,
    others: Seq<CommentView>,
)
    requires
        distinct_ids(table),
        answers(table, with_text(SELECT_APPROVED@, slug), rows),
        answers(table, with_text(SELECT_APPROVED@, slug), others),
        times_differ(rows),
    ensures
        others == rows,
{
    let approved = approved_of(table, slug);
    lemma_filter_distinct(table, |c: CommentView| c.post_slug == slug && c.is_approved);
    lemma_same_rows_distinct(approved, rows);
    lemma_times_settle_ties(rows, others);
    lemma_same_list(rows, others);
}

/// Where all times differ there are no ties.
proof fn lemma_times_settle_ties(rows: Seq<CommentView>, others: Seq<CommentView>)
    requires
        times_differ(rows),
    ensures
        keeps_ties(rows, others),
{
    assert forall|c: CommentView, d: CommentView| #[trigger]
        stands_before(rows, c, d) && #[trigger] stands_before(others, d, c) implies c.created_at
        != d.created_at by {
        let (i, j) = choose|i: int, j: int|
            0 <= i < j < rows.len() && #[trigger] rows[i] == c && #[trigger] rows[j] == d;
        assert(rows[i].created_at != rows[j].created_at);
    }
}

/// A form of anyone but the administrator changes nothing in what visitors see,
/// of any page: whether it is taken for a machine's, refused, stored or lost. The
/// query may be answered as before and in no other way. Where the store keeps
/// comments of the same time in their order, the page is the same.
pub proof fn law_comments_awaiting_moderation_do_not_show(
    table: Seq<CommentView>,
    form: FormView,
    author_name: Seq<char>,
    content: Seq<char>,
    id: Seq<char>,
    admin_email: Seq<char>,
    saved_at: Option<Civil>,
    slug: Seq<char>,
    rows: Seq<CommentView>,
    then: Seq<CommentView>,
)
    requires
        !by_admin(form.author_email, admin_email),
    ensures
        ({
            let taken = submission(form, author_name, content, id, admin_email);
            let now = after_submission(table, taken, saved_at);
            let query = with_text(SELECT_APPROVED@, slug);
            &&& answers(now, query, rows) <==> answers(table, query, rows)
            &&& distinct_ids(table) && answers(table, query, rows) && answers(now, query, then)
                && keeps_ties(rows, then) ==> threads_page(rendered(then), admin_email)
                == threads_page(rendered(rows), admin_email)
        }),
{
    law_only_the_administrator_adds_approved_comments(
        table,
        form,
        author_name,
        content,
        id,
        admin_email,
        saved_at,
        slug,
    );
    let taken = submission(form, author_name, content, id, admin_email);
    let now = after_submission(table, taken, saved_at);
    let query = with_text(SELECT_APPROVED@, slug);
    if distinct_ids(table) && answers(table, query, rows) && answers(now, query, then)
        && keeps_ties(rows, then) {
        lemma_filter_distinct(table, |c: CommentView| c.post_slug == slug && c.is_approved);
        lemma_same_rows_distinct(approved_of(table, slug), rows);
        lemma_same_list(rows, then);
    }
}

/// Whether the page of `left` is the page of `rows` with one comment cut out of
/// the list. Where it is a top-level comment, its item and the items of all
/// replies to it are cut out of the page, and the rest stays in its order; where
/// no comment is left, the page says so. Where it is a reply, the page has the
/// same threads in the same order, but for the item of that reply.
pub open spec fn cut_out(
    rows: Seq<CommentView>,
    left: Seq<CommentView>,
    c: CommentView,
    admin_email: Seq<char>,
) -> bool {
    let k = rows.index_of(c);
    let items = rendered(rows);
    let rest = rendered(left);
    let above = threads_of(items.take(k), rest, admin_email);
    let below = threads_of(items.skip(k + 1), rest, admin_email);
    &&& rows.contains(c)
    &&& left == rows.remove(k)
    &&& c.parent_id is None ==> {
        &&& threads_page(items, admin_email) == html(
            OK,
            above + thread(items, items[k], admin_email) + below,
        )
        &&& threads_page(rest, admin_email) == html(
            OK,
            if left.len() == 0 {
                NO_COMMENTS@
            } else {
                above + below
            },
        )
    }
    &&& c.parent_id is Some ==> {
        &&& top_level(rest) == top_level(items)
        &&& forall|parent: RenderedView| #[trigger] thread_without(items, k, parent, admin_email)
    }
}

/// A list without one of its comments has a page with that comment cut out.
proof fn lemma_cut_out(rows: Seq<CommentView>, c: CommentView, admin_email: Seq<char>)
    requires
        distinct_ids(rows),
        rows.contains(c),
    ensures
        cut_out(rows, without(rows, c.id), c, admin_email),
{
    let k = rows.index_of(c);
    let left = rows.remove(k);
    lemma_without_one(rows, k);
    assert(rendered(left) =~= rendered(rows).remove(k));
    if c.parent_id is None {
        assert(rendered(rows)[k].comment == c);
        law_absent_comment_is_cut_out_with_its_replies(rendered(rows), k, admin_email);
    } else {
        let items = rendered(rows);
        assert(items[k].comment == c);
        law_absent_reply_is_cut_out_beneath_its_parent(items, k, items[k], admin_email);
        assert forall|parent: RenderedView| #[trigger]
            thread_without(items, k, parent, admin_email) by {
            law_absent_reply_is_cut_out_beneath_its_parent(items, k, parent, admin_email);
        }
    }
}

/// Where the approved comments of a page have lost one, so has every list that
/// keeps comments of the same time in their order.
proof fn lemma_left(
    approved: Seq<CommentView>,
    c: CommentView,
    rows: Seq<CommentView>,
    left: Seq<CommentView>,
    admin_email: Seq<char>,
)
    requires
        distinct_ids(approved),
        approved.contains(c),
        same_rows(rows, approved),
        newest_first(rows),
        same_rows(left, without(approved, c.id)),
        newest_first(left),
        keeps_ties(rows, left),
    ensures
        cut_out(rows, left, c, admin_email),
{
    let pred = |d: CommentView| d.id != c.id;
    let rest = rows.filter(pred);
    lemma_same_rows(rows, approved);
    lemma_same_rows_distinct(approved, rows);
    lemma_same_rows_filtered(rows, approved, pred);
    lemma_filter_distinct(rows, pred);
    lemma_newest_first_filtered(rows, pred);
    assert(keeps_ties(rest, left)) by {
        assert forall|d: CommentView, e: CommentView| #[trigger]
            stands_before(rest, d, e) && #[trigger] stands_before(left, e, d) implies d.created_at
            != e.created_at by {
            lemma_filter_keeps_order(rows, pred, d, e);
        }
    }
    lemma_same_list(rest, left);
    lemma_cut_out(rows, c, admin_email);
}

/// Hiding an approved comment cuts it out of its page: a top-level comment with
/// all replies to it. `rows` is an answer to the visitors' query before, and
/// `left` one after; the store keeps comments of the same time in their order.
pub proof fn law_hiding_a_comment_cuts_it_out_of_its_page(
    table: Seq<CommentView>,
    c: CommentView,
    now: Civil,
    rows: Seq<CommentView>,
    left: Seq<CommentView>,
    admin_email: Seq<char>,
)
    requires
        distinct_ids(table),
        table.contains(c),
        c.is_approved,
        answers(table, with_text(SELECT_APPROVED@, c.post_slug), rows),
        answers(
            after(table, with_text(TOGGLE@, c.id), now),
            with_text(SELECT_APPROVED@, c.post_slug),
            left,
        ),
        keeps_ties(rows, left),
    ensures
        cut_out(rows, left, c, admin_email),
{
    let slug = c.post_slug;
    let shows = |d: CommentView| d.post_slug == slug && d.is_approved;
    law_hidden_comments_leave_their_page(table, c, now, slug);
    lemma_filter_distinct(table, shows);
    lemma_filtered(table, shows, c);
    lemma_left(approved_of(table, slug), c, rows, left, admin_email);
}

/// The visitors' query may be answered with the list of before, without the
/// comment that was hidden or deleted.
pub proof fn law_list_without_a_comment_is_an_answer(
    table: Seq<CommentView>,
    c: CommentView,
    now: Civil,
    slug: Seq<char>,
    rows: Seq<CommentView>,
)
    requires
        answers(table, with_text(SELECT_APPROVED@, slug), rows),
    ensures
        answers(
            after(table, with_text(DELETE@, c.id), now),
            with_text(SELECT_APPROVED@, slug),
            without(rows, c.id),
        ),
        distinct_ids(table) && table.contains(c) && c.is_approved ==> answers(
            after(table, with_text(TOGGLE@, c.id), now),
            with_text(SELECT_APPROVED@, slug),
            without(rows, c.id),
        ),
{
    let pred = |d: CommentView| d.id != c.id;
    lemma_same_rows_filtered(rows, approved_of(table, slug), pred);
    lemma_newest_first_filtered(rows, pred);
    law_deleted_comments_leave_their_page(table, c.id, now, slug);
    if distinct_ids(table) && table.contains(c) && c.is_approved {
        law_hidden_comments_leave_their_page(table, c, now, slug);
    }
}

/// Approving a pending comment puts it on its page, a top-level comment with all
/// approved replies to it: without it, the page is the one of before. `rows` is an
/// answer to the visitors' query before, and `then` one after; the store keeps
/// comments of the same time in their order.
pub proof fn law_approving_a_comment_puts_it_on_its_page(
    table: Seq<CommentView>,
    c: CommentView,
    now: Civil,
    rows: Seq<CommentView>,
    then: Seq<CommentView>,
    admin_email: Seq<char>,
)
    requires
        distinct_ids(table),
        table.contains(c),
        !c.is_approved,
        answers(table, with_text(SELECT_APPROVED@, c.post_slug), rows),
        answers(
            after(table, with_text(TOGGLE@, c.id), now),
            with_text(SELECT_APPROVED@, c.post_slug),
            then,
        ),
        keeps_ties(then, rows),
    ensures
        cut_out(then, rows, flipped(c), admin_email),
{
    lemma_toggle(table, c.id, now);
    lemma_toggled_rows(table, c);
    law_second_toggle_restores_the_table(table, c.id, now, now);
    law_hiding_a_comment_cuts_it_out_of_its_page(
        toggled(table, c.id),
        flipped(c),
        now,
        then,
        rows,
        admin_email,
    );
}

/// A change of approval changes nothing on other pages: the visitors' query may
/// be answered as before and in no other way.
pub proof fn law_toggle_leaves_other_pages_alone(
    table: Seq<CommentView>,
    c: CommentView,
    now: Civil,
    slug: Seq<char>,
    rows: Seq<CommentView>,
)
    requires
        distinct_ids(table),
        table.contains(c),
        c.post_slug != slug,
    ensures
        answers(
            after(table, with_text(TOGGLE@, c.id), now),
            with_text(SELECT_APPROVED@, slug),
            rows,
        ) <==> answers(table, with_text(SELECT_APPROVED@, slug), rows),
{
    let once = toggled(table, c.id);
    lemma_toggle(table, c.id, now);
    lemma_toggled_rows(table, c);
    if c.is_approved {
        law_hidden_comments_leave_their_page(table, c, now, slug);
        lemma_not_on_page(table, c, slug);
    } else {
        law_approved_comments_join_their_page(table, c, now, slug);
        lemma_not_on_page(once, flipped(c), slug);
    }
}

/// A comment is not among the approved ones of another page.
proof fn lemma_not_on_page(table: Seq<CommentView>, c: CommentView, slug: Seq<char>)
    requires
        distinct_ids(table),
        table.contains(c),
        c.post_slug != slug,
    ensures
        without(approved_of(table, slug), c.id) == approved_of(table, slug),
{
    let approved = approved_of(table, slug);
    let shows = |d: CommentView| d.post_slug == slug && d.is_approved;
    assert forall|i: int| 0 <= i < approved.len() implies (#[trigger] approved[i]).id != c.id by {
        let d = approved[i];
        assert(approved.contains(d));
        lemma_filtered(table, shows, d);
        if d.id == c.id {
            lemma_one_row(table, c, d);
        }
    }
    lemma_nothing_to_leave_out(approved, c.id);
}

proof fn lemma_nothing_to_leave_out(rows: Seq<CommentView>, id: Seq<char>)
    requires
        forall|i: int| 0 <= i < rows.len() ==> (#[trigger] rows[i]).id != id,
    ensures
        without(rows, id) == rows,
    decreases rows.len(),
{
    reveal(Seq::filter);
    if rows.len() > 0 {
        let rest = rows.drop_last();
        assert forall|i: int| 0 <= i < rest.len() implies (#[trigger] rest[i]).id != id by {
            assert(rest[i] == rows[i]);
        }
        lemma_nothing_to_leave_out(rest, id);
        assert(rows[rows.len() - 1].id != id);
        assert(rest.push(rows.last()) == rows);
    }
}

/// Of rows with different ids, an id tells the row.
proof fn lemma_one_row(table: Seq<CommentView>, c: CommentView, d: CommentView)
    requires
        distinct_ids(table),
        table.contains(c),
        table.contains(d),
        c.id == d.id,
    ensures
        c == d,
{
    let i = choose|i: int| 0 <= i < table.len() && table[i] == c;
    let j = choose|j: int| 0 <= j < table.len() && table[j] == d;
    if i < j {
        assert(table[i].id != table[j].id);
    } else if j < i {
        assert(table[j].id != table[i].id);
    }
}

/// Deleting an approved comment cuts it out of its page, as hiding it does.
pub proof fn law_deleting_a_comment_cuts_it_out_of_its_page(
    table: Seq<CommentView>,
    c: CommentView,
    now: Civil,
    rows: Seq<CommentView>,
    left: Seq<CommentView>,
    admin_email: Seq<char>,
)
    requires
        distinct_ids(table),
        table.contains(c),
        c.is_approved,
        answers(table, with_text(SELECT_APPROVED@, c.post_slug), rows),
        answers(
            after(table, with_text(DELETE@, c.id), now),
            with_text(SELECT_APPROVED@, c.post_slug),
            left,
        ),
        keeps_ties(rows, left),
    ensures
        cut_out(rows, left, c, admin_email),
{
    let slug = c.post_slug;
    let shows = |d: CommentView| d.post_slug == slug && d.is_approved;
    law_deleted_comments_leave_their_page(table, c.id, now, slug);
    lemma_filter_distinct(table, shows);
    lemma_filtered(table, shows, c);
    lemma_left(approved_of(table, slug), c, rows, left, admin_email);
}

/// The row that is fetched for an id has that id; there is none only where no
/// comment has it.
pub proof fn law_fetched_row_has_the_id(
    table: Seq<CommentView>,
    id: Seq<char>,
    rows: Seq<CommentView>,
)
    requires
        answers(table, with_text(SELECT_ONE@, id), rows),
    ensures
        is_row_with(table, id, fetched(rows)),
{
    lemma_texts_differ();
    let query = with_text(SELECT_ONE@, id);
    let matches = |c: CommentView| c.id == text_of(query.values[0])->0;
    let found = table.filter(matches);
    lemma_same_rows(rows, found);
    if rows.len() > 0 {
        assert(rows.contains(rows[0]));
        lemma_filtered(table, matches, rows[0]);
    } else {
        assert forall|i: int| 0 <= i < table.len() implies (#[trigger] table[i]).id != id by {
            lemma_filtered(table, matches, table[i]);
            if table[i].id == id {
                assert(table.contains(table[i]));
                assert(found.contains(table[i]));
            }
        }
    }
}

/// The row that is fetched for the id of a comment is that comment.
proof fn lemma_fetched(table: Seq<CommentView>, c: CommentView, rows: Seq<CommentView>)
    requires
        distinct_ids(table),
        table.contains(c),
        answers(table, with_text(SELECT_ONE@, c.id), rows),
    ensures
        fetched(rows) == Some(c),
{
    law_fetched_row_has_the_id(table, c.id, rows);
    if rows.len() > 0 {
        lemma_one_row(table, c, rows[0]);
    } else {
        let i = choose|i: int| 0 <= i < table.len() && table[i] == c;
        assert(table[i].id != c.id);
    }
}

/// A change of approval is answered with the row of the comment as it now is,
/// and a second one with the row that stood there at first. `once` and `twice`
/// are the answers to the query for the comment after the first and the second.
pub proof fn law_second_toggle_shows_the_first_row_again(
    table: Seq<CommentView>,
    c: CommentView,
    first: Civil,
    second: Civil,
    once: Seq<CommentView>,
    twice: Seq<CommentView>,
)
    requires
        distinct_ids(table),
        table.contains(c),
        ({
            let statement = with_text(TOGGLE@, c.id);
            let then = after(table, statement, first);
            &&& answers(then, with_text(SELECT_ONE@, c.id), once)
            &&& answers(after(then, statement, second), with_text(SELECT_ONE@, c.id), twice)
        }),
    ensures
        toggled_row(fetched(once)) == html(OK, admin_row(flipped(c))),
        toggled_row(fetched(twice)) == html(OK, admin_row(c)),
{
    lemma_toggle(table, c.id, first);
    lemma_toggled_rows(table, c);
    law_second_toggle_restores_the_table(table, c.id, first, second);
    lemma_fetched(table, c, twice);
    lemma_fetched(toggled(table, c.id), flipped(c), once);
}

/// What is listed stands in the table.
proof fn lemma_listed(table: Seq<CommentView>, rows: Seq<CommentView>, c: CommentView)
    requires
        latest(table, rows),
        rows.contains(c),
    ensures
        table.contains(c),
{
    table.to_multiset_ensures();
    rows.to_multiset_ensures();
    assert(rows.to_multiset().count(c) > 0);
    assert(rows.to_multiset().count(c) <= table.to_multiset().count(c));
}

/// A table of at most a hundred comments is listed as a whole.
pub proof fn law_small_tables_are_listed_whole(table: Seq<CommentView>, rows: Seq<CommentView>)
    requires
        table.len() <= 100,
        answers(table, latest_query(), rows),
    ensures
        same_rows(rows, table),
        newest_first(rows),
{
    lemma_texts_differ();
    table.to_multiset_ensures();
    rows.to_multiset_ensures();
    let all = table.to_multiset();
    let listed = rows.to_multiset();
    let missing = all.sub(listed);
    assert(missing.len() == 0);
    assert forall|c: CommentView| #[trigger] all.count(c) == listed.count(c) by {
        assert(missing.count(c) == 0);
    }
    assert(all =~= listed);
}

/// A comment that was stored after all others stands first in the moderation
/// table.
pub proof fn law_newest_comment_stands_first(
    table: Seq<CommentView>,
    c: NewCommentView,
    now: Civil,
    rows: Seq<CommentView>,
)
    requires
        forall|i: int| 0 <= i < table.len() ==> (#[trigger] table[i]).created_at.before(now),
        answers(after(table, insert_statement(c), now), latest_query(), rows),
    ensures
        rows.len() > 0,
        rows[0] == stored_comment(c, now),
{
    lemma_texts_differ();
    law_stored_comments_stand_in_the_table(table, c, now);
    let new = stored_comment(c, now);
    let then = table.push(new);
    assert(then.last() == new);
    assert(then.contains(new));
    then.to_multiset_ensures();
    rows.to_multiset_ensures();
    assert(then.to_multiset().count(new) > 0);
    assert(rows.contains(rows[0]));
    lemma_listed(then, rows, rows[0]);
    if rows[0] != new {
        let i = choose|i: int| 0 <= i < then.len() && then[i] == rows[0];
        assert(table[i].created_at.before(now));
        if rows.contains(new) {
            let k = choose|k: int| 0 <= k < rows.len() && rows[k] == new;
            assert(!rows[0].created_at.before(rows[k].created_at));
        } else {
            assert(rows.to_multiset().count(new) == 0);
            assert(!rows[0].created_at.before(new.created_at));
        }
    }
}

/// A deleted comment is listed nowhere: not in the moderation table, and on no
/// page.
pub proof fn law_deleted_comments_are_not_listed(
    table: Seq<CommentView>,
    id: Seq<char>,
    now: Civil,
    slug: Seq<char>,
    rows: Seq<CommentView>,
    i: int,
)
    requires
        ({
            let then = after(table, with_text(DELETE@, id), now);
            ||| answers(then, latest_query(), rows)
            ||| answers(then, with_text(SELECT_APPROVED@, slug), rows)
        }),
        0 <= i < rows.len(),
    ensures
        rows[i].id != id,
{
    lemma_texts_differ();
    lemma_delete(table, id, now);
    let then = without(table, id);
    let c = rows[i];
    assert(rows.contains(c));
    if answers(then, latest_query(), rows) {
        lemma_listed(then, rows, c);
    } else {
        lemma_same_rows(rows, approved_of(then, slug));
        lemma_filtered(then, |d: CommentView| d.post_slug == slug && d.is_approved, c);
    }
    lemma_filtered(table, |d: CommentView| d.id != id, c);
}

} // verus!
