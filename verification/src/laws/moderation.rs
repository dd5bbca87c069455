//! What the administrator is answered.

use crate::admin::{
    admin_dashboard, admin_rows, delete_comment, delete_comment_statement, list_admin_comments,
    list_admin_comments_statement, toggle_approve_comment, toggle_approve_comment_statements,
};
use crate::assets::{WIDGET_CSS, WIDGET_JS};
use crate::laws::answers::{answer_is, lemma_answer, page_is};
use crate::laws::posting::binds;
use crate::models::{Comment, CommentView};
use crate::pages::{admin_row, render_admin_row};
use crate::reply::Response;
use crate::store::{Statement, DELETE, SELECT_LATEST, SELECT_ONE, TOGGLE};
use crate::templates::DASHBOARD;
use crate::widget::{serve_css, serve_js};
use vstd::prelude::*;

verus! {

/// The rows of one more comment are those of the others and then its own.
pub proof fn law_rows_grow_by_one(comments: Seq<CommentView>, c: CommentView)
    ensures
        admin_rows(Seq::empty()) == Seq::<char>::empty(),
        admin_rows(comments.push(c)) == admin_rows(comments) + admin_row(c),
{
    let f = |c: CommentView| admin_row(c);
    let none = Seq::<CommentView>::empty();
    assert(none.map_values(f) =~= Seq::<Seq<char>>::empty());
    let parts = comments.push(c).map_values(f);
    assert(parts.drop_last() =~= comments.map_values(f));
    assert(parts.last() == f(c));
}

/// The moderation table has a row for each comment that was fetched, in their
/// order: with one more comment it has one more row at its end, and one comment
/// gives its row alone. Where there is none, or none could be fetched, it says so.
pub proof fn law_table_has_a_row_for_each_comment(
    comments: Vec<Comment>,
    more: Vec<Comment>,
    c: Comment,
    row: String,
    failed: Response,
    r: Response,
    s: Response,
)
    requires
        call_ensures(list_admin_comments, (None::<Vec<Comment>>,), failed),
        call_ensures(list_admin_comments, (Some(comments),), r),
        call_ensures(list_admin_comments, (Some(more),), s),
        more@ == comments@.push(c),
        call_ensures(render_admin_row, (&c,), row),
    ensures
        page_is(
            failed,
            200,
            "<tr><td colspan=\"6\" class=\"p-6 text-center text-neutral-500\">No comments found.</td></tr>"@,
        ),
        comments@.len() == 0 ==> page_is(
            r,
            200,
            "<tr><td colspan=\"6\" class=\"p-6 text-center text-neutral-500\">No comments found.</td></tr>"@,
        ),
        comments@.len() == 0 ==> page_is(s, 200, row@),
        comments@.len() > 0 ==> page_is(s, 200, r.body@ + row@),
{
    lemma_answer(failed);
    lemma_answer(r);
    lemma_answer(s);
    let seen = comments.deep_view();
    assert(seen.len() == comments@.len());
    assert(more.deep_view() =~= seen.push(c@)) by {
        assert(more.deep_view().len() == more@.len());
        assert forall|i: int| 0 <= i < more@.len() implies more.deep_view()[i] == seen.push(
            c@,
        )[i] by {
            assert(more.deep_view()[i] == more@[i]@);
            if i < comments@.len() {
                assert(seen[i] == comments@[i]@);
            }
        }
    }
    law_rows_grow_by_one(seen, c@);
    if comments@.len() == 0 {
        assert(seen =~= Seq::<CommentView>::empty());
        Seq::add_empty_left(Seq::<char>::empty(), row@);
    }
}

/// A change of approval is answered with the row of the comment that was fetched
/// afterwards, and with nothing where there is none.
pub proof fn law_toggles_are_answered_with_the_row(
    c: Comment,
    row: String,
    found: Response,
    missing: Response,
)
    requires
        call_ensures(toggle_approve_comment, (Some(c),), found),
        call_ensures(toggle_approve_comment, (None::<Comment>,), missing),
        call_ensures(render_admin_row, (&c,), row),
    ensures
        page_is(found, 200, row@),
        page_is(missing, 200, Seq::empty()),
{
    lemma_answer(found);
    lemma_answer(missing);
}

/// Whether a statement has this text and binds one value, this one.
pub open spec fn binds_one(s: Statement, sql: Seq<char>, text: Seq<char>) -> bool {
    s.sql@ == sql && s.values@.len() == 1 && binds(s.values@[0], text)
}

proof fn lemma_binds_one(s: Statement, sql: Seq<char>, text: Seq<char>)
    requires
        s@ == crate::store::with_text(sql, text),
    ensures
        binds_one(s, sql, text),
{
    let seen = s.values.deep_view();
    assert(seen == s@.values);
    assert(seen.len() == s.values@.len());
    assert(s.values@[0]@ == seen[0]);
}

/// A comment is changed, fetched and deleted by its id, to the letter; the table
/// is asked for as a whole.
pub proof fn law_comments_are_found_by_their_id(
    id: &str,
    pair: (Statement, Statement),
    delete: Statement,
    list: Statement,
)
    requires
        call_ensures(toggle_approve_comment_statements, (id,), pair),
        call_ensures(delete_comment_statement, (id,), delete),
        call_ensures(list_admin_comments_statement, (), list),
    ensures
        binds_one(pair.0, TOGGLE@, id@),
        binds_one(pair.1, SELECT_ONE@, id@),
        binds_one(delete, DELETE@, id@),
        list.sql@ == SELECT_LATEST@,
        list.values@.len() == 0,
{
    lemma_binds_one(pair.0, TOGGLE@, id@);
    lemma_binds_one(pair.1, SELECT_ONE@, id@);
    lemma_binds_one(delete, DELETE@, id@);
    assert(list.values.deep_view().len() == list.values@.len());
}

/// A deletion is answered with nothing; the moderation page, the style sheet and
/// the script are answered as they are.
pub proof fn law_fixed_answers(r: Response, page: Response, css: Response, js: Response)
    requires
        call_ensures(delete_comment, (), r),
        call_ensures(admin_dashboard, (), page),
        call_ensures(serve_css, (), css),
        call_ensures(serve_js, (), js),
    ensures
        page_is(r, 200, Seq::empty()),
        page_is(page, 200, DASHBOARD@),
        answer_is(css, 200, seq![("content-type"@, "text/css; charset=utf-8"@)], WIDGET_CSS@),
        answer_is(
            js,
            200,
            seq![("content-type"@, "application/javascript; charset=utf-8"@)],
            WIDGET_JS@,
        ),
{
    lemma_answer(r);
    lemma_answer(page);
    lemma_answer(css);
    lemma_answer(js);
}

} // verus!
