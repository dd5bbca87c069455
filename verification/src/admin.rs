//! What the administrator asks for: the moderation page and its table.

use crate::comments::fetched_or_none;
use crate::models::{Comment, CommentView};
use crate::pages::{admin_row, render_admin_row};
use crate::reply::{html, Response, ResponseView, OK};
use crate::store::{with_text, Statement, StatementView, DELETE, SELECT_LATEST, SELECT_ONE, TOGGLE};
use crate::templates::DASHBOARD;
use crate::threads::{joined, law_joined_in_runs};
use vstd::prelude::*;

verus! {

/// Shown where there are no comments at all.
pub const NO_ROWS: &'static str =
    "<tr><td colspan=\"6\" class=\"p-6 text-center text-neutral-500\">No comments found.</td></tr>";

/// Answers with the moderation page.
pub fn admin_dashboard() -> (r: Response)
    ensures
        r@ == html(OK, DASHBOARD@),
{
    Response::html(OK, DASHBOARD.to_string())
}

/// The statement that fetches the comments of the moderation table.
pub fn list_admin_comments_statement() -> (r: Statement)
    ensures
        r@ == (StatementView { sql: SELECT_LATEST@, values: Seq::empty() }),
{
    let r = Statement { sql: SELECT_LATEST, values: Vec::new() };
    assert(r@.values == Seq::<crate::store::SqlValueView>::empty());
    r
}

/// The rows of the moderation table, in order.
pub open spec fn admin_rows(comments: Seq<CommentView>) -> Seq<char> {
    joined(comments.map_values(|c: CommentView| admin_row(c)))
}

/// The answer with the rows of the moderation table.
pub open spec fn admin_table(comments: Seq<CommentView>) -> ResponseView {
    html(
        OK,
        if comments.len() == 0 {
            NO_ROWS@
        } else {
            admin_rows(comments)
        },
    )
}

/// Answers with the rows of the moderation table, given what the store returned
/// for [`list_admin_comments_statement`]. Where the store failed, `fetched` is
/// `None`.
pub fn list_admin_comments(fetched: Option<Vec<Comment>>) -> (r: Response)
    ensures
        r@ == admin_table(fetched_or_none(fetched.deep_view())),
{
    let comments = match fetched {
        Some(comments) => comments,
        None => Vec::new(),
    };
    let ghost all = comments.deep_view();
    assert(all == fetched_or_none(fetched.deep_view()));
    let n: usize = comments.len();
    if n == 0 {
        return Response::html(OK, NO_ROWS.to_string());
    }
    let ghost parts = all.map_values(|c: CommentView| admin_row(c));
    let mut rows = String::new();
    let mut i: usize = 0;
    assert(parts.take(0) == Seq::<Seq<char>>::empty());
    while i < n
        invariant
            n == comments@.len(),
            all == comments.deep_view(),
            parts == all.map_values(|c: CommentView| admin_row(c)),
            i <= n,
            rows@ == joined(parts.take(i as int)),
        decreases n - i,
    {
        let row = render_admin_row(&comments[i]);
        rows.append(row.as_str());
        assert(all[i as int] == comments@[i as int]@);
        assert(parts.take(i + 1).drop_last() == parts.take(i as int));
        i = i + 1;
    }
    assert(parts.take(n as int) == parts);
    Response::html(OK, rows)
}

/// The statements that change the approval of a comment and fetch it
/// afterwards. They are run in this order, and the outcome of the first is not
/// looked at.
pub fn toggle_approve_comment_statements(id: &str) -> (r: (Statement, Statement))
    ensures
        r.0@ == with_text(TOGGLE@, id@),
        r.1@ == with_text(SELECT_ONE@, id@),
{
    (Statement::with_text(TOGGLE, id), Statement::with_text(SELECT_ONE, id))
}

/// The answer with the row of a comment whose approval was changed.
pub open spec fn toggled_row(fetched: Option<CommentView>) -> ResponseView {
    html(
        OK,
        match fetched {
            Some(comment) => admin_row(comment),
            None => Seq::empty(),
        },
    )
}

/// Answers with the row of a comment whose approval was changed, given what the
/// store returned for the second of [`toggle_approve_comment_statements`].
/// Where the store failed or has no such comment, `fetched` is `None`.
pub fn toggle_approve_comment(fetched: Option<Comment>) -> (r: Response)
    ensures
        r@ == toggled_row(fetched.deep_view()),
{
    match fetched {
        Some(comment) => Response::html(OK, render_admin_row(&comment)),
        None => Response::html(OK, String::new()),
    }
}

/// The statement that removes a comment.
pub fn delete_comment_statement(id: &str) -> (r: Statement)
    ensures
        r@ == with_text(DELETE@, id@),
{
    Statement::with_text(DELETE, id)
}

/// Answers a request to remove a comment, whatever came of it: the row goes.
pub fn delete_comment() -> (r: Response)
    ensures
        r@ == html(OK, Seq::empty()),
{
    Response::html(OK, String::new())
}

/// The rows of two lists, one after the other, are the rows of the list that is
/// put together of them.
pub proof fn law_rows_in_runs(a: Seq<CommentView>, b: Seq<CommentView>)
    ensures
        admin_rows(a + b) == admin_rows(a) + admin_rows(b),
{
    let f = |c: CommentView| admin_row(c);
    assert((a + b).map_values(f) =~= a.map_values(f) + b.map_values(f));
    law_joined_in_runs(a.map_values(f), b.map_values(f));
}

/// The row that answers a change of approval is the row that the table shows
/// for that comment.
pub proof fn law_toggled_row_is_table_row(comment: CommentView)
    ensures
        toggled_row(Some(comment)) == admin_table(seq![comment]),
{
    let f = |c: CommentView| admin_row(c);
    assert(seq![comment].map_values(f) =~= seq![admin_row(comment)]);
    crate::threads::lemma_joined_one(admin_row(comment));
}

} // verus!
