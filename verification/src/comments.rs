//! What visitors ask for: the comments of a page, and a comment of their own.

use crate::author::{admin_address, by_admin, is_admin};
use crate::ids::{new_id, random_uuid};
use crate::markup::{clean, cleaned, show_content, shown_content};
use crate::models::{Comment, CommentQuery, CommentView, CreateCommentForm, FormView};
use crate::reply::{
    html, Response, ResponseView, BAD_REQUEST, CREATED, INTERNAL_SERVER_ERROR, OK,
};
use crate::store::{
    text_or_null, with_text, SqlValue, SqlValueView, Statement, StatementView, INSERT,
    SELECT_APPROVED,
};
use crate::text::{blank, is_blank};
use crate::threads::{thread_list, write_threads, Rendered, RenderedView};
use crate::time::{Civil, Timestamp};
use vstd::prelude::*;

verus! {

/// Shown where a page has no comments.
pub const NO_COMMENTS: &'static str =
    "<p class=\"no-comments\">No comments yet. Be the first to share your thoughts!</p>";

/// Shown where the author's name or the comment is empty.
pub const EMPTY_FIELDS: &'static str =
    "<p style=\"color: red;\">Author name and comment cannot be empty.</p>";

/// Shown to the administrator after a comment was stored.
pub const POSTED_BY_ADMIN: &'static str =
    "<div class=\"comment-success-msg\">Welcome back, Admin! Your comment has been posted instantly.</div>";

/// Shown to everyone else after a comment was stored.
pub const AWAITING_MODERATION: &'static str =
    "<div class=\"comment-success-msg\">Thank you! Your comment has been submitted and is awaiting moderation.</div>";

/// Shown where a comment could not be stored.
pub const NOT_SAVED: &'static str = "<p style=\"color: red;\">Failed to save comment.</p>";

/// The statement that fetches the comments of a page.
pub fn get_comments_statement(query: &CommentQuery) -> (r: Statement)
    ensures
        r@ == with_text(SELECT_APPROVED@, query.slug@),
{
    Statement::with_text(SELECT_APPROVED, query.slug.as_str())
}

/// The comments that were fetched: none where the store failed.
pub open spec fn fetched_or_none(fetched: Option<Seq<CommentView>>) -> Seq<CommentView> {
    match fetched {
        Some(comments) => comments,
        None => Seq::empty(),
    }
}

/// Comments with the HTML of their contents.
pub open spec fn rendered(comments: Seq<CommentView>) -> Seq<RenderedView> {
    comments.map_values(
        |c: CommentView| RenderedView { comment: c, content: shown_content(c.content) },
    )
}

/// The answer with the threads of a page.
pub open spec fn threads_page(items: Seq<RenderedView>, admin_email: Seq<char>) -> ResponseView {
    html(
        OK,
        if items.len() == 0 {
            NO_COMMENTS@
        } else {
            thread_list(items, admin_email)
        },
    )
}

/// Answers with the threads of a page.
pub fn write_threads_page(items: &Vec<Rendered>, admin_email: Option<&str>) -> (r: Response)
    ensures
        r@ == threads_page(items.deep_view(), admin_address(admin_email.deep_view())),
{
    if items.len() == 0 {
        return Response::html(OK, NO_COMMENTS.to_string());
    }
    Response::html(OK, write_threads(items, admin_email))
}

/// Answers with the comments of a page, given what the store returned for
/// [`get_comments_statement`]. Where the store failed, `fetched` is `None`.
pub fn get_comments(fetched: Option<Vec<Comment>>, admin_email: Option<&str>) -> (r: Response)
    ensures
        r@ == threads_page(
            rendered(fetched_or_none(fetched.deep_view())),
            admin_address(admin_email.deep_view()),
        ),
{
    let comments = match fetched {
        Some(comments) => comments,
        None => Vec::new(),
    };
    assert(comments.deep_view() == fetched_or_none(fetched.deep_view()));
    let items = render_contents(comments);
    write_threads_page(&items, admin_email)
}

/// Adds the HTML of its content to each comment.
fn render_contents(comments: Vec<Comment>) -> (r: Vec<Rendered>)
    ensures
        r.deep_view() == rendered(comments.deep_view()),
{
    let ghost all = comments.deep_view();
    let mut items: Vec<Rendered> = Vec::new();
    for comment in it: comments
        invariant
            it.seq() == comments@,
            all == comments.deep_view(),
            items.deep_view() == rendered(all.take(it.index() as int)),
    {
        let ghost before = items.deep_view();
        let ghost i = it.index() as int;
        let content = show_content(comment.content.as_str());
        items.push(Rendered { comment, content });
        assert(all[i] == comment@);
        assert(all.take(i + 1) == all.take(i).push(comment@));
        assert(items.deep_view() == before.push(items@.last()@));
    }
    assert(all.take(all.len() as int) == all);
    items
}

/// A comment that is to be stored.
#[derive(Debug)]
pub struct NewComment {
    pub id: String,
    pub post_slug: String,
    pub author_name: String,
    pub author_email: Option<String>,
    pub content: String,
    pub by_admin: bool,
    pub parent_id: Option<String>,
}

/// The text of a [`NewComment`].
pub struct NewCommentView {
    pub id: Seq<char>,
    pub post_slug: Seq<char>,
    pub author_name: Seq<char>,
    pub author_email: Option<Seq<char>>,
    pub content: Seq<char>,
    pub by_admin: bool,
    pub parent_id: Option<Seq<char>>,
}

impl View for NewComment {
    type V = NewCommentView;

    open spec fn view(&self) -> NewCommentView {
        NewCommentView {
            id: self.id@,
            post_slug: self.post_slug@,
            author_name: self.author_name@,
            author_email: self.author_email.deep_view(),
            content: self.content@,
            by_admin: self.by_admin,
            parent_id: self.parent_id.deep_view(),
        }
    }
}

/// What becomes of a form: it is answered at once, or a comment is to be
/// stored.
#[derive(Debug)]
pub enum Submission {
    Reply(Response),
    Store(NewComment),
}

/// The text of a [`Submission`].
pub enum SubmissionView {
    Reply(ResponseView),
    Store(NewCommentView),
}

impl View for Submission {
    type V = SubmissionView;

    open spec fn view(&self) -> SubmissionView {
        match self {
            Submission::Reply(response) => SubmissionView::Reply(response@),
            Submission::Store(comment) => SubmissionView::Store(comment@),
        }
    }
}

/// Whether a form was filled in by a machine: there is something in the field
/// that no person sees.
pub open spec fn trapped(form: FormView) -> bool {
    form.honeypot is Some && !blank(form.honeypot->0)
}

/// The comment made of a form, with the cleaned name and content and an id.
pub open spec fn new_comment(
    form: FormView,
    author_name: Seq<char>,
    content: Seq<char>,
    id: Seq<char>,
    admin_email: Seq<char>,
) -> NewCommentView {
    NewCommentView {
        id,
        post_slug: form.post_slug,
        author_name,
        author_email: form.author_email,
        content,
        by_admin: by_admin(form.author_email, admin_email),
        parent_id: form.parent_id,
    }
}

/// What becomes of a form, given the cleaned name and content and an id.
pub open spec fn submission(
    form: FormView,
    author_name: Seq<char>,
    content: Seq<char>,
    id: Seq<char>,
    admin_email: Seq<char>,
) -> SubmissionView {
    if trapped(form) {
        SubmissionView::Reply(html(OK, Seq::empty()))
    } else if blank(content) || blank(author_name) {
        SubmissionView::Reply(html(BAD_REQUEST, EMPTY_FIELDS@))
    } else {
        SubmissionView::Store(new_comment(form, author_name, content, id, admin_email))
    }
}

/// The id that was drawn for a comment that is to be stored.
pub open spec fn chosen_id(submission: SubmissionView) -> Seq<char> {
    match submission {
        SubmissionView::Store(comment) => comment.id,
        SubmissionView::Reply(_) => Seq::empty(),
    }
}

/// Whether a form was filled in by a machine.
fn is_trapped(form: &CreateCommentForm) -> (r: bool)
    ensures
        r == trapped(form@),
{
    match &form.honeypot {
        Some(trap) => !is_blank(trap.as_str()),
        None => false,
    }
}

/// Decides what becomes of a form, given the cleaned name and content and an
/// id.
pub fn decide_submission(
    form: CreateCommentForm,
    author_name: String,
    content: String,
    id: String,
    admin_email: Option<&str>,
) -> (r: Submission)
    ensures
        r@ == submission(
            form@,
            author_name@,
            content@,
            id@,
            admin_address(admin_email.deep_view()),
        ),
{
    if is_trapped(&form) {
        return Submission::Reply(Response::html(OK, String::new()));
    }
    if is_blank(content.as_str()) || is_blank(author_name.as_str()) {
        return Submission::Reply(Response::html(BAD_REQUEST, EMPTY_FIELDS.to_string()));
    }
    let by_admin = is_admin(&form.author_email, admin_email);
    Submission::Store(
        NewComment {
            id,
            post_slug: form.post_slug,
            author_name,
            author_email: form.author_email,
            content,
            by_admin,
            parent_id: form.parent_id,
        },
    )
}

/// Takes a visitor's form: answers it at once, or hands out the comment that is
/// to be stored, under a new id. A form that a machine filled in is answered
/// before anything is made of it.
pub fn post_comment(form: CreateCommentForm, admin_email: Option<&str>) -> (r: Submission)
    ensures
        r@ == submission(
            form@,
            cleaned(form.author_name@),
            cleaned(form.content@),
            chosen_id(r@),
            admin_address(admin_email.deep_view()),
        ),
        r is Store ==> random_uuid(chosen_id(r@)),
{
    if is_trapped(&form) {
        return Submission::Reply(Response::html(OK, String::new()));
    }
    let author_name = clean(form.author_name.as_str());
    let content = clean(form.content.as_str());
    let id = new_id();
    decide_submission(form, author_name, content, id, admin_email)
}

/// The statement that stores a comment. The store holds 1 for an approved
/// comment and 0 for a pending one.
pub open spec fn insert_statement(c: NewCommentView) -> StatementView {
    StatementView {
        sql: INSERT@,
        values: seq![
            SqlValueView::Text(c.id),
            SqlValueView::Text(c.post_slug),
            SqlValueView::Text(c.author_name),
            text_or_null(c.author_email),
            SqlValueView::Text(c.content),
            SqlValueView::Integer(
                if c.by_admin {
                    1
                } else {
                    0
                },
            ),
            text_or_null(c.parent_id),
        ],
    }
}

/// The comment as it stands in the store since `created_at`.
pub open spec fn stored_comment(c: NewCommentView, created_at: Civil) -> CommentView {
    CommentView {
        id: c.id,
        post_slug: c.post_slug,
        author_name: c.author_name,
        author_email: c.author_email,
        content: c.content,
        is_approved: c.by_admin,
        created_at,
        parent_id: c.parent_id,
    }
}

/// The answer to a form whose comment was to be stored.
pub open spec fn outcome_response(c: NewCommentView, saved: bool) -> ResponseView {
    if !saved {
        html(INTERNAL_SERVER_ERROR, NOT_SAVED@)
    } else if c.by_admin {
        html(CREATED, POSTED_BY_ADMIN@)
    } else {
        html(CREATED, AWAITING_MODERATION@)
    }
}

/// The comment that the administrator is told of, if there is one.
pub open spec fn outcome_alert(c: NewCommentView, saved_at: Option<Civil>) -> Option<CommentView> {
    if saved_at is Some && !c.by_admin {
        Some(stored_comment(c, saved_at->0))
    } else {
        None
    }
}

/// The end of a submission.
#[derive(Debug)]
pub struct Outcome {
    pub response: Response,
    /// A comment that the administrator is to be told of.
    pub alert: Option<Comment>,
}

impl NewComment {
    /// The statement that stores the comment.
    pub fn insert_statement(&self) -> (r: Statement)
        ensures
            r@ == insert_statement(self@),
    {
        let mut values: Vec<SqlValue> = Vec::new();
        values.push(SqlValue::Text(self.id.clone()));
        values.push(SqlValue::Text(self.post_slug.clone()));
        values.push(SqlValue::Text(self.author_name.clone()));
        values.push(SqlValue::text_or_null(&self.author_email));
        values.push(SqlValue::Text(self.content.clone()));
        values.push(
            SqlValue::Integer(
                if self.by_admin {
                    1
                } else {
                    0
                },
            ),
        );
        values.push(SqlValue::text_or_null(&self.parent_id));
        let r = Statement { sql: INSERT, values };
        assert(r@.values == insert_statement(self@).values);
        r
    }

    /// Ends a submission whose statement was run at `saved_at`, or failed.
    pub fn finish_at(self, saved_at: Option<Timestamp>) -> (r: Outcome)
        ensures
            r.response@ == outcome_response(self@, saved_at is Some),
            r.alert.deep_view() == outcome_alert(
                self@,
                match saved_at {
                    Some(t) => Some(t@),
                    None => None,
                },
            ),
    {
        match saved_at {
            Some(created_at) => {
                if self.by_admin {
                    Outcome {
                        response: Response::html(CREATED, POSTED_BY_ADMIN.to_string()),
                        alert: None,
                    }
                } else {
                    let comment = Comment {
                        id: self.id,
                        post_slug: self.post_slug,
                        author_name: self.author_name,
                        author_email: self.author_email,
                        content: self.content,
                        is_approved: self.by_admin,
                        created_at,
                        parent_id: self.parent_id,
                    };
                    Outcome {
                        response: Response::html(CREATED, AWAITING_MODERATION.to_string()),
                        alert: Some(comment),
                    }
                }
            },
            None => Outcome {
                response: Response::html(INTERNAL_SERVER_ERROR, NOT_SAVED.to_string()),
                alert: None,
            },
        }
    }

    /// Ends a submission whose statement was just run, with or without success.
    pub fn finish(self, saved: bool) -> (r: Outcome)
        ensures
            r.response@ == outcome_response(self@, saved),
            r.alert is Some <==> saved && !self.by_admin,
            r.alert is Some ==> {
                &&& r.alert->0.created_at@.valid()
                &&& r.alert->0.created_at@.year >= 1970
                &&& r.alert->0@ == stored_comment(self@, r.alert->0.created_at@)
            },
    {
        if saved {
            self.finish_at(Some(Timestamp::now()))
        } else {
            self.finish_at(None)
        }
    }
}

/// A form that a machine filled in is answered with an empty page, whatever
/// else it holds, and stores nothing.
pub proof fn law_trapped_forms_store_nothing(
    form: FormView,
    author_name: Seq<char>,
    content: Seq<char>,
    id: Seq<char>,
    admin_email: Seq<char>,
)
    requires
        form.honeypot is Some,
        !blank(form.honeypot->0),
    ensures
        submission(form, author_name, content, id, admin_email) == SubmissionView::Reply(
            html(OK, Seq::empty()),
        ),
{
}

/// A comment is stored exactly where no machine filled in the form and neither
/// the name nor the content is blank.
pub proof fn law_stored_comments_are_not_blank(
    form: FormView,
    author_name: Seq<char>,
    content: Seq<char>,
    id: Seq<char>,
    admin_email: Seq<char>,
)
    ensures
        submission(form, author_name, content, id, admin_email) is Store <==> {
            &&& !trapped(form)
            &&& !blank(author_name)
            &&& !blank(content)
        },
{
}

/// A comment is approved from the start exactly where the administrator wrote
/// it: the value that reaches the store, the comment that stands there, the
/// alert and the badge beside the author's name agree on it.
pub proof fn law_only_the_administrator_skips_moderation(
    form: FormView,
    author_name: Seq<char>,
    content: Seq<char>,
    id: Seq<char>,
    admin_email: Seq<char>,
    now: Civil,
)
    ensures
        ({
            let c = new_comment(form, author_name, content, id, admin_email);
            let stored = stored_comment(c, now);
            let approved = by_admin(form.author_email, admin_email);
            &&& insert_statement(c).values[5] == SqlValueView::Integer(
                if approved {
                    1
                } else {
                    0
                },
            )
            &&& stored.is_approved == approved
            &&& by_admin(stored.author_email, admin_email) == approved
            &&& outcome_alert(c, Some(now)) == if approved {
                None
            } else {
                Some(stored)
            }
        }),
{
}

/// A comment that could not be stored is told to nobody.
pub proof fn law_no_alert_without_a_stored_comment(c: NewCommentView)
    ensures
        outcome_alert(c, None) is None,
        outcome_response(c, false) == html(INTERNAL_SERVER_ERROR, NOT_SAVED@),
{
}

} // verus!
