//! What becomes of a visitor's form.

use crate::author::is_admin;
use crate::comments::{
    decide_submission, get_comments_statement, post_comment, NewComment, Outcome, Submission,
};
use crate::ids::random_uuid;
use crate::laws::answers::{lemma_answer, page_is};
use crate::laws::words::{all_space, lemma_all_space};
use crate::markup::cleaned;
use crate::models::{Comment, CommentQuery, CreateCommentForm};
use crate::reply::Response;
use crate::store::{SqlValue, Statement, INSERT, SELECT_APPROVED};
use crate::text::{eq_ignore_ascii_case, trim};
use crate::time::Timestamp;
use vstd::prelude::*;

verus! {

/// Whether two optional texts are the same: both absent, or both there and the
/// same, character for character.
pub open spec fn same_option(a: Option<String>, b: Option<String>) -> bool {
    match (a, b) {
        (Some(x), Some(y)) => x@ == y@,
        (None, None) => true,
        _ => false,
    }
}

/// An author is the administrator exactly where both addresses are given, that of
/// the administrator is not empty, and that of the author, without white space
/// round it, is the same but for the case of ASCII letters.
pub proof fn law_administrator_is_told_by_the_address(
    email: String,
    address: &str,
    admin: &str,
    core: &str,
    same: bool,
    given: bool,
    unsigned: bool,
    unset: bool,
)
    requires
        address@ == email@,
        call_ensures(trim, (address,), core),
        call_ensures(eq_ignore_ascii_case, (core, admin), same),
        call_ensures(is_admin, (&Some(email), Some(admin)), given),
        call_ensures(is_admin, (&None::<String>, Some(admin)), unsigned),
        call_ensures(is_admin, (&Some(email), None::<&str>), unset),
    ensures
        given <==> same && admin@.len() > 0,
        !unsigned,
        !unset,
{
    let low = |c: char| crate::text::ascii_lower(c);
    crate::text::law_blank_is_trimmed_empty(email@);
    assert(core@.map_values(low).len() == core@.len());
    assert(admin@.map_values(low).len() == admin@.len());
}

/// Whether a form has something in the field that no person sees.
pub open spec fn sprung(form: CreateCommentForm) -> bool {
    form.honeypot is Some && !all_space(form.honeypot->0@)
}

/// Whether a comment to be stored is made of a form: whoever sent it, it has the
/// form's page, address and parent.
pub open spec fn made_of(c: NewComment, form: CreateCommentForm) -> bool {
    &&& c.post_slug@ == form.post_slug@
    &&& same_option(c.author_email, form.author_email)
    &&& same_option(c.parent_id, form.parent_id)
}

/// A form that a machine filled in is answered with an empty page; one whose name
/// or content is nothing but white space is refused; every other is to be stored.
/// What is stored is made of the form, whoever sent it, with the given name,
/// content and id, and is approved exactly where the administrator sent it.
pub proof fn law_forms_are_stored_as_they_came(
    form: CreateCommentForm,
    author_name: String,
    content: String,
    id: String,
    admin_email: Option<&str>,
    from_admin: bool,
    r: Submission,
)
    requires
        call_ensures(decide_submission, (form, author_name, content, id, admin_email), r),
        call_ensures(is_admin, (&form.author_email, admin_email), from_admin),
    ensures
        sprung(form) ==> r is Reply && page_is(r->Reply_0, 200, Seq::empty()),
        !sprung(form) && (all_space(author_name@) || all_space(content@)) ==> r is Reply && page_is(
            r->Reply_0,
            400,
            "<p style=\"color: red;\">Author name and comment cannot be empty.</p>"@,
        ),
        !sprung(form) && !all_space(author_name@) && !all_space(content@) ==> {
            &&& r is Store
            &&& made_of(r->Store_0, form)
            &&& r->Store_0.author_name@ == author_name@
            &&& r->Store_0.content@ == content@
            &&& r->Store_0.id@ == id@
            &&& r->Store_0.by_admin == from_admin
        },
{
    if form.honeypot is Some {
        lemma_all_space(form.honeypot->0@);
    }
    lemma_all_space(author_name@);
    lemma_all_space(content@);
    if r is Reply {
        lemma_answer(r->Reply_0);
    }
}

/// A visitor's form goes the same way, with its name and content cleaned and a
/// new id.
pub proof fn law_posted_forms_are_stored_as_they_came(
    form: CreateCommentForm,
    admin_email: Option<&str>,
    from_admin: bool,
    r: Submission,
)
    requires
        call_ensures(post_comment, (form, admin_email), r),
        call_ensures(is_admin, (&form.author_email, admin_email), from_admin),
    ensures
        sprung(form) ==> r is Reply && page_is(r->Reply_0, 200, Seq::empty()),
        !sprung(form) && (all_space(cleaned(form.author_name@)) || all_space(
            cleaned(form.content@),
        )) ==> r is Reply && page_is(
            r->Reply_0,
            400,
            "<p style=\"color: red;\">Author name and comment cannot be empty.</p>"@,
        ),
        !sprung(form) && !all_space(cleaned(form.author_name@)) && !all_space(
            cleaned(form.content@),
        ) ==> {
            &&& r is Store
            &&& made_of(r->Store_0, form)
            &&& r->Store_0.author_name@ == cleaned(form.author_name@)
            &&& r->Store_0.content@ == cleaned(form.content@)
            &&& r->Store_0.by_admin == from_admin
            &&& random_uuid(r->Store_0.id@)
        },
{
    if form.honeypot is Some {
        lemma_all_space(form.honeypot->0@);
    }
    lemma_all_space(cleaned(form.author_name@));
    lemma_all_space(cleaned(form.content@));
    if r is Reply {
        lemma_answer(r->Reply_0);
    }
}

/// Whether a bound value is this text.
pub open spec fn binds(value: SqlValue, text: Seq<char>) -> bool {
    value is Text && value->Text_0@ == text
}

/// Whether a bound value is this text, or the null value where there is none.
pub open spec fn binds_option(value: SqlValue, text: Option<String>) -> bool {
    match text {
        Some(text) => binds(value, text@),
        None => value is Null,
    }
}

/// The statement that stores a comment binds each of its fields, in the order in
/// which the statement names the columns, and 1 or 0 for its approval.
pub proof fn law_every_field_is_bound(c: NewComment, r: Statement)
    requires
        call_ensures(NewComment::insert_statement, (&c,), r),
    ensures
        r.sql@ == INSERT@,
        r.values@.len() == 7,
        binds(r.values@[0], c.id@),
        binds(r.values@[1], c.post_slug@),
        binds(r.values@[2], c.author_name@),
        binds_option(r.values@[3], c.author_email),
        binds(r.values@[4], c.content@),
        r.values@[5] is Integer,
        r.values@[5]->Integer_0 == 1 <==> c.by_admin,
        r.values@[5]->Integer_0 == 0 <==> !c.by_admin,
        binds_option(r.values@[6], c.parent_id),
{
    let seen = r.values.deep_view();
    assert(seen == r@.values);
    assert(seen.len() == r.values@.len());
    assert forall|i: int| 0 <= i < seen.len() implies seen[i] == (#[trigger] r.values@[i])@ by {}
    assert(r.values@[0]@ == seen[0]);
    assert(r.values@[1]@ == seen[1]);
    assert(r.values@[2]@ == seen[2]);
    assert(r.values@[3]@ == seen[3]);
    assert(r.values@[4]@ == seen[4]);
    assert(r.values@[5]@ == seen[5]);
    assert(r.values@[6]@ == seen[6]);
}

/// A value that is bound for a text is that text, to the letter, and the null
/// value where there is none; a statement with one text binds that text alone.
pub proof fn law_texts_are_bound_to_the_letter(
    text: Option<String>,
    value: SqlValue,
    sql: &'static str,
    word: &str,
    r: Statement,
)
    requires
        call_ensures(SqlValue::text_or_null, (&text,), value),
        call_ensures(Statement::with_text, (sql, word), r),
    ensures
        binds_option(value, text),
        r.sql@ == sql@,
        r.values@.len() == 1,
        binds(r.values@[0], word@),
{
    let seen = r.values.deep_view();
    assert(seen == r@.values);
    assert(seen.len() == r.values@.len());
    assert(r.values@[0]@ == seen[0]);
}

/// The comments of a page are asked for by its slug.
pub proof fn law_pages_are_asked_for_by_their_slug(query: CommentQuery, r: Statement)
    requires
        call_ensures(get_comments_statement, (&query,), r),
    ensures
        r.sql@ == SELECT_APPROVED@,
        r.values@.len() == 1,
        binds(r.values@[0], query.slug@),
{
    let seen = r.values.deep_view();
    assert(seen == r@.values);
    assert(seen.len() == r.values@.len());
    assert(r.values@[0]@ == seen[0]);
}

/// Whether a comment is one that was to be stored, field by field.
pub open spec fn is_stored(comment: Comment, c: NewComment) -> bool {
    &&& comment.id@ == c.id@
    &&& comment.post_slug@ == c.post_slug@
    &&& comment.author_name@ == c.author_name@
    &&& same_option(comment.author_email, c.author_email)
    &&& comment.content@ == c.content@
    &&& comment.is_approved == c.by_admin
    &&& same_option(comment.parent_id, c.parent_id)
}

/// How a submission ends, by whether the comment was stored and who wrote it. The
/// administrator is told of a stored comment of anyone else, with all its fields,
/// and of no other.
pub proof fn law_submissions_end_by_their_outcome(
    c: NewComment,
    saved_at: Option<Timestamp>,
    r: Outcome,
)
    requires
        call_ensures(NewComment::finish_at, (c, saved_at), r),
    ensures
        saved_at is None ==> page_is(
            r.response,
            500,
            "<p style=\"color: red;\">Failed to save comment.</p>"@,
        ) && r.alert is None,
        saved_at is Some && c.by_admin ==> page_is(
            r.response,
            201,
            "<div class=\"comment-success-msg\">Welcome back, Admin! Your comment has been posted instantly.</div>"@,
        ) && r.alert is None,
        saved_at is Some && !c.by_admin ==> page_is(
            r.response,
            201,
            "<div class=\"comment-success-msg\">Thank you! Your comment has been submitted and is awaiting moderation.</div>"@,
        ) && r.alert is Some && is_stored(r.alert->0, c) && r.alert->0.created_at@ == saved_at->0@,
{
    lemma_answer(r.response);
}

/// The same where the comment was stored just now.
pub proof fn law_submissions_that_just_ran_end_by_their_outcome(
    c: NewComment,
    saved: bool,
    r: Outcome,
)
    requires
        call_ensures(NewComment::finish, (c, saved), r),
    ensures
        !saved ==> page_is(
            r.response,
            500,
            "<p style=\"color: red;\">Failed to save comment.</p>"@,
        ) && r.alert is None,
        saved && c.by_admin ==> page_is(
            r.response,
            201,
            "<div class=\"comment-success-msg\">Welcome back, Admin! Your comment has been posted instantly.</div>"@,
        ) && r.alert is None,
        saved && !c.by_admin ==> page_is(
            r.response,
            201,
            "<div class=\"comment-success-msg\">Thank you! Your comment has been submitted and is awaiting moderation.</div>"@,
        ) && r.alert is Some && is_stored(r.alert->0, c) && r.alert->0.created_at@.valid()
            && r.alert->0.created_at@.year >= 1970,
{
    lemma_answer(r.response);
}

} // verus!
