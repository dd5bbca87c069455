//! Nothing is lost in the views: each field shows as it is.

use crate::comments::NewComment;
use crate::models::{Comment, CreateCommentForm};
use crate::store::Statement;
use crate::threads::Rendered;
use vstd::prelude::*;

verus! {

/// Whether an optional text shows as it is.
pub open spec fn shows_as(text: Option<String>, seen: Option<Seq<char>>) -> bool {
    match text {
        Some(text) => seen == Some(text@),
        None => seen is None,
    }
}

/// Every field of a comment shows in its view.
pub proof fn law_comments_show_every_field(c: Comment, r: Rendered)
    ensures
        c@.id == c.id@,
        c@.post_slug == c.post_slug@,
        c@.author_name == c.author_name@,
        shows_as(c.author_email, c@.author_email),
        c@.content == c.content@,
        c@.is_approved == c.is_approved,
        c@.created_at == c.created_at@,
        shows_as(c.parent_id, c@.parent_id),
        r@.comment == r.comment@,
        r@.content == r.content@,
{
}

/// Every field of a form and of a comment that is to be stored shows in its view.
pub proof fn law_forms_show_every_field(f: CreateCommentForm, c: NewComment)
    ensures
        f@.post_slug == f.post_slug@,
        f@.author_name == f.author_name@,
        shows_as(f.author_email, f@.author_email),
        f@.content == f.content@,
        shows_as(f.parent_id, f@.parent_id),
        shows_as(f.honeypot, f@.honeypot),
        c@.id == c.id@,
        c@.post_slug == c.post_slug@,
        c@.author_name == c.author_name@,
        shows_as(c.author_email, c@.author_email),
        c@.content == c.content@,
        c@.by_admin == c.by_admin,
        shows_as(c.parent_id, c@.parent_id),
{
}

/// The text of a statement and all its values show in its view.
pub proof fn law_statements_show_every_value(s: Statement, i: int)
    requires
        0 <= i < s.values@.len(),
    ensures
        s@.sql == s.sql@,
        s@.values.len() == s.values@.len(),
        s@.values[i] == s.values@[i]@,
        s.values@[i] is Text ==> s@.values[i] is Text && s@.values[i]->Text_0
            == s.values@[i]->Text_0@,
        s.values@[i] is Integer ==> s@.values[i] is Integer && s@.values[i]->Integer_0
            == s.values@[i]->Integer_0,
        s.values@[i] is Null ==> s@.values[i] is Null,
{
    let seen = s.values.deep_view();
    assert(seen.len() == s.values@.len());
    assert(seen[i] == s.values@[i].deep_view());
}

} // verus!
