//! What the service stores and what its forms carry.

use crate::time::{Civil, Timestamp};
use vstd::prelude::*;

verus! {

/// A stored comment.
#[derive(Debug)]
pub struct Comment {
    pub id: String,
    pub post_slug: String,
    pub author_name: String,
    pub author_email: Option<String>,
    pub content: String,
    pub is_approved: bool,
    pub created_at: Timestamp,
    /// The comment that this one answers; none for a top-level comment.
    pub parent_id: Option<String>,
}

/// The text of a [`Comment`].
pub struct CommentView {
    pub id: Seq<char>,
    pub post_slug: Seq<char>,
    pub author_name: Seq<char>,
    pub author_email: Option<Seq<char>>,
    pub content: Seq<char>,
    pub is_approved: bool,
    pub created_at: Civil,
    pub parent_id: Option<Seq<char>>,
}

impl View for Comment {
    type V = CommentView;

    open spec fn view(&self) -> CommentView {
        CommentView {
            id: self.id@,
            post_slug: self.post_slug@,
            author_name: self.author_name@,
            author_email: self.author_email.deep_view(),
            content: self.content@,
            is_approved: self.is_approved,
            created_at: self.created_at@,
            parent_id: self.parent_id.deep_view(),
        }
    }
}

impl DeepView for Comment {
    type V = CommentView;

    open spec fn deep_view(&self) -> CommentView {
        self@
    }
}

/// Which page's comments are asked for.
#[derive(Debug)]
pub struct CommentQuery {
    pub slug: String,
}

/// A visitor's comment form.
#[derive(Debug)]
pub struct CreateCommentForm {
    pub post_slug: String,
    pub author_name: String,
    pub author_email: Option<String>,
    pub content: String,
    pub parent_id: Option<String>,
    /// A field that no person sees or fills in.
    pub honeypot: Option<String>,
}

/// The text of a [`CreateCommentForm`].
pub struct FormView {
    pub post_slug: Seq<char>,
    pub author_name: Seq<char>,
    pub author_email: Option<Seq<char>>,
    pub content: Seq<char>,
    pub parent_id: Option<Seq<char>>,
    pub honeypot: Option<Seq<char>>,
}

impl View for CreateCommentForm {
    type V = FormView;

    open spec fn view(&self) -> FormView {
        FormView {
            post_slug: self.post_slug@,
            author_name: self.author_name@,
            author_email: self.author_email.deep_view(),
            content: self.content@,
            parent_id: self.parent_id.deep_view(),
            honeypot: self.honeypot.deep_view(),
        }
    }
}

/// The administrator's login form.
#[derive(Debug)]
pub struct LoginForm {
    pub token: String,
}

} // verus!
