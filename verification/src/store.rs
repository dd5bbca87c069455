//! The statements that reach the comment store.

use vstd::prelude::*;

verus! {

/// A value bound to a parameter of a statement.
#[derive(Debug)]
pub enum SqlValue {
    Text(String),
    Integer(i64),
    Null,
}

/// The text or number of a [`SqlValue`].
pub enum SqlValueView {
    Text(Seq<char>),
    Integer(i64),
    Null,
}

impl View for SqlValue {
    type V = SqlValueView;

    open spec fn view(&self) -> SqlValueView {
        match self {
            SqlValue::Text(text) => SqlValueView::Text(text@),
            SqlValue::Integer(number) => SqlValueView::Integer(*number),
            SqlValue::Null => SqlValueView::Null,
        }
    }
}

impl DeepView for SqlValue {
    type V = SqlValueView;

    open spec fn deep_view(&self) -> SqlValueView {
        self@
    }
}

/// An SQL statement, with a value for each `?` in it, in order.
#[derive(Debug)]
pub struct Statement {
    pub sql: &'static str,
    pub values: Vec<SqlValue>,
}

/// The text of a [`Statement`].
pub struct StatementView {
    pub sql: Seq<char>,
    pub values: Seq<SqlValueView>,
}

impl View for Statement {
    type V = StatementView;

    open spec fn view(&self) -> StatementView {
        StatementView { sql: self.sql@, values: self.values.deep_view() }
    }
}

/// The approved comments of a page, newest first.
pub const SELECT_APPROVED: &'static str = "SELECT id, post_slug, author_name, author_email, content, is_approved, created_at, parent_id FROM comments WHERE post_slug = ? AND is_approved = 1 ORDER BY created_at DESC";

/// The latest comments of all pages, newest first.
pub const SELECT_LATEST: &'static str = "SELECT id, post_slug, author_name, author_email, content, is_approved, created_at, parent_id FROM comments ORDER BY created_at DESC LIMIT 100";

/// One comment.
pub const SELECT_ONE: &'static str = "SELECT id, post_slug, author_name, author_email, content, is_approved, created_at, parent_id FROM comments WHERE id = ?";

/// A new comment.
pub const INSERT: &'static str = "INSERT INTO comments (id, post_slug, author_name, author_email, content, is_approved, parent_id) VALUES (?, ?, ?, ?, ?, ?, ?)";

/// Turns an approved comment into a pending one and the other way round.
pub const TOGGLE: &'static str = "UPDATE comments SET is_approved = NOT is_approved WHERE id = ?";

/// Removes a comment.
pub const DELETE: &'static str = "DELETE FROM comments WHERE id = ?";

/// A statement with one text in it.
pub open spec fn with_text(sql: Seq<char>, text: Seq<char>) -> StatementView {
    StatementView { sql, values: seq![SqlValueView::Text(text)] }
}

/// A text, or the null value where there is none.
pub open spec fn text_or_null(text: Option<Seq<char>>) -> SqlValueView {
    match text {
        Some(text) => SqlValueView::Text(text),
        None => SqlValueView::Null,
    }
}

impl SqlValue {
    /// A text, or the null value where there is none.
    pub fn text_or_null(text: &Option<String>) -> (r: SqlValue)
        ensures
            r@ == text_or_null(text.deep_view()),
    {
        match text {
            Some(text) => SqlValue::Text(text.clone()),
            None => SqlValue::Null,
        }
    }
}

impl Statement {
    /// A statement with one text in it.
    pub fn with_text(sql: &'static str, text: &str) -> (r: Statement)
        ensures
            r@ == with_text(sql@, text@),
    {
        let mut values: Vec<SqlValue> = Vec::new();
        values.push(SqlValue::Text(text.to_string()));
        let r = Statement { sql, values };
        assert(r@.values == with_text(sql@, text@).values);
        r
    }
}

} // verus!
