//! The pages and page parts that are put together from templates.

use crate::author::{admin_address, by_admin, is_admin};
use crate::markup::{show_content, shown_content};
use crate::models::{Comment, CommentView};
use crate::templates::{
    ADMIN_BADGE, APPROVED_BADGE, ITEM_AUTHOR, ITEM_BADGE, ITEM_CLOSE, ITEM_CONTENT,
    ITEM_DATE, ITEM_OPEN, ITEM_REPLY, ITEM_SLOT, LOGIN_CLOSE, LOGIN_ERROR_CLOSE,
    LOGIN_ERROR_OPEN, LOGIN_OPEN, PENDING_BADGE, REPLY_BADGE, REPLY_BUTTON_CLOSE,
    REPLY_BUTTON_OPEN, ROW_AUTHOR, ROW_CLOSE, ROW_CONTENT, ROW_DATE, ROW_DELETE,
    ROW_DELETE_TARGET, ROW_EMAIL, ROW_OPEN, ROW_SLUG, ROW_STATUS, ROW_TITLE_END, ROW_TOGGLE,
    ROW_TOGGLE_LABEL, ROW_TOGGLE_TARGET, TOP_LEVEL_BADGE,
};
use crate::time::{admin_date, visitor_date};
use vstd::prelude::*;

verus! {

/// The class of a comment or a reply.
pub open spec fn item_class(is_reply: bool) -> Seq<char> {
    if is_reply {
        "comment-item comment-reply"@
    } else {
        "comment-item"@
    }
}

/// The button that answers a comment. A reply has none.
pub open spec fn reply_button(id: Seq<char>, is_reply: bool) -> Seq<char> {
    if is_reply {
        ""@
    } else {
        REPLY_BUTTON_OPEN@ + id
            + REPLY_BUTTON_CLOSE@
    }
}

/// The mark of the administrator's comments.
pub open spec fn admin_badge(by_admin: bool) -> Seq<char> {
    if by_admin {
        ADMIN_BADGE@
    } else {
        ""@
    }
}

/// A comment as a visitor sees it, with `content` as the HTML of its content.
pub open spec fn comment_item(
    c: CommentView,
    content: Seq<char>,
    is_reply: bool,
    admin_email: Seq<char>,
) -> Seq<char> {
    ITEM_OPEN@ + item_class(is_reply) + ITEM_AUTHOR@ + c.author_name + ITEM_BADGE@ + admin_badge(
        by_admin(c.author_email, admin_email),
    ) + ITEM_DATE@ + visitor_date(c.created_at) + ITEM_CONTENT@ + content + ITEM_REPLY@
        + reply_button(c.id, is_reply) + ITEM_SLOT@ + c.id + ITEM_CLOSE@
}

/// Writes a comment as a visitor sees it, with `content` as the HTML of its
/// content.
pub fn comment_item_html(
    c: &Comment,
    content: &str,
    is_reply: bool,
    admin_email: Option<&str>,
) -> (r: String)
    ensures
        r@ == comment_item(c@, content@, is_reply, admin_address(admin_email.deep_view())),
{
    let class = if is_reply {
        "comment-item comment-reply"
    } else {
        "comment-item"
    };
    let button = if is_reply {
        "".to_string()
    } else {
        let mut b = REPLY_BUTTON_OPEN.to_string();
        b.append(c.id.as_str());
        b.append(REPLY_BUTTON_CLOSE);
        b
    };
    let badge = if is_admin(&c.author_email, admin_email) {
        ADMIN_BADGE
    } else {
        ""
    };
    let date = c.created_at.visitor_date();
    let mut out = ITEM_OPEN.to_string();
    out.append(class);
    out.append(ITEM_AUTHOR);
    out.append(c.author_name.as_str());
    out.append(ITEM_BADGE);
    out.append(badge);
    out.append(ITEM_DATE);
    out.append(date.as_str());
    out.append(ITEM_CONTENT);
    out.append(content);
    out.append(ITEM_REPLY);
    out.append(button.as_str());
    out.append(ITEM_SLOT);
    out.append(c.id.as_str());
    out.append(ITEM_CLOSE);
    out
}

/// Writes a comment as a visitor sees it.
pub fn render_comment_item(c: &Comment, is_reply: bool, admin_email: Option<&str>) -> (r: String)
    ensures
        r@ == comment_item(
            c@,
            shown_content(c.content@),
            is_reply,
            admin_address(admin_email.deep_view()),
        ),
{
    let content = show_content(c.content.as_str());
    comment_item_html(c, content.as_str(), is_reply, admin_email)
}

/// The badge of an approved or a pending comment.
pub open spec fn status_badge(is_approved: bool) -> Seq<char> {
    if is_approved {
        APPROVED_BADGE@
    } else {
        PENDING_BADGE@
    }
}

/// The badge of a reply or a top-level comment.
pub open spec fn type_badge(is_reply: bool) -> Seq<char> {
    if is_reply {
        REPLY_BADGE@
    } else {
        TOP_LEVEL_BADGE@
    }
}

/// The label of the button that changes a comment's approval.
pub open spec fn toggle_label(is_approved: bool) -> Seq<char> {
    if is_approved {
        "Unapprove"@
    } else {
        "Approve"@
    }
}

/// The address shown for an author: a dash where there is none.
pub open spec fn shown_address(author_email: Option<Seq<char>>) -> Seq<char> {
    match author_email {
        Some(email) => email,
        None => "-"@,
    }
}

/// A comment as a row of the moderation table.
pub open spec fn admin_row(c: CommentView) -> Seq<char> {
    let email = shown_address(c.author_email);
    ROW_OPEN@ + c.id + ROW_STATUS@ + status_badge(c.is_approved) + type_badge(c.parent_id is Some)
        + ROW_SLUG@ + c.post_slug + ROW_TITLE_END@ + c.post_slug + ROW_AUTHOR@ + c.author_name
        + ROW_TITLE_END@ + c.author_name + ROW_EMAIL@ + email + ROW_TITLE_END@ + email
        + ROW_CONTENT@ + c.content + ROW_DATE@ + admin_date(c.created_at) + ROW_TOGGLE@ + c.id
        + ROW_TOGGLE_TARGET@ + c.id + ROW_TOGGLE_LABEL@ + toggle_label(c.is_approved)
        + ROW_DELETE@ + c.id + ROW_DELETE_TARGET@ + c.id + ROW_CLOSE@
}

/// Writes a comment as a row of the moderation table.
pub fn render_admin_row(c: &Comment) -> (r: String)
    ensures
        r@ == admin_row(c@),
{
    let status = if c.is_approved {
        APPROVED_BADGE
    } else {
        PENDING_BADGE
    };
    let kind = if c.parent_id.is_some() {
        REPLY_BADGE
    } else {
        TOP_LEVEL_BADGE
    };
    let toggle = if c.is_approved {
        "Unapprove"
    } else {
        "Approve"
    };
    let email = match &c.author_email {
        Some(email) => email.as_str(),
        None => "-",
    };
    let date = c.created_at.admin_date();
    let mut out = ROW_OPEN.to_string();
    out.append(c.id.as_str());
    out.append(ROW_STATUS);
    out.append(status);
    out.append(kind);
    out.append(ROW_SLUG);
    out.append(c.post_slug.as_str());
    out.append(ROW_TITLE_END);
    out.append(c.post_slug.as_str());
    out.append(ROW_AUTHOR);
    out.append(c.author_name.as_str());
    out.append(ROW_TITLE_END);
    out.append(c.author_name.as_str());
    out.append(ROW_EMAIL);
    out.append(email);
    out.append(ROW_TITLE_END);
    out.append(email);
    out.append(ROW_CONTENT);
    out.append(c.content.as_str());
    out.append(ROW_DATE);
    out.append(date.as_str());
    out.append(ROW_TOGGLE);
    out.append(c.id.as_str());
    out.append(ROW_TOGGLE_TARGET);
    out.append(c.id.as_str());
    out.append(ROW_TOGGLE_LABEL);
    out.append(toggle);
    out.append(ROW_DELETE);
    out.append(c.id.as_str());
    out.append(ROW_DELETE_TARGET);
    out.append(c.id.as_str());
    out.append(ROW_CLOSE);
    out
}

/// The error message of the login page.
pub open spec fn login_error(error: Option<Seq<char>>) -> Seq<char> {
    match error {
        Some(message) =>
            LOGIN_ERROR_OPEN@
            + message + LOGIN_ERROR_CLOSE@,
        None => ""@,
    }
}

/// The login page.
pub open spec fn login_page(error: Option<Seq<char>>) -> Seq<char> {
    LOGIN_OPEN@ + login_error(error) + LOGIN_CLOSE@
}

/// Writes the login page, with an error message or without.
pub fn render_login_page(error: Option<&str>) -> (r: String)
    ensures
        r@ == login_page(error.deep_view()),
{
    let message = match error {
        Some(message) => {
            let mut m = LOGIN_ERROR_OPEN.to_string();
            m.append(message);
            m.append(LOGIN_ERROR_CLOSE);
            m
        },
        None => "".to_string(),
    };
    let mut out = LOGIN_OPEN.to_string();
    out.append(message.as_str());
    out.append(LOGIN_CLOSE);
    out
}

} // verus!
