//! What a comment, a row and the login page are made of: fixed text, and between
//! it what the comment gives.

use crate::author::is_admin;
use crate::markup::{cleaned, markdown, show_content};
use crate::models::{Comment, CommentView};
use crate::pages::{
    admin_row, comment_item, comment_item_html, render_admin_row, render_comment_item,
    render_login_page, shown_address, status_badge, toggle_label, type_badge,
};
use crate::table::flipped;
use crate::templates::{
    ADMIN_BADGE, APPROVED_BADGE, ITEM_AUTHOR, ITEM_BADGE, ITEM_CLOSE, ITEM_CONTENT, ITEM_DATE,
    ITEM_OPEN, ITEM_REPLY, ITEM_SLOT, LOGIN_CLOSE, LOGIN_ERROR_CLOSE, LOGIN_ERROR_OPEN, LOGIN_OPEN,
    PENDING_BADGE, REPLY_BADGE, REPLY_BUTTON_CLOSE, REPLY_BUTTON_OPEN, ROW_AUTHOR, ROW_CLOSE,
    ROW_CONTENT, ROW_DATE, ROW_DELETE, ROW_DELETE_TARGET, ROW_EMAIL, ROW_OPEN, ROW_SLUG, ROW_STATUS,
    ROW_TITLE_END, ROW_TOGGLE, ROW_TOGGLE_LABEL, ROW_TOGGLE_TARGET, TOP_LEVEL_BADGE,
};
use crate::text::{lemma_occurs_within, occurs, occurs_at};
use crate::time::{admin_date, visitor_date, Timestamp};
use vstd::prelude::*;

verus! {

/// A frame with parts put into it: its first text, then a part and its next text
/// in turn.
pub open spec fn filled(frame: Seq<Seq<char>>, parts: Seq<Seq<char>>) -> Seq<char>
    decreases parts.len(),
{
    if parts.len() == 0 {
        frame[0]
    } else {
        filled(frame.drop_last(), parts.drop_last()) + parts.last() + frame.last()
    }
}

/// Whether a text is a frame with these parts, and nothing else, put into it.
pub open spec fn fills(text: Seq<char>, frame: Seq<Seq<char>>, parts: Seq<Seq<char>>) -> bool {
    frame.len() == parts.len() + 1 && text == filled(frame, parts)
}

proof fn lemma_start(head: Seq<char>)
    ensures
        fills(head, seq![head], Seq::empty()),
{
}

/// One more part, and the text behind it.
proof fn lemma_more(
    text: Seq<char>,
    frame: Seq<Seq<char>>,
    parts: Seq<Seq<char>>,
    part: Seq<char>,
    next: Seq<char>,
)
    requires
        fills(text, frame, parts),
    ensures
        fills(text + part + next, frame.push(next), parts.push(part)),
{
    assert(frame.push(next).drop_last() =~= frame);
    assert(parts.push(part).drop_last() =~= parts);
}

/// What a comment gives for its item.
pub open spec fn item_parts(
    c: Comment,
    by_admin: bool,
    date: String,
    content: Seq<char>,
    is_reply: bool,
) -> Seq<Seq<char>> {
    let badge = if by_admin {
        "<span class=\"mr-admin-badge\">Admin</span>"@
    } else {
        Seq::empty()
    };
    let parts = seq![c.author_name@, badge, date@, content];
    if is_reply {
        parts.push(c.id@)
    } else {
        parts.push(c.id@).push(c.id@)
    }
}

proof fn lemma_button_apart(
    x: Seq<char>,
    r: Seq<char>,
    o: Seq<char>,
    id: Seq<char>,
    c: Seq<char>,
    s: Seq<char>,
    e: Seq<char>,
)
    ensures
        x + r + (o + id + c) + s + id + e == x + (r + o) + id + (c + s) + id + e,
        x + r + Seq::<char>::empty() + s + id + e == x + (r + s) + id + e,
{
}

/// The frame of an item.
spec fn item_frame(is_reply: bool) -> Seq<Seq<char>> {
    let frame = seq![
        ITEM_OPEN@ + crate::pages::item_class(is_reply) + ITEM_AUTHOR@,
    ].push(ITEM_BADGE@).push(ITEM_DATE@).push(ITEM_CONTENT@);
    if is_reply {
        frame.push(ITEM_REPLY@ + ITEM_SLOT@).push(ITEM_CLOSE@)
    } else {
        frame.push(ITEM_REPLY@ + REPLY_BUTTON_OPEN@).push(REPLY_BUTTON_CLOSE@ + ITEM_SLOT@).push(
            ITEM_CLOSE@,
        )
    }
}

proof fn lemma_item(
    c: Comment,
    by_admin: bool,
    date: String,
    content: Seq<char>,
    is_reply: bool,
    admin_email: Seq<char>,
)
    requires
        by_admin == crate::author::by_admin(c@.author_email, admin_email),
        date@ == visitor_date(c@.created_at),
    ensures
        fills(
            comment_item(c@, content, is_reply, admin_email),
            item_frame(is_reply),
            item_parts(c, by_admin, date, content, is_reply),
        ),
{
    reveal_strlit("");
    assert(""@ =~= Seq::<char>::empty());
    let badge = if by_admin {
        ADMIN_BADGE@
    } else {
        Seq::empty()
    };
    let id = c.id@;
    let head = ITEM_OPEN@ + crate::pages::item_class(is_reply) + ITEM_AUTHOR@;
    let f0 = seq![head];
    let p0 = Seq::<Seq<char>>::empty();
    lemma_start(head);
    lemma_more(head, f0, p0, c.author_name@, ITEM_BADGE@);
    let t1 = head + c.author_name@ + ITEM_BADGE@;
    let f1 = f0.push(ITEM_BADGE@);
    let p1 = p0.push(c.author_name@);
    lemma_more(t1, f1, p1, badge, ITEM_DATE@);
    let t2 = t1 + badge + ITEM_DATE@;
    let f2 = f1.push(ITEM_DATE@);
    let p2 = p1.push(badge);
    lemma_more(t2, f2, p2, date@, ITEM_CONTENT@);
    let t3 = t2 + date@ + ITEM_CONTENT@;
    let f3 = f2.push(ITEM_CONTENT@);
    let p3 = p2.push(date@);
    let x = t3 + content;
    lemma_button_apart(
        x,
        ITEM_REPLY@,
        REPLY_BUTTON_OPEN@,
        id,
        REPLY_BUTTON_CLOSE@,
        ITEM_SLOT@,
        ITEM_CLOSE@,
    );
    let p4 = p3.push(content);
    assert(p4 =~= seq![c.author_name@, badge, date@, content]);
    if is_reply {
        let n4 = ITEM_REPLY@ + ITEM_SLOT@;
        lemma_more(t3, f3, p3, content, n4);
        lemma_more(t3 + content + n4, f3.push(n4), p4, id, ITEM_CLOSE@);
    } else {
        let n4 = ITEM_REPLY@ + REPLY_BUTTON_OPEN@;
        let n5 = REPLY_BUTTON_CLOSE@ + ITEM_SLOT@;
        lemma_more(t3, f3, p3, content, n4);
        lemma_more(t3 + content + n4, f3.push(n4), p4, id, n5);
        lemma_more(
            t3 + content + n4 + id + n5,
            f3.push(n4).push(n5),
            p4.push(id),
            id,
            ITEM_CLOSE@,
        );
    }
}

/// Any two items that are shown in the same way are the same fixed text, with
/// what their comments give put into it at the same places: the name, the badge
/// where the administrator wrote it, the date, the content, and the id.
/// Everything else about a comment, and the administrator's address, leave the
/// item as it is.
pub proof fn law_items_differ_in_what_their_comments_give(
    c: Comment,
    d: Comment,
    x: &str,
    y: &str,
    is_reply: bool,
    first_admin: Option<&str>,
    second_admin: Option<&str>,
    first_by_admin: bool,
    second_by_admin: bool,
    first_date: String,
    second_date: String,
    r: String,
    s: String,
)
    requires
        call_ensures(comment_item_html, (&c, x, is_reply, first_admin), r),
        call_ensures(comment_item_html, (&d, y, is_reply, second_admin), s),
        call_ensures(is_admin, (&c.author_email, first_admin), first_by_admin),
        call_ensures(is_admin, (&d.author_email, second_admin), second_by_admin),
        call_ensures(Timestamp::visitor_date, (&c.created_at,), first_date),
        call_ensures(Timestamp::visitor_date, (&d.created_at,), second_date),
    ensures
        exists|frame: Seq<Seq<char>>|
            {
                &&& #[trigger] fills(
                    r@,
                    frame,
                    item_parts(c, first_by_admin, first_date, x@, is_reply),
                )
                &&& #[trigger] fills(
                    s@,
                    frame,
                    item_parts(d, second_by_admin, second_date, y@, is_reply),
                )
            },
{
    lemma_item(
        c,
        first_by_admin,
        first_date,
        x@,
        is_reply,
        crate::author::admin_address(first_admin.deep_view()),
    );
    lemma_item(
        d,
        second_by_admin,
        second_date,
        y@,
        is_reply,
        crate::author::admin_address(second_admin.deep_view()),
    );
    let frame = item_frame(is_reply);
    assert(fills(r@, frame, item_parts(c, first_by_admin, first_date, x@, is_reply)));
    assert(fills(s@, frame, item_parts(d, second_by_admin, second_date, y@, is_reply)));
}

/// The button that answers the comment with some id.
pub open spec fn button_for(id: Seq<char>) -> Seq<char> {
    "<button type=\"button\" class=\"mr-reply-btn\" onclick=\"window.mrReplyTo('"@ + id
        + "')\">↳ Reply</button>"@
}

/// A comment shown as a reply is the same comment shown as a top-level one, with
/// another class and without the button that answers it. The button depends on
/// the id alone.
pub proof fn law_replies_have_another_class_and_no_button(
    c: Comment,
    content: &str,
    admin_email: Option<&str>,
    top: String,
    reply: String,
)
    requires
        call_ensures(comment_item_html, (&c, content, false, admin_email), top),
        call_ensures(comment_item_html, (&c, content, true, admin_email), reply),
    ensures
        exists|head: Seq<char>, middle: Seq<char>, tail: Seq<char>|
            #![trigger head + middle + tail]
            {
                &&& top@ == head + "comment-item"@ + middle + button_for(c.id@) + tail
                &&& reply@ == head + "comment-item comment-reply"@ + middle + tail
            },
        occurs(button_for(c.id@), top@),
{
    reveal_strlit("");
    let badge = crate::pages::admin_badge(
        crate::author::by_admin(
            c@.author_email,
            crate::author::admin_address(admin_email.deep_view()),
        ),
    );
    let date = visitor_date(c@.created_at);
    let head = ITEM_OPEN@;
    let button = button_for(c.id@);
    lemma_outer(
        head,
        "comment-item"@,
        ITEM_AUTHOR@,
        c.author_name@,
        ITEM_BADGE@,
        badge,
        ITEM_DATE@,
        date,
        ITEM_CONTENT@,
        content@,
        ITEM_REPLY@,
        button,
        ITEM_SLOT@,
        c.id@,
        ITEM_CLOSE@,
    );
    lemma_outer(
        head,
        "comment-item comment-reply"@,
        ITEM_AUTHOR@,
        c.author_name@,
        ITEM_BADGE@,
        badge,
        ITEM_DATE@,
        date,
        ITEM_CONTENT@,
        content@,
        ITEM_REPLY@,
        ""@,
        ITEM_SLOT@,
        c.id@,
        ITEM_CLOSE@,
    );
    let middle = ITEM_AUTHOR@ + c.author_name@ + ITEM_BADGE@ + badge + ITEM_DATE@ + date
        + ITEM_CONTENT@ + content@ + ITEM_REPLY@;
    let tail = ITEM_SLOT@ + c.id@ + ITEM_CLOSE@;
    let before = head + "comment-item comment-reply"@ + middle;
    assert(before + ""@ + tail =~= before + tail);
    assert(head + middle + tail == head + middle + tail);
    assert(button.subrange(0, button.len() as int) =~= button);
    assert(occurs_at(button, button, 0));
    lemma_occurs_within(button, head + "comment-item"@ + middle, button, tail);
}

proof fn lemma_outer(
    a: Seq<char>,
    b: Seq<char>,
    c: Seq<char>,
    d: Seq<char>,
    e: Seq<char>,
    f: Seq<char>,
    g: Seq<char>,
    h: Seq<char>,
    i: Seq<char>,
    j: Seq<char>,
    k: Seq<char>,
    l: Seq<char>,
    m: Seq<char>,
    n: Seq<char>,
    o: Seq<char>,
)
    ensures
        a + b + c + d + e + f + g + h + i + j + k + l + m + n + o == a + b + (c + d + e + f + g + h
            + i + j + k) + l + (m + n + o),
{
    let x = a + b;
    assert(x + c + d + e + f + g + h + i + j + k =~= x + (c + d + e + f + g + h + i + j + k));
    let y = x + (c + d + e + f + g + h + i + j + k) + l;
    assert(y + m + n + o =~= y + (m + n + o));
}

/// What is shown of a comment's content is what cleaning leaves of its Markdown.
pub proof fn law_contents_are_cleaned_after_markdown(content: &str, r: String)
    requires
        call_ensures(show_content, (content,), r),
    ensures
        r@ == cleaned(markdown(content@)),
{
}

/// A comment is written with what is shown of its content.
pub proof fn law_comments_are_written_with_their_shown_content(
    c: Comment,
    is_reply: bool,
    admin_email: Option<&str>,
    shown: &str,
    r: String,
    s: String,
)
    requires
        shown@ == cleaned(markdown(c.content@)),
        call_ensures(render_comment_item, (&c, is_reply, admin_email), r),
        call_ensures(comment_item_html, (&c, shown, is_reply, admin_email), s),
    ensures
        r@ == s@,
{
}

/// What a comment gives for its row.
pub open spec fn row_parts(c: Comment, date: String) -> Seq<Seq<char>> {
    let status = if c.is_approved {
        APPROVED_BADGE@
    } else {
        PENDING_BADGE@
    };
    let kind = if c.parent_id is Some {
        REPLY_BADGE@
    } else {
        TOP_LEVEL_BADGE@
    };
    let label = if c.is_approved {
        "Unapprove"@
    } else {
        "Approve"@
    };
    let address = match c.author_email {
        Some(email) => email@,
        None => "-"@,
    };
    seq![
        c.id@,
        status,
        kind,
        c.post_slug@,
        c.post_slug@,
        c.author_name@,
        c.author_name@,
        address,
        address,
        c.content@,
        date@,
        c.id@,
        c.id@,
        label,
        c.id@,
        c.id@,
    ]
}

/// The frame of a row.
spec fn row_frame() -> Seq<Seq<char>> {
    seq![
        ROW_OPEN@,
        ROW_STATUS@,
        Seq::empty(),
        ROW_SLUG@,
        ROW_TITLE_END@,
        ROW_AUTHOR@,
        ROW_TITLE_END@,
        ROW_EMAIL@,
        ROW_TITLE_END@,
        ROW_CONTENT@,
        ROW_DATE@,
        ROW_TOGGLE@,
        ROW_TOGGLE_TARGET@,
        ROW_TOGGLE_LABEL@,
        ROW_DELETE@,
        ROW_DELETE_TARGET@,
        ROW_CLOSE@,
    ]
}

/// A frame with parts, filled up to some part.
spec fn filled_up_to(frame: Seq<Seq<char>>, parts: Seq<Seq<char>>, k: int) -> Seq<char> {
    filled(frame.take(k + 1), parts.take(k))
}

proof fn lemma_up_to(frame: Seq<Seq<char>>, parts: Seq<Seq<char>>, k: int)
    requires
        0 <= k < parts.len(),
        frame.len() == parts.len() + 1,
    ensures
        filled_up_to(frame, parts, k + 1) == filled_up_to(frame, parts, k) + parts[k] + frame[k + 1],
{
    assert(frame.take(k + 2).drop_last() =~= frame.take(k + 1));
    assert(parts.take(k + 1).drop_last() =~= parts.take(k));
}

proof fn lemma_row(c: Comment, date: String)
    requires
        date@ == admin_date(c@.created_at),
    ensures
        fills(admin_row(c@), row_frame(), row_parts(c, date)),
{
    let f = row_frame();
    let p = row_parts(c, date);
    assert(f.take(1) =~= seq![ROW_OPEN@]);
    assert(filled_up_to(f, p, 0) == ROW_OPEN@);
    lemma_up_to(f, p, 0);
    lemma_up_to(f, p, 1);
    lemma_up_to(f, p, 2);
    lemma_up_to(f, p, 3);
    lemma_up_to(f, p, 4);
    lemma_up_to(f, p, 5);
    lemma_up_to(f, p, 6);
    lemma_up_to(f, p, 7);
    lemma_up_to(f, p, 8);
    lemma_up_to(f, p, 9);
    lemma_up_to(f, p, 10);
    lemma_up_to(f, p, 11);
    lemma_up_to(f, p, 12);
    lemma_up_to(f, p, 13);
    lemma_up_to(f, p, 14);
    lemma_up_to(f, p, 15);
    assert(f.take(17) =~= f);
    assert(p.take(16) =~= p);
    let x = ROW_OPEN@ + c.id@ + ROW_STATUS@ + p[1];
    Seq::add_empty_right(x, Seq::<char>::empty());
    assert(filled_up_to(f, p, 2) == x);
    assert(shown_address(c@.author_email) == p[7]);
    assert(status_badge(c.is_approved) == p[1]);
    assert(type_badge(c@.parent_id is Some) == p[2]);
    assert(toggle_label(c.is_approved) == p[13]);
}

/// Any two rows of the moderation table are the same fixed text, with what their
/// comments give put into it at the same places: the id, a badge for its approval
/// and one that tells replies from top-level comments, the page, the name, the
/// address or a dash, the content, the date and the label of the button. None of
/// these depends on another.
pub proof fn law_rows_differ_in_what_their_comments_give(
    c: Comment,
    d: Comment,
    first_date: String,
    second_date: String,
    r: String,
    s: String,
)
    requires
        call_ensures(render_admin_row, (&c,), r),
        call_ensures(render_admin_row, (&d,), s),
        call_ensures(Timestamp::admin_date, (&c.created_at,), first_date),
        call_ensures(Timestamp::admin_date, (&d.created_at,), second_date),
    ensures
        exists|frame: Seq<Seq<char>>|
            {
                &&& #[trigger] fills(r@, frame, row_parts(c, first_date))
                &&& #[trigger] fills(s@, frame, row_parts(d, second_date))
            },
{
    lemma_row(c, first_date);
    lemma_row(d, second_date);
    assert(fills(r@, row_frame(), row_parts(c, first_date)));
    assert(fills(s@, row_frame(), row_parts(d, second_date)));
}

/// A text that goes on may be read as one that goes on with more.
proof fn lemma_regrouped(x: Seq<char>, b: Seq<char>, p: Seq<char>)
    ensures
        x + (b + p) == x + b + p,
{
    assert(x + (b + p) =~= x + b + p);
}

/// What stands in a row between the badge for its approval and the label of the
/// button, and behind the label.
spec fn row_between(c: CommentView) -> Seq<char> {
    let email = shown_address(c.author_email);
    type_badge(c.parent_id is Some) + ROW_SLUG@ + c.post_slug + ROW_TITLE_END@ + c.post_slug
        + ROW_AUTHOR@ + c.author_name + ROW_TITLE_END@ + c.author_name + ROW_EMAIL@ + email
        + ROW_TITLE_END@ + email + ROW_CONTENT@ + c.content + ROW_DATE@ + admin_date(c.created_at)
        + ROW_TOGGLE@ + c.id + ROW_TOGGLE_TARGET@ + c.id + ROW_TOGGLE_LABEL@
}

spec fn row_behind(c: CommentView) -> Seq<char> {
    ROW_DELETE@ + c.id + ROW_DELETE_TARGET@ + c.id + ROW_CLOSE@
}

proof fn lemma_row_apart(c: CommentView)
    ensures
        admin_row(c) == ROW_OPEN@ + c.id + ROW_STATUS@ + status_badge(c.is_approved) + row_between(
            c,
        ) + toggle_label(c.is_approved) + row_behind(c),
{
    let email = shown_address(c.author_email);
    let label = toggle_label(c.is_approved);
    let x = ROW_OPEN@ + c.id + ROW_STATUS@ + status_badge(c.is_approved);
    let b0 = type_badge(c.parent_id is Some);
    let b1 = b0 + ROW_SLUG@;
    lemma_regrouped(x, b0, ROW_SLUG@);
    let b2 = b1 + c.post_slug;
    lemma_regrouped(x, b1, c.post_slug);
    let b3 = b2 + ROW_TITLE_END@;
    lemma_regrouped(x, b2, ROW_TITLE_END@);
    let b4 = b3 + c.post_slug;
    lemma_regrouped(x, b3, c.post_slug);
    let b5 = b4 + ROW_AUTHOR@;
    lemma_regrouped(x, b4, ROW_AUTHOR@);
    let b6 = b5 + c.author_name;
    lemma_regrouped(x, b5, c.author_name);
    let b7 = b6 + ROW_TITLE_END@;
    lemma_regrouped(x, b6, ROW_TITLE_END@);
    let b8 = b7 + c.author_name;
    lemma_regrouped(x, b7, c.author_name);
    let b9 = b8 + ROW_EMAIL@;
    lemma_regrouped(x, b8, ROW_EMAIL@);
    let b10 = b9 + email;
    lemma_regrouped(x, b9, email);
    let b11 = b10 + ROW_TITLE_END@;
    lemma_regrouped(x, b10, ROW_TITLE_END@);
    let b12 = b11 + email;
    lemma_regrouped(x, b11, email);
    let b13 = b12 + ROW_CONTENT@;
    lemma_regrouped(x, b12, ROW_CONTENT@);
    let b14 = b13 + c.content;
    lemma_regrouped(x, b13, c.content);
    let b15 = b14 + ROW_DATE@;
    lemma_regrouped(x, b14, ROW_DATE@);
    let b16 = b15 + admin_date(c.created_at);
    lemma_regrouped(x, b15, admin_date(c.created_at));
    let b17 = b16 + ROW_TOGGLE@;
    lemma_regrouped(x, b16, ROW_TOGGLE@);
    let b18 = b17 + c.id;
    lemma_regrouped(x, b17, c.id);
    let b19 = b18 + ROW_TOGGLE_TARGET@;
    lemma_regrouped(x, b18, ROW_TOGGLE_TARGET@);
    let b20 = b19 + c.id;
    lemma_regrouped(x, b19, c.id);
    let b21 = b20 + ROW_TOGGLE_LABEL@;
    lemma_regrouped(x, b20, ROW_TOGGLE_LABEL@);
    let y = x + b21 + label;
    let e0 = ROW_DELETE@;
    let e1 = e0 + c.id;
    lemma_regrouped(y, e0, c.id);
    let e2 = e1 + ROW_DELETE_TARGET@;
    lemma_regrouped(y, e1, ROW_DELETE_TARGET@);
    let e3 = e2 + c.id;
    lemma_regrouped(y, e2, c.id);
    let e4 = e3 + ROW_CLOSE@;
    lemma_regrouped(y, e3, ROW_CLOSE@);
}

/// The badge and the label of a row by the approval of its comment.
pub open spec fn approval_parts(is_approved: bool) -> Seq<Seq<char>> {
    if is_approved {
        seq![APPROVED_BADGE@, "Unapprove"@]
    } else {
        seq![PENDING_BADGE@, "Approve"@]
    }
}

/// A change of approval changes two things in a row: the badge for the approval
/// and the label of the button.
pub proof fn law_toggled_rows_differ_in_badge_and_label_only(c: CommentView)
    ensures
        exists|frame: Seq<Seq<char>>|
            {
                &&& #[trigger] fills(admin_row(c), frame, approval_parts(c.is_approved))
                &&& fills(admin_row(flipped(c)), frame, approval_parts(!c.is_approved))
            },
{
    let frame = seq![ROW_OPEN@ + c.id + ROW_STATUS@, row_between(c), row_behind(c)];
    lemma_row_apart(c);
    lemma_row_apart(flipped(c));
    lemma_two_parts(frame, approval_parts(c.is_approved));
    lemma_two_parts(frame, approval_parts(!c.is_approved));
    assert(row_between(flipped(c)) == row_between(c));
    assert(row_behind(flipped(c)) == row_behind(c));
    assert(fills(admin_row(c), frame, approval_parts(c.is_approved)));
}

proof fn lemma_two_parts(frame: Seq<Seq<char>>, parts: Seq<Seq<char>>)
    requires
        frame.len() == 3,
        parts.len() == 2,
    ensures
        filled(frame, parts) == frame[0] + parts[0] + frame[1] + parts[1] + frame[2],
{
    let f = frame.drop_last();
    let p = parts.drop_last();
    assert(filled(f.drop_last(), p.drop_last()) == frame[0]);
    assert(filled(f, p) == frame[0] + parts[0] + frame[1]);
}

/// A row shows the badge of a reply for every reply, and that of a top-level
/// comment for every other, whatever their approval.
pub proof fn law_rows_tell_replies_from_top_level_comments(c: CommentView)
    ensures
        c.parent_id is Some ==> occurs(REPLY_BADGE@, admin_row(c)),
        c.parent_id is None ==> occurs(TOP_LEVEL_BADGE@, admin_row(c)),
{
    let badge = if c.parent_id is Some {
        REPLY_BADGE@
    } else {
        TOP_LEVEL_BADGE@
    };
    assert(badge.subrange(0, badge.len() as int) =~= badge);
    assert(occurs_at(badge, badge, 0));
    lemma_between_starts(c, badge);
    lemma_row_apart(c);
    let before = ROW_OPEN@ + c.id + ROW_STATUS@ + status_badge(c.is_approved);
    lemma_occurs_within(badge, before, row_between(c), toggle_label(c.is_approved));
    let none = Seq::<char>::empty();
    let most = before + row_between(c) + toggle_label(c.is_approved);
    lemma_occurs_within(badge, none, most, row_behind(c));
    assert(none + most =~= most);
}

proof fn lemma_between_starts(c: CommentView, badge: Seq<char>)
    requires
        badge == type_badge(c.parent_id is Some),
    ensures
        occurs(badge, row_between(c)),
{
    let email = shown_address(c.author_email);
    let b = row_between(c);
    assert(b.subrange(0, badge.len() as int) =~= badge);
    assert(occurs_at(badge, b, 0));
}

/// The login page with a message is the page without one, with the message put
/// in at one place; which message it is changes nothing else.
pub proof fn law_login_pages_differ_in_their_message(
    a: &str,
    b: &str,
    plain: String,
    first: String,
    second: String,
)
    requires
        call_ensures(render_login_page, (None::<&str>,), plain),
        call_ensures(render_login_page, (Some(a),), first),
        call_ensures(render_login_page, (Some(b),), second),
    ensures
        exists|head: Seq<char>, open: Seq<char>, close: Seq<char>, tail: Seq<char>|
            #![trigger head + open + close + tail]
            {
                &&& plain@ == head + tail
                &&& first@ == head + (open + a@ + close) + tail
                &&& second@ == head + (open + b@ + close) + tail
            },
{
    reveal_strlit("");
    let head = LOGIN_OPEN@;
    let tail = LOGIN_CLOSE@;
    assert(head + ""@ =~= head);
    assert(head + LOGIN_ERROR_OPEN@ + LOGIN_ERROR_CLOSE@ + tail == head + LOGIN_ERROR_OPEN@
        + LOGIN_ERROR_CLOSE@ + tail);
}

} // verus!
