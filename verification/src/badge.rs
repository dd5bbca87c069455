//! Whose comments carry the administrator's badge.

use crate::author::by_admin;
use crate::comments::{insert_statement, new_comment, stored_comment};
use crate::ids::{hex_digit, random_uuid};
use crate::models::{CommentView, FormView};
use crate::pages::{comment_item, item_class, reply_button};
use crate::store::SqlValueView;
use crate::templates::{
    ADMIN_BADGE, ITEM_AUTHOR, ITEM_BADGE, ITEM_CLOSE, ITEM_CONTENT, ITEM_DATE, ITEM_OPEN,
    ITEM_REPLY, ITEM_SLOT, REPLY_BUTTON_CLOSE, REPLY_BUTTON_OPEN,
};
use crate::text::{
    lemma_absent, lemma_absent_across, lemma_occurs_inside, lemma_occurs_within, occurs,
    occurs_at,
};
use crate::time::{digits, month_name, visitor_date, year_text, Civil};
use vstd::prelude::*;

verus! {

/// The class of the badge, by which it is known in a page.
pub const BADGE_CLASS: &'static str = "mr-admin-badge";

/// The characters of the class that the proofs look for, and those that never
/// stand in it.
proof fn lemma_class()
    ensures
        BADGE_CLASS@.contains('g'),
        BADGE_CLASS@.contains('m'),
        !BADGE_CLASS@.contains('<'),
        !BADGE_CLASS@.contains('>'),
{
    reveal_strlit("mr-admin-badge");
    assert(BADGE_CLASS@[12] == 'g');
    assert(BADGE_CLASS@[0] == 'm');
}

/// The badge is known by its class.
proof fn lemma_badge_holds_class()
    ensures
        occurs(BADGE_CLASS@, ADMIN_BADGE@),
{
    reveal_strlit("mr-admin-badge");
    reveal_strlit("<span class=\"mr-admin-badge\">Admin</span>");
    assert(ADMIN_BADGE@.subrange(13, 27) =~= BADGE_CLASS@);
    assert(occurs_at(BADGE_CLASS@, ADMIN_BADGE@, 13));
}

/// A text that is put together of two lacks what both lack.
proof fn lemma_lacks_both(a: Seq<char>, b: Seq<char>, c: char)
    requires
        !a.contains(c),
        !b.contains(c),
    ensures
        !(a + b).contains(c),
{
    let s = a + b;
    if s.contains(c) {
        let i = choose|i: int| 0 <= i < s.len() && s[i] == c;
        if i < a.len() {
            assert(a[i] == c);
        } else {
            assert(b[i - a.len()] == c);
        }
    }
}

/// The part of a comment before its author's name.
proof fn lemma_head(is_reply: bool)
    ensures
        ({
            let head = ITEM_OPEN@ + item_class(is_reply) + ITEM_AUTHOR@;
            &&& !head.contains('g')
            &&& head.len() > 0
            &&& head.last() == '>'
        }),
{
    reveal_strlit("<div class=\"");
    reveal_strlit("comment-item comment-reply");
    reveal_strlit("comment-item");
    reveal_strlit("\"><div class=\"comment-header\"><div><span class=\"comment-author\">");
    assert(!ITEM_OPEN@.contains('g'));
    assert(!item_class(is_reply).contains('g'));
    assert(!ITEM_AUTHOR@.contains('g'));
    lemma_lacks_both(ITEM_OPEN@, item_class(is_reply), 'g');
    lemma_lacks_both(ITEM_OPEN@ + item_class(is_reply), ITEM_AUTHOR@, 'g');
}

/// The fixed parts between the name, the date and the content.
proof fn lemma_middle()
    ensures
        !(ITEM_BADGE@ + ITEM_DATE@).contains('g'),
        (ITEM_BADGE@ + ITEM_DATE@).len() > 0,
        (ITEM_BADGE@ + ITEM_DATE@)[0] == '<',
        (ITEM_BADGE@ + ITEM_DATE@).last() == '>',
        !ITEM_CONTENT@.contains('g'),
        ITEM_CONTENT@.len() > 0,
        ITEM_CONTENT@[0] == '<',
        ITEM_CONTENT@.last() == '>',
{
    reveal_strlit("</span>");
    reveal_strlit("</div><span class=\"comment-date\">");
    reveal_strlit("</span></div><div class=\"comment-content\">");
    assert(!ITEM_BADGE@.contains('g'));
    assert(!ITEM_DATE@.contains('g'));
    lemma_lacks_both(ITEM_BADGE@, ITEM_DATE@, 'g');
}

/// The button that answers a comment.
proof fn lemma_button(id: Seq<char>, is_reply: bool)
    requires
        !id.contains('g'),
    ensures
        !reply_button(id, is_reply).contains('g'),
{
    reveal_strlit("");
    reveal_strlit(
        "<button type=\"button\" class=\"mr-reply-btn\" onclick=\"window.mrReplyTo('",
    );
    reveal_strlit("')\">↳ Reply</button>");
    assert(!REPLY_BUTTON_OPEN@.contains('g'));
    assert(!REPLY_BUTTON_CLOSE@.contains('g'));
    lemma_lacks_both(REPLY_BUTTON_OPEN@, id, 'g');
    lemma_lacks_both(REPLY_BUTTON_OPEN@ + id, REPLY_BUTTON_CLOSE@, 'g');
}

/// The part of a comment after its content.
pub open spec fn item_tail(id: Seq<char>, is_reply: bool) -> Seq<char> {
    ITEM_REPLY@ + reply_button(id, is_reply) + ITEM_SLOT@ + id + ITEM_CLOSE@
}

proof fn lemma_tail(id: Seq<char>, is_reply: bool)
    requires
        !id.contains('g'),
    ensures
        !item_tail(id, is_reply).contains('g'),
        item_tail(id, is_reply).len() > 0,
        item_tail(id, is_reply)[0] == '<',
{
    reveal_strlit("</div>");
    reveal_strlit("<div id=\"mr-slot-");
    reveal_strlit("\" class=\"mr-form-slot\"></div></div>");
    assert(!ITEM_REPLY@.contains('g'));
    assert(!ITEM_SLOT@.contains('g'));
    assert(!ITEM_CLOSE@.contains('g'));
    let button = reply_button(id, is_reply);
    lemma_button(id, is_reply);
    lemma_lacks_both(ITEM_REPLY@, button, 'g');
    lemma_lacks_both(ITEM_REPLY@ + button, ITEM_SLOT@, 'g');
    lemma_lacks_both(ITEM_REPLY@ + button + ITEM_SLOT@, id, 'g');
    lemma_lacks_both(ITEM_REPLY@ + button + ITEM_SLOT@ + id, ITEM_CLOSE@, 'g');
}

/// A number holds digits only.
proof fn lemma_digits(n: nat, width: nat)
    ensures
        !digits(n, width).contains('m'),
    decreases width,
{
    if width > 0 {
        let rest = digits(n / 10, (width - 1) as nat);
        let last = (48 + n % 10) as char;
        lemma_digits(n / 10, (width - 1) as nat);
        assert(last != 'm');
        assert(rest.push(last) =~= rest + seq![last]);
        lemma_lacks_both(rest, seq![last], 'm');
    }
}

proof fn lemma_year(year: int)
    ensures
        !year_text(year).contains('m'),
{
    let size = if year < 0 {
        -year
    } else {
        year
    };
    let sign = if 0 <= year <= 9999 {
        Seq::empty()
    } else if year < 0 {
        seq!['-']
    } else {
        seq!['+']
    };
    lemma_digits(size as nat, 4);
    lemma_digits(size as nat, 5);
    lemma_digits(size as nat, 6);
    assert(!sign.contains('m'));
    lemma_lacks_both(sign, digits(size as nat, 4), 'm');
    lemma_lacks_both(sign, digits(size as nat, 5), 'm');
    lemma_lacks_both(sign, digits(size as nat, 6), 'm');
}

/// No date holds the first character of the class.
proof fn lemma_date(t: Civil)
    ensures
        !visitor_date(t).contains('m'),
{
    let month = month_name(t.month as int);
    assert(!month.contains('m'));
    let d1 = month + seq![' '];
    lemma_lacks_both(month, seq![' '], 'm');
    let d2 = d1 + digits(t.day as nat, 2);
    lemma_digits(t.day as nat, 2);
    lemma_lacks_both(d1, digits(t.day as nat, 2), 'm');
    let d3 = d2 + seq![',', ' '];
    assert(!seq![',', ' '].contains('m'));
    lemma_lacks_both(d2, seq![',', ' '], 'm');
    let d4 = d3 + year_text(t.year as int);
    lemma_year(t.year as int);
    lemma_lacks_both(d3, year_text(t.year as int), 'm');
    let d5 = d4 + seq![' ', 'a', 't', ' '];
    assert(!seq![' ', 'a', 't', ' '].contains('m'));
    lemma_lacks_both(d4, seq![' ', 'a', 't', ' '], 'm');
    let d6 = d5 + digits(t.hour as nat, 2);
    lemma_digits(t.hour as nat, 2);
    lemma_lacks_both(d5, digits(t.hour as nat, 2), 'm');
    let d7 = d6 + seq![':'];
    lemma_lacks_both(d6, seq![':'], 'm');
    lemma_digits(t.minute as nat, 2);
    lemma_lacks_both(d7, digits(t.minute as nat, 2), 'm');
}

/// A word stands in no part of a chain of texts whose borders it cannot cross,
/// so it does not stand in the chain.
proof fn lemma_chain(
    word: Seq<char>,
    head: Seq<char>,
    name: Seq<char>,
    middle: Seq<char>,
    date: Seq<char>,
    next: Seq<char>,
    content: Seq<char>,
    tail: Seq<char>,
)
    requires
        !word.contains('<'),
        !word.contains('>'),
        !occurs(word, head),
        !occurs(word, name),
        !occurs(word, middle),
        !occurs(word, date),
        !occurs(word, next),
        !occurs(word, content),
        !occurs(word, tail),
        head.len() > 0,
        head.last() == '>',
        middle.len() > 0,
        middle[0] == '<',
        middle.last() == '>',
        next.len() > 0,
        next[0] == '<',
        next.last() == '>',
        tail.len() > 0,
        tail[0] == '<',
    ensures
        !occurs(word, head + name + middle + date + next + content + tail),
{
    lemma_absent_across(word, head, name);
    lemma_absent_across(word, head + name, middle);
    lemma_absent_across(word, head + name + middle, date);
    lemma_absent_across(word, head + name + middle + date, next);
    lemma_absent_across(word, head + name + middle + date + next, content);
    lemma_absent_across(word, head + name + middle + date + next + content, tail);
}

/// A comment of someone else, in parts.
proof fn lemma_parts(c: CommentView, content: Seq<char>, is_reply: bool, admin_email: Seq<char>)
    requires
        !by_admin(c.author_email, admin_email),
    ensures
        comment_item(c, content, is_reply, admin_email) == ITEM_OPEN@ + item_class(is_reply)
            + ITEM_AUTHOR@ + c.author_name + (ITEM_BADGE@ + ITEM_DATE@) + visitor_date(c.created_at)
            + ITEM_CONTENT@ + content + item_tail(c.id, is_reply),
{
    reveal_strlit("");
    let start = ITEM_OPEN@ + item_class(is_reply) + ITEM_AUTHOR@ + c.author_name;
    assert(start + ITEM_BADGE@ + ""@ + ITEM_DATE@ =~= start + (ITEM_BADGE@ + ITEM_DATE@));
    let front = start + (ITEM_BADGE@ + ITEM_DATE@) + visitor_date(c.created_at) + ITEM_CONTENT@
        + content;
    lemma_regroup(
        front,
        ITEM_REPLY@,
        reply_button(c.id, is_reply),
        ITEM_SLOT@,
        c.id,
        ITEM_CLOSE@,
    );
}

proof fn lemma_regroup(
    front: Seq<char>,
    a: Seq<char>,
    b: Seq<char>,
    c: Seq<char>,
    d: Seq<char>,
    e: Seq<char>,
)
    ensures
        front + a + b + c + d + e == front + (a + b + c + d + e),
{
}

/// A comment of someone else holds the class of the badge nowhere, unless its
/// author's name or its content does.
proof fn lemma_no_badge(c: CommentView, content: Seq<char>, is_reply: bool, admin_email: Seq<char>)
    requires
        !by_admin(c.author_email, admin_email),
        !c.id.contains('g'),
        !occurs(BADGE_CLASS@, c.author_name),
        !occurs(BADGE_CLASS@, content),
    ensures
        !occurs(BADGE_CLASS@, comment_item(c, content, is_reply, admin_email)),
{
    let word = BADGE_CLASS@;
    let head = ITEM_OPEN@ + item_class(is_reply) + ITEM_AUTHOR@;
    let middle = ITEM_BADGE@ + ITEM_DATE@;
    let date = visitor_date(c.created_at);
    let tail = item_tail(c.id, is_reply);
    lemma_class();
    lemma_head(is_reply);
    lemma_middle();
    lemma_date(c.created_at);
    lemma_tail(c.id, is_reply);
    lemma_absent(word, head, 'g');
    lemma_absent(word, middle, 'g');
    lemma_absent(word, date, 'm');
    lemma_absent(word, ITEM_CONTENT@, 'g');
    lemma_absent(word, tail, 'g');
    lemma_chain(word, head, c.author_name, middle, date, ITEM_CONTENT@, content, tail);
    lemma_parts(c, content, is_reply, admin_email);
}

/// A comment of the administrator holds the badge.
proof fn lemma_badge(c: CommentView, content: Seq<char>, is_reply: bool, admin_email: Seq<char>)
    requires
        by_admin(c.author_email, admin_email),
    ensures
        occurs(ADMIN_BADGE@, comment_item(c, content, is_reply, admin_email)),
{
    let badge = ADMIN_BADGE@;
    assert(badge.subrange(0, badge.len() as int) =~= badge);
    assert(occurs_at(badge, badge, 0));
    let s0 = ITEM_OPEN@ + item_class(is_reply) + ITEM_AUTHOR@ + c.author_name + ITEM_BADGE@;
    lemma_occurs_within(badge, s0, badge, ITEM_DATE@);
    let s1 = s0 + badge + ITEM_DATE@;
    let s2 = s1 + visitor_date(c.created_at);
    let s3 = s2 + ITEM_CONTENT@;
    let s4 = s3 + content;
    let s5 = s4 + ITEM_REPLY@;
    let s6 = s5 + reply_button(c.id, is_reply);
    let s7 = s6 + ITEM_SLOT@;
    let s8 = s7 + c.id;
    lemma_occurs_before(badge, s1, visitor_date(c.created_at));
    lemma_occurs_before(badge, s2, ITEM_CONTENT@);
    lemma_occurs_before(badge, s3, content);
    lemma_occurs_before(badge, s4, ITEM_REPLY@);
    lemma_occurs_before(badge, s5, reply_button(c.id, is_reply));
    lemma_occurs_before(badge, s6, ITEM_SLOT@);
    lemma_occurs_before(badge, s7, c.id);
    lemma_occurs_before(badge, s8, ITEM_CLOSE@);
}

/// A word that stands in a text stands in it still where more follows.
proof fn lemma_occurs_before(word: Seq<char>, s: Seq<char>, after: Seq<char>)
    requires
        occurs(word, s),
    ensures
        occurs(word, s + after),
{
    let none = Seq::<char>::empty();
    lemma_occurs_within(word, none, s, after);
    assert(none + s + after =~= s + after);
}

/// A comment is shown with the administrator's badge exactly where it was
/// stored as approved. `shown` is the HTML of its content. This holds of every
/// comment whose name and content do not themselves spell out the class of the
/// badge.
pub proof fn law_badge_marks_comments_approved_from_the_start(
    form: FormView,
    author_name: Seq<char>,
    content: Seq<char>,
    id: Seq<char>,
    admin_email: Seq<char>,
    now: Civil,
    shown: Seq<char>,
    is_reply: bool,
)
    requires
        random_uuid(id),
        !occurs(BADGE_CLASS@, author_name),
        !occurs(BADGE_CLASS@, shown),
    ensures
        ({
            let c = new_comment(form, author_name, content, id, admin_email);
            let item = comment_item(stored_comment(c, now), shown, is_reply, admin_email);
            occurs(ADMIN_BADGE@, item) <==> insert_statement(c).values[5]
                == SqlValueView::Integer(1)
        }),
{
    let c = new_comment(form, author_name, content, id, admin_email);
    let stored = stored_comment(c, now);
    let item = comment_item(stored, shown, is_reply, admin_email);
    if c.by_admin {
        lemma_badge(stored, shown, is_reply, admin_email);
    } else {
        if id.contains('g') {
            let i = choose|i: int| 0 <= i < id.len() && id[i] == 'g';
            assert(id[i] == '-' || hex_digit(id[i]));
        }
        lemma_no_badge(stored, shown, is_reply, admin_email);
        if occurs(ADMIN_BADGE@, item) {
            lemma_badge_holds_class();
            lemma_occurs_inside(BADGE_CLASS@, ADMIN_BADGE@, item);
        }
    }
}

} // verus!
