//! How comments and replies stand on a page.

use crate::author::admin_address;
use crate::comments::{get_comments, write_threads_page};
use crate::laws::answers::{lemma_answer, page_is};
use crate::markup::{cleaned, markdown};
use crate::models::Comment;
use crate::pages::{comment_item, comment_item_html};
use crate::reply::Response;
use crate::text::{lemma_occurs_within, occurs, occurs_at};
use crate::threads::{
    law_absent_comment_is_cut_out_with_its_replies, replies_to, reply_list, thread, thread_list,
    threads_of, write_threads, Rendered, RenderedView,
};
use vstd::prelude::*;

verus! {

/// A comment as it stands on a page, at the top level or beneath another.
pub open spec fn shown_as(r: RenderedView, is_reply: bool, admin_email: Seq<char>) -> Seq<char> {
    comment_item(r.comment, r.content, is_reply, admin_email)
}

/// The list of replies beneath a comment is the items of all of them, one after
/// the other: none for no replies, and one more item for one more reply.
pub proof fn law_every_reply_is_listed(
    replies: Seq<RenderedView>,
    r: RenderedView,
    admin_email: Seq<char>,
)
    ensures
        reply_list(Seq::empty(), admin_email) == Seq::<char>::empty(),
        reply_list(replies.push(r), admin_email) == reply_list(replies, admin_email) + shown_as(
            r,
            true,
            admin_email,
        ),
{
    let f = |r: RenderedView| comment_item(r.comment, r.content, true, admin_email);
    let none = Seq::<RenderedView>::empty();
    assert(none.map_values(f) =~= Seq::<Seq<char>>::empty());
    let parts = replies.push(r).map_values(f);
    assert(parts.drop_last() =~= replies.map_values(f));
    assert(parts.last() == f(r));
}

/// A thread without replies is the item of its comment. One more item in the list
/// adds itself, as a reply, at the end of the thread that it replies to, and
/// nothing to any other.
pub proof fn law_threads_grow_by_their_replies(
    items: Seq<RenderedView>,
    x: RenderedView,
    parent: RenderedView,
    admin_email: Seq<char>,
)
    ensures
        thread(Seq::empty(), parent, admin_email) == shown_as(parent, false, admin_email),
        x.comment.parent_id == Some(parent.comment.id) ==> thread(
            items.push(x),
            parent,
            admin_email,
        ) == thread(items, parent, admin_email) + shown_as(x, true, admin_email),
        x.comment.parent_id != Some(parent.comment.id) ==> thread(
            items.push(x),
            parent,
            admin_email,
        ) == thread(items, parent, admin_email),
{
    let id = parent.comment.id;
    let none = Seq::<RenderedView>::empty();
    let first = shown_as(parent, false, admin_email);
    lemma_replies_grow(items, x, id);
    law_every_reply_is_listed(replies_to(items, id), x, admin_email);
    Seq::add_empty_right(first, Seq::<char>::empty());
    let above = reply_list(replies_to(items, id), admin_email);
    let item = shown_as(x, true, admin_email);
    assert(first + (above + item) =~= first + above + item) by {
        lemma_three(first, above, item);
    }
}

proof fn lemma_three(a: Seq<char>, b: Seq<char>, c: Seq<char>)
    ensures
        a + (b + c) == a + b + c,
{
    assert(a + (b + c) =~= a + b + c);
}

proof fn lemma_replies_grow(items: Seq<RenderedView>, x: RenderedView, id: Seq<char>)
    ensures
        replies_to(Seq::empty(), id) == Seq::<RenderedView>::empty(),
        replies_to(items.push(x), id) == if x.comment.parent_id == Some(id) {
            replies_to(items, id).push(x)
        } else {
            replies_to(items, id)
        },
{
    reveal(Seq::filter);
    assert(items.push(x).drop_last() =~= items);
}

/// The threads of some comments stand one after the other in their order, one for
/// each top-level comment among them and none for a reply. A page is the threads
/// of all its comments.
pub proof fn law_pages_are_the_threads_of_their_comments(
    parents: Seq<RenderedView>,
    t: RenderedView,
    items: Seq<RenderedView>,
    admin_email: Seq<char>,
)
    ensures
        threads_of(Seq::empty(), items, admin_email) == Seq::<char>::empty(),
        t.comment.parent_id is None ==> threads_of(parents.push(t), items, admin_email)
            == threads_of(parents, items, admin_email) + thread(items, t, admin_email),
        t.comment.parent_id is Some ==> threads_of(parents.push(t), items, admin_email)
            == threads_of(parents, items, admin_email),
        thread_list(items, admin_email) == threads_of(items, items, admin_email),
{
    reveal(Seq::filter);
    let is_top = |r: RenderedView| r.comment.parent_id is None;
    let f = |p: RenderedView| thread(items, p, admin_email);
    let none = Seq::<RenderedView>::empty();
    assert(none.filter(is_top) =~= none);
    assert(none.map_values(f) =~= Seq::<Seq<char>>::empty());
    assert(parents.push(t).drop_last() =~= parents);
    if t.comment.parent_id is None {
        let tops = parents.filter(is_top);
        let parts = tops.push(t).map_values(f);
        assert(parts.drop_last() =~= tops.map_values(f));
        assert(parts.last() == f(t));
    }
}

/// What is written for a list of comments is the threads of all of them.
pub proof fn law_all_threads_are_written(
    items: Vec<Rendered>,
    admin_email: Option<&str>,
    r: String,
)
    requires
        call_ensures(write_threads, (&items, admin_email), r),
    ensures
        r@ == threads_of(
            items.deep_view(),
            items.deep_view(),
            admin_address(admin_email.deep_view()),
        ),
{
    law_pages_are_the_threads_of_their_comments(
        Seq::empty(),
        items.deep_view()[0],
        items.deep_view(),
        admin_address(admin_email.deep_view()),
    );
}

/// A reply stands in the list of replies.
proof fn lemma_reply_occurs(
    items: Seq<RenderedView>,
    j: int,
    parent: RenderedView,
    admin_email: Seq<char>,
)
    requires
        0 <= j < items.len(),
        items[j].comment.parent_id == Some(parent.comment.id),
    ensures
        occurs(shown_as(items[j], true, admin_email), thread(items, parent, admin_email)),
    decreases items.len(),
{
    let rest = items.drop_last();
    let last = items.last();
    let word = shown_as(items[j], true, admin_email);
    let none = Seq::<char>::empty();
    assert(rest.push(last) =~= items);
    law_threads_grow_by_their_replies(rest, last, parent, admin_email);
    let above = thread(rest, parent, admin_email);
    if j == items.len() - 1 {
        lemma_occurs_itself(word);
        lemma_occurs_within(word, above, word, none);
        assert(above + word + none =~= above + word) by {
            Seq::add_empty_right(above + word, none);
        }
    } else {
        assert(rest[j] == items[j]);
        lemma_reply_occurs(rest, j, parent, admin_email);
        let more = shown_as(last, true, admin_email);
        lemma_occurs_within(word, none, above, more);
        lemma_none_before(above, more);
    }
}

proof fn lemma_none_before(a: Seq<char>, b: Seq<char>)
    ensures
        Seq::<char>::empty() + a + b == a + b,
{
    assert(Seq::<char>::empty() + a + b =~= a + b);
}

proof fn lemma_occurs_itself(word: Seq<char>)
    ensures
        occurs(word, word),
{
    assert(word.subrange(0, word.len() as int) =~= word);
    assert(occurs_at(word, word, 0));
}

/// The item of a comment stands in its thread.
proof fn lemma_parent_occurs(
    items: Seq<RenderedView>,
    parent: RenderedView,
    admin_email: Seq<char>,
)
    ensures
        occurs(shown_as(parent, false, admin_email), thread(items, parent, admin_email)),
{
    let word = shown_as(parent, false, admin_email);
    let list = reply_list(replies_to(items, parent.comment.id), admin_email);
    lemma_occurs_itself(word);
    lemma_occurs_within(word, Seq::empty(), word, list);
    lemma_none_before(word, list);
}

/// Every comment of a list is on its page: a top-level comment as such, and a
/// reply to a top-level comment of the list as a reply.
pub proof fn law_every_comment_is_on_the_page(
    items: Vec<Rendered>,
    k: int,
    j: int,
    admin_email: Option<&str>,
    page: String,
    top: String,
    reply: String,
    top_content: &str,
    reply_content: &str,
)
    requires
        call_ensures(write_threads, (&items, admin_email), page),
        0 <= k < items@.len(),
        0 <= j < items@.len(),
        items@[k].comment.parent_id is None,
        items@[j].comment.parent_id is Some,
        items@[j].comment.parent_id->0@ == items@[k].comment.id@,
        top_content@ == items@[k].content@,
        reply_content@ == items@[j].content@,
        call_ensures(
            comment_item_html,
            (&items@[k].comment, top_content, false, admin_email),
            top,
        ),
        call_ensures(
            comment_item_html,
            (&items@[j].comment, reply_content, true, admin_email),
            reply,
        ),
    ensures
        occurs(top@, page@),
        occurs(reply@, page@),
{
    let all = items.deep_view();
    let admin = admin_address(admin_email.deep_view());
    assert(all[k] == items@[k]@);
    assert(all[j] == items@[j]@);
    law_absent_comment_is_cut_out_with_its_replies(all, k, admin);
    lemma_parent_occurs(all, all[k], admin);
    lemma_reply_occurs(all, j, all[k], admin);
    let rest = all.remove(k);
    let above = threads_of(all.take(k), rest, admin);
    let below = threads_of(all.skip(k + 1), rest, admin);
    lemma_occurs_within(top@, above, thread(all, all[k], admin), below);
    lemma_occurs_within(reply@, above, thread(all, all[k], admin), below);
}

/// Every top-level comment of a list is on its page.
pub proof fn law_every_top_level_comment_is_on_the_page(
    items: Vec<Rendered>,
    k: int,
    admin_email: Option<&str>,
    page: String,
    top: String,
    content: &str,
)
    requires
        call_ensures(write_threads, (&items, admin_email), page),
        0 <= k < items@.len(),
        items@[k].comment.parent_id is None,
        content@ == items@[k].content@,
        call_ensures(comment_item_html, (&items@[k].comment, content, false, admin_email), top),
    ensures
        occurs(top@, page@),
{
    let all = items.deep_view();
    let admin = admin_address(admin_email.deep_view());
    assert(all[k] == items@[k]@);
    law_absent_comment_is_cut_out_with_its_replies(all, k, admin);
    lemma_parent_occurs(all, all[k], admin);
    let rest = all.remove(k);
    let above = threads_of(all.take(k), rest, admin);
    let below = threads_of(all.skip(k + 1), rest, admin);
    lemma_occurs_within(top@, above, thread(all, all[k], admin), below);
}

/// A list of comments is answered with what is written for it, and with a
/// sentence where it is empty.
pub proof fn law_lists_are_answered_with_their_threads(
    items: Vec<Rendered>,
    admin_email: Option<&str>,
    written: String,
    r: Response,
)
    requires
        call_ensures(write_threads_page, (&items, admin_email), r),
        call_ensures(write_threads, (&items, admin_email), written),
    ensures
        page_is(
            r,
            200,
            if items@.len() == 0 {
                "<p class=\"no-comments\">No comments yet. Be the first to share your thoughts!</p>"@
            } else {
                written@
            },
        ),
{
    lemma_answer(r);
}

/// The comments that were fetched for a page are answered as a list, all of them
/// and in their order, each with what cleaning leaves of the Markdown of its
/// content. Where nothing could be fetched, the list is empty.
pub proof fn law_fetched_comments_are_all_answered(
    fetched: Option<Vec<Comment>>,
    items: Vec<Rendered>,
    admin_email: Option<&str>,
    r: Response,
    s: Response,
)
    requires
        call_ensures(get_comments, (fetched, admin_email), r),
        call_ensures(write_threads_page, (&items, admin_email), s),
        fetched is None ==> items@.len() == 0,
        fetched is Some ==> {
            &&& items@.len() == fetched->0@.len()
            &&& forall|i: int|
                0 <= i < items@.len() ==> (#[trigger] items@[i]).comment == fetched->0@[i]
                    && items@[i].content@ == cleaned(markdown(fetched->0@[i].content@))
        },
    ensures
        page_is(r, 200, s.body@),
{
    let comments = crate::comments::fetched_or_none(fetched.deep_view());
    let all = crate::comments::rendered(comments);
    let seen = items.deep_view();
    assert(seen.len() == items@.len());
    assert(all.len() == seen.len()) by {
        if fetched is Some {
            assert(fetched->0.deep_view().len() == fetched->0@.len());
        }
    }
    assert forall|i: int| 0 <= i < seen.len() implies seen[i] == all[i] by {
        assert(seen[i] == items@[i]@);
        assert(items@[i].comment == fetched->0@[i]);
        assert(comments[i] == fetched->0@[i]@);
    }
    assert(seen =~= all);
    lemma_answer(r);
    lemma_answer(s);
}

} // verus!
