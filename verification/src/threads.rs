//! Comments arranged in threads: each top-level comment with its replies
//! directly beneath it.

use crate::author::admin_address;
use crate::models::{Comment, CommentView};
use crate::pages::{comment_item, comment_item_html};
use vstd::hash_map::StringHashMap;
use vstd::prelude::*;

verus! {

/// A comment with the HTML of its content.
#[derive(Debug)]
pub struct Rendered {
    pub comment: Comment,
    pub content: String,
}

/// The text of a [`Rendered`] comment.
pub struct RenderedView {
    pub comment: CommentView,
    pub content: Seq<char>,
}

impl View for Rendered {
    type V = RenderedView;

    open spec fn view(&self) -> RenderedView {
        RenderedView { comment: self.comment@, content: self.content@ }
    }
}

impl DeepView for Rendered {
    type V = RenderedView;

    open spec fn deep_view(&self) -> RenderedView {
        self@
    }
}

/// Texts written one after the other.
pub open spec fn joined(parts: Seq<Seq<char>>) -> Seq<char>
    decreases parts.len(),
{
    if parts.len() == 0 {
        Seq::empty()
    } else {
        joined(parts.drop_last()) + parts.last()
    }
}

/// The top-level comments, in order.
pub open spec fn top_level(items: Seq<RenderedView>) -> Seq<RenderedView> {
    items.filter(|r: RenderedView| r.comment.parent_id is None)
}

/// The replies to a comment, in order.
pub open spec fn replies_to(items: Seq<RenderedView>, id: Seq<char>) -> Seq<RenderedView> {
    items.filter(|r: RenderedView| r.comment.parent_id == Some(id))
}

/// A list of replies.
pub open spec fn reply_list(replies: Seq<RenderedView>, admin_email: Seq<char>) -> Seq<char> {
    joined(
        replies.map_values(
            |r: RenderedView| comment_item(r.comment, r.content, true, admin_email),
        ),
    )
}

/// A top-level comment and replies beneath it.
pub open spec fn comment_with_replies(
    parent: RenderedView,
    replies: Seq<RenderedView>,
    admin_email: Seq<char>,
) -> Seq<char> {
    comment_item(parent.comment, parent.content, false, admin_email) + reply_list(
        replies,
        admin_email,
    )
}

/// A top-level comment and the replies to it.
pub open spec fn thread(
    items: Seq<RenderedView>,
    parent: RenderedView,
    admin_email: Seq<char>,
) -> Seq<char> {
    comment_with_replies(parent, replies_to(items, parent.comment.id), admin_email)
}

/// All threads, in the order of their top-level comments.
pub open spec fn thread_list(items: Seq<RenderedView>, admin_email: Seq<char>) -> Seq<char> {
    joined(top_level(items).map_values(|p: RenderedView| thread(items, p, admin_email)))
}

/// The threads of the top-level comments among some of the items, in order.
pub open spec fn threads_of(
    parents: Seq<RenderedView>,
    items: Seq<RenderedView>,
    admin_email: Seq<char>,
) -> Seq<char> {
    joined(top_level(parents).map_values(|p: RenderedView| thread(items, p, admin_email)))
}

/// The items at some positions.
spec fn picked(items: Seq<RenderedView>, positions: Seq<usize>) -> Seq<RenderedView> {
    positions.map_values(|k: usize| items[k as int])
}

/// Whether all positions lie before `n`.
spec fn all_below(positions: Seq<usize>, n: int) -> bool {
    forall|j: int| 0 <= j < positions.len() ==> #[trigger] positions[j] < n
}

/// One more item, and whether it passes.
proof fn lemma_filter_step(
    items: Seq<RenderedView>,
    i: int,
    pred: spec_fn(RenderedView) -> bool,
)
    requires
        0 <= i < items.len(),
    ensures
        items.take(i + 1).filter(pred) == if pred(items[i]) {
            items.take(i).filter(pred).push(items[i])
        } else {
            items.take(i).filter(pred)
        },
{
    reveal(Seq::filter);
    assert(items.take(i + 1).drop_last() == items.take(i));
    assert(items.take(i + 1).last() == items[i]);
}

/// Where the replies to each comment stand.
struct ReplyIndex {
    slots: StringHashMap<usize>,
    groups: Vec<Vec<usize>>,
}

impl ReplyIndex {
    /// Whether the index holds exactly the replies among the first `i` items.
    spec fn indexes(&self, items: Seq<RenderedView>, i: int) -> bool {
        &&& forall|id: Seq<char>| #[trigger]
            self.slots@.contains_key(id) ==> {
                &&& self.slots@[id] < self.groups@.len()
                &&& all_below(self.groups@[self.slots@[id] as int]@, i)
                &&& picked(items, self.groups@[self.slots@[id] as int]@) == replies_to(
                    items.take(i),
                    id,
                )
            }
        &&& forall|id: Seq<char>|
            !#[trigger] self.slots@.contains_key(id) ==> replies_to(items.take(i), id)
                == Seq::<RenderedView>::empty()
        &&& forall|a: Seq<char>, b: Seq<char>|
            self.slots@.contains_key(a) && self.slots@.contains_key(b) && a != b
                ==> #[trigger] self.slots@[a] != #[trigger] self.slots@[b]
    }

    /// An index of nothing.
    fn new(Ghost(items): Ghost<Seq<RenderedView>>) -> (r: ReplyIndex)
        ensures
            r.indexes(items, 0),
    {
        proof {
            assert forall|id: Seq<char>| #[trigger]
                replies_to(items.take(0), id) == Seq::<RenderedView>::empty() by {
                reveal(Seq::filter);
            }
        }
        ReplyIndex { slots: StringHashMap::new(), groups: Vec::new() }
    }

    /// Enters the item at position `i`, which is a reply to `parent`.
    fn enter(&mut self, parent: &String, i: usize, Ghost(items): Ghost<Seq<RenderedView>>)
        requires
            old(self).indexes(items, i as int),
            i < items.len(),
            items[i as int].comment.parent_id == Some(parent@),
        ensures
            final(self).indexes(items, i + 1),
    {
        proof {
            assert forall|id: Seq<char>| #[trigger]
                replies_to(items.take(i + 1), id) == if id == parent@ {
                    replies_to(items.take(i as int), id).push(items[i as int])
                } else {
                    replies_to(items.take(i as int), id)
                } by {
                lemma_filter_step(
                    items,
                    i as int,
                    |r: RenderedView| r.comment.parent_id == Some(id),
                );
            }
        }
        let slot: usize = match self.slots.get(parent.as_str()) {
            Some(slot) => *slot,
            None => self.groups.len(),
        };
        if slot == self.groups.len() {
            self.groups.push(Vec::new());
            self.slots.insert(parent.clone(), slot);
        }
        let ghost group = self.groups@[slot as int]@;
        assert(all_below(group, i as int));
        assert(picked(items, group) == replies_to(items.take(i as int), parent@));
        self.groups[slot].push(i);
        proof {
            assert(self.groups@[slot as int]@ == group.push(i));
            assert(picked(items, group.push(i)) == picked(items, group).push(items[i as int]));
            assert forall|id: Seq<char>| #[trigger] self.slots@.contains_key(id) implies {
                &&& self.slots@[id] < self.groups@.len()
                &&& all_below(self.groups@[self.slots@[id] as int]@, i + 1)
                &&& picked(items, self.groups@[self.slots@[id] as int]@) == replies_to(
                    items.take(i + 1),
                    id,
                )
            } by {
                if id != parent@ {
                    assert(old(self).slots@.contains_key(id));
                    assert(self.slots@[id] == old(self).slots@[id]);
                    let k = self.slots@[id] as int;
                    assert(k != slot);
                    assert(self.groups@[k]@ == old(self).groups@[k]@);
                    assert(all_below(old(self).groups@[k]@, i as int));
                }
            }
            assert forall|id: Seq<char>|
                !#[trigger] self.slots@.contains_key(id) implies replies_to(
                items.take(i + 1),
                id,
            ) == Seq::<RenderedView>::empty() by {
                assert(!old(self).slots@.contains_key(id));
            }
        }
    }
}

impl ReplyIndex {
    /// A top-level comment leaves the index as it is.
    proof fn lemma_skip(&self, items: Seq<RenderedView>, i: int)
        requires
            self.indexes(items, i),
            0 <= i < items.len(),
            items[i].comment.parent_id is None,
        ensures
            self.indexes(items, i + 1),
    {
        assert forall|id: Seq<char>| #[trigger]
            replies_to(items.take(i + 1), id) == replies_to(items.take(i), id) by {
            lemma_filter_step(items, i, |r: RenderedView| r.comment.parent_id == Some(id));
        }
        assert forall|id: Seq<char>| #[trigger] self.slots@.contains_key(id) implies all_below(
            self.groups@[self.slots@[id] as int]@,
            i + 1,
        ) by {
            assert(all_below(self.groups@[self.slots@[id] as int]@, i));
        }
    }
}

/// One more part.
proof fn lemma_joined_step(parts: Seq<Seq<char>>, i: int)
    requires
        0 <= i < parts.len(),
    ensures
        joined(parts.take(i + 1)) == joined(parts.take(i)) + parts[i],
{
    assert(parts.take(i + 1).drop_last() == parts.take(i));
}

/// Writes a list of replies, those of `items` at some positions.
fn write_replies(
    items: &Vec<Rendered>,
    positions: &Vec<usize>,
    admin_email: Option<&str>,
) -> (r: String)
    requires
        all_below(positions@, items@.len() as int),
    ensures
        r@ == reply_list(
            picked(items.deep_view(), positions@),
            admin_address(admin_email.deep_view()),
        ),
{
    let ghost admin = admin_address(admin_email.deep_view());
    let ghost parts = picked(items.deep_view(), positions@).map_values(
        |r: RenderedView| comment_item(r.comment, r.content, true, admin),
    );
    let mut out = String::new();
    let n: usize = positions.len();
    let mut j: usize = 0;
    assert(parts.take(0) == Seq::<Seq<char>>::empty());
    while j < n
        invariant
            n == positions@.len(),
            all_below(positions@, items@.len() as int),
            admin == admin_address(admin_email.deep_view()),
            parts == picked(items.deep_view(), positions@).map_values(
                |r: RenderedView| comment_item(r.comment, r.content, true, admin),
            ),
            j <= n,
            out@ == joined(parts.take(j as int)),
        decreases n - j,
    {
        let item = &items[positions[j]];
        let text = comment_item_html(&item.comment, item.content.as_str(), true, admin_email);
        out.append(text.as_str());
        proof {
            lemma_joined_step(parts, j as int);
        }
        j = j + 1;
    }
    assert(parts.take(n as int) == parts);
    out
}

/// Writes all threads, in the order of their top-level comments. A reply whose
/// parent is not a top-level comment among `items` is left out.
pub fn write_threads(items: &Vec<Rendered>, admin_email: Option<&str>) -> (r: String)
    ensures
        r@ == thread_list(items.deep_view(), admin_address(admin_email.deep_view())),
{
    let ghost seen = items.deep_view();
    let ghost admin = admin_address(admin_email.deep_view());
    let ghost is_top = |r: RenderedView| r.comment.parent_id is None;
    let n: usize = items.len();
    let mut tops: Vec<usize> = Vec::new();
    let mut index = ReplyIndex::new(Ghost(seen));
    let mut i: usize = 0;
    proof {
        reveal(Seq::filter);
        assert(picked(seen, tops@) == top_level(seen.take(0)));
    }
    while i < n
        invariant
            n == items@.len(),
            seen == items.deep_view(),
            is_top == (|r: RenderedView| r.comment.parent_id is None),
            i <= n,
            index.indexes(seen, i as int),
            all_below(tops@, i as int),
            picked(seen, tops@) == top_level(seen.take(i as int)),
        decreases n - i,
    {
        let ghost before = tops@;
        assert(seen[i as int] == items@[i as int]@);
        proof {
            lemma_filter_step(seen, i as int, is_top);
        }
        match &items[i].comment.parent_id {
            Some(parent) => {
                index.enter(parent, i, Ghost(seen));
            },
            None => {
                tops.push(i);
                proof {
                    assert(picked(seen, before.push(i)) == picked(seen, before).push(
                        seen[i as int],
                    ));
                    index.lemma_skip(seen, i as int);
                }
            },
        }
        i = i + 1;
    }
    assert(seen.take(n as int) == seen);
    let ghost parts = top_level(seen).map_values(|p: RenderedView| thread(seen, p, admin));
    let mut out = String::new();
    let m: usize = tops.len();
    let mut t: usize = 0;
    assert(parts.take(0) == Seq::<Seq<char>>::empty());
    while t < m
        invariant
            n == items@.len(),
            seen == items.deep_view(),
            seen.take(n as int) == seen,
            admin == admin_address(admin_email.deep_view()),
            index.indexes(seen, n as int),
            m == tops@.len(),
            all_below(tops@, n as int),
            picked(seen, tops@) == top_level(seen),
            parts == top_level(seen).map_values(|p: RenderedView| thread(seen, p, admin)),
            t <= m,
            out@ == joined(parts.take(t as int)),
        decreases m - t,
    {
        let parent = &items[tops[t]];
        let ghost above = out@;
        assert(seen[tops@[t as int] as int] == parent@);
        assert(picked(seen, tops@)[t as int] == parent@);
        let text = comment_item_html(&parent.comment, parent.content.as_str(), false, admin_email);
        out.append(text.as_str());
        match index.slots.get(parent.comment.id.as_str()) {
            Some(slot) => {
                let replies = write_replies(items, &index.groups[*slot], admin_email);
                out.append(replies.as_str());
            },
            None => {
                assert(reply_list(replies_to(seen, parent@.comment.id), admin)
                    == Seq::<char>::empty());
            },
        }
        proof {
            lemma_joined_step(parts, t as int);
            assert(out@ == above + thread(seen, parent@, admin));
        }
        t = t + 1;
    }
    assert(parts.take(m as int) == parts);
    out
}

/// Texts joined in two runs are joined in one.
pub proof fn law_joined_in_runs(a: Seq<Seq<char>>, b: Seq<Seq<char>>)
    ensures
        joined(a + b) == joined(a) + joined(b),
    decreases b.len(),
{
    if b.len() == 0 {
        assert(a + b == a);
    } else {
        assert((a + b).drop_last() == a + b.drop_last());
        law_joined_in_runs(a, b.drop_last());
        assert(joined(a) + (joined(b.drop_last()) + b.last()) == joined(a) + joined(b.drop_last())
            + b.last());
    }
}

/// An item that does not pass a filter may as well be absent.
proof fn lemma_filter_remove(
    items: Seq<RenderedView>,
    k: int,
    pred: spec_fn(RenderedView) -> bool,
)
    requires
        0 <= k < items.len(),
        !pred(items[k]),
    ensures
        items.remove(k).filter(pred) == items.filter(pred),
{
    let rest = items.skip(k + 1);
    lemma_filter_step(items, k, pred);
    Seq::filter_distributes_over_add(items.take(k), rest, pred);
    Seq::filter_distributes_over_add(items.take(k + 1), rest, pred);
    assert(items.remove(k) == items.take(k) + rest);
    assert(items == items.take(k + 1) + rest);
}

/// What passes the filter for top-level comments is a top-level comment of the
/// list.
proof fn lemma_top_level_is_listed(items: Seq<RenderedView>, t: int)
    requires
        0 <= t < top_level(items).len(),
    ensures
        items.contains(top_level(items)[t]),
        top_level(items)[t].comment.parent_id is None,
{
    let is_top = |r: RenderedView| r.comment.parent_id is None;
    items.lemma_filter_pred(is_top, t);
    items.lemma_filter_contains_rev(is_top, top_level(items)[t]);
}

/// A reply whose parent is not a top-level comment of the list does not show.
pub proof fn law_unattached_replies_do_not_show(
    items: Seq<RenderedView>,
    k: int,
    admin_email: Seq<char>,
)
    requires
        0 <= k < items.len(),
        items[k].comment.parent_id is Some,
        forall|i: int|
            0 <= i < items.len() && (#[trigger] items[i]).comment.parent_id is None
                ==> Some(items[i].comment.id) != items[k].comment.parent_id,
    ensures
        thread_list(items.remove(k), admin_email) == thread_list(items, admin_email),
{
    let fewer = items.remove(k);
    lemma_filter_remove(items, k, |r: RenderedView| r.comment.parent_id is None);
    let tops = top_level(items);
    let a = tops.map_values(|p: RenderedView| thread(fewer, p, admin_email));
    let b = tops.map_values(|p: RenderedView| thread(items, p, admin_email));
    assert forall|t: int| 0 <= t < tops.len() implies a[t] == b[t] by {
        lemma_top_level_is_listed(items, t);
        let id = tops[t].comment.id;
        let i = choose|i: int| 0 <= i < items.len() && items[i] == tops[t];
        assert(Some(items[i].comment.id) != items[k].comment.parent_id);
        lemma_filter_remove(items, k, |r: RenderedView| r.comment.parent_id == Some(id));
    }
    assert(a == b);
}

/// Where there are no replies, the comments stand in the order of the list.
pub proof fn law_without_replies_order_is_kept(items: Seq<RenderedView>, admin_email: Seq<char>)
    requires
        forall|i: int|
            0 <= i < items.len() ==> (#[trigger] items[i]).comment.parent_id is None,
    ensures
        thread_list(items, admin_email) == joined(
            items.map_values(
                |r: RenderedView| comment_item(r.comment, r.content, false, admin_email),
            ),
        ),
{
    let is_top = |r: RenderedView| r.comment.parent_id is None;
    lemma_filter_all(items, is_top);
    let a = items.map_values(|p: RenderedView| thread(items, p, admin_email));
    let b = items.map_values(
        |r: RenderedView| comment_item(r.comment, r.content, false, admin_email),
    );
    assert forall|t: int| 0 <= t < items.len() implies a[t] == b[t] by {
        let id = items[t].comment.id;
        lemma_filter_none(items, |r: RenderedView| r.comment.parent_id == Some(id));
        assert(reply_list(replies_to(items, id), admin_email) == Seq::<char>::empty());
    }
    assert(a == b);
}

/// A filter that all items pass.
proof fn lemma_filter_all(items: Seq<RenderedView>, pred: spec_fn(RenderedView) -> bool)
    requires
        forall|i: int| 0 <= i < items.len() ==> pred(#[trigger] items[i]),
    ensures
        items.filter(pred) == items,
    decreases items.len(),
{
    reveal(Seq::filter);
    if items.len() > 0 {
        lemma_filter_all(items.drop_last(), pred);
        assert(items.drop_last().push(items.last()) == items);
    }
}

/// A filter that no item passes.
proof fn lemma_filter_none(items: Seq<RenderedView>, pred: spec_fn(RenderedView) -> bool)
    requires
        forall|i: int| 0 <= i < items.len() ==> !pred(#[trigger] items[i]),
    ensures
        items.filter(pred) == Seq::<RenderedView>::empty(),
    decreases items.len(),
{
    reveal(Seq::filter);
    if items.len() > 0 {
        lemma_filter_none(items.drop_last(), pred);
    }
}

/// A top-level comment that stands first in the list and has no replies comes
/// before everything else, and changes nothing else, unless a reply in the list
/// names it as its parent.
pub proof fn law_first_comment_stands_first(
    first: RenderedView,
    rest: Seq<RenderedView>,
    admin_email: Seq<char>,
)
    requires
        first.comment.parent_id is None,
        forall|i: int|
            0 <= i < rest.len() ==> (#[trigger] rest[i]).comment.parent_id != Some(
                first.comment.id,
            ),
    ensures
        thread_list(seq![first] + rest, admin_email) == comment_item(
            first.comment,
            first.content,
            false,
            admin_email,
        ) + thread_list(rest, admin_email),
{
    let items = seq![first] + rest;
    let is_top = |r: RenderedView| r.comment.parent_id is None;
    assert(top_level(items) == seq![first] + top_level(rest)) by {
        Seq::filter_distributes_over_add(seq![first], rest, is_top);
        lemma_filter_all(seq![first], is_top);
    }
    assert(items.remove(0) == rest);
    assert forall|id: Seq<char>| #[trigger] replies_to(items, id) == replies_to(rest, id) by {
        lemma_filter_remove(items, 0, |r: RenderedView| r.comment.parent_id == Some(id));
    }
    let f = |p: RenderedView| thread(items, p, admin_email);
    let g = |p: RenderedView| thread(rest, p, admin_email);
    let head = thread(items, first, admin_email);
    let tail = top_level(rest).map_values(g);
    assert(top_level(items).map_values(f) =~= seq![head] + tail);
    law_joined_in_runs(seq![head], tail);
    lemma_joined_one(head);
    let none = reply_list(replies_to(items, first.comment.id), admin_email);
    assert(none == Seq::<char>::empty()) by {
        lemma_filter_none(rest, |r: RenderedView| r.comment.parent_id == Some(first.comment.id));
    }
    Seq::add_empty_right(
        comment_item(first.comment, first.content, false, admin_email),
        none,
    );
}

/// The replies to a comment stand directly beneath it, in the order of the list.
pub proof fn law_replies_stand_beneath_their_parent(
    parent: RenderedView,
    replies: Seq<RenderedView>,
    admin_email: Seq<char>,
)
    requires
        parent.comment.parent_id is None,
        forall|i: int|
            0 <= i < replies.len() ==> (#[trigger] replies[i]).comment.parent_id == Some(
                parent.comment.id,
            ),
    ensures
        thread_list(seq![parent] + replies, admin_email) == comment_with_replies(
            parent,
            replies,
            admin_email,
        ),
{
    lemma_family(parent, replies);
    lemma_one_thread(seq![parent] + replies, parent, admin_email);
}

/// A comment with the replies to it, taken apart again.
proof fn lemma_family(parent: RenderedView, replies: Seq<RenderedView>)
    requires
        parent.comment.parent_id is None,
        forall|i: int|
            0 <= i < replies.len() ==> (#[trigger] replies[i]).comment.parent_id == Some(
                parent.comment.id,
            ),
    ensures
        top_level(seq![parent] + replies) == seq![parent],
        replies_to(seq![parent] + replies, parent.comment.id) == replies,
{
    let id = parent.comment.id;
    let is_top = |r: RenderedView| r.comment.parent_id is None;
    let answers = |r: RenderedView| r.comment.parent_id == Some(id);
    Seq::filter_distributes_over_add(seq![parent], replies, is_top);
    lemma_filter_all(seq![parent], is_top);
    lemma_filter_none(replies, is_top);
    Seq::add_empty_right(seq![parent], Seq::empty());
    Seq::filter_distributes_over_add(seq![parent], replies, answers);
    lemma_filter_none(seq![parent], answers);
    lemma_filter_all(replies, answers);
    Seq::add_empty_left(Seq::empty(), replies);
}

/// A list with one top-level comment is one thread.
proof fn lemma_one_thread(
    items: Seq<RenderedView>,
    parent: RenderedView,
    admin_email: Seq<char>,
)
    requires
        top_level(items) == seq![parent],
    ensures
        thread_list(items, admin_email) == thread(items, parent, admin_email),
{
    let f = |p: RenderedView| thread(items, p, admin_email);
    assert(seq![parent].map_values(f) =~= seq![f(parent)]);
    lemma_joined_one(f(parent));
}

/// A single text joined is that text.
pub proof fn lemma_joined_one(part: Seq<char>)
    ensures
        joined(seq![part]) == part,
{
    let parts = seq![part];
    assert(parts.drop_last() == Seq::<Seq<char>>::empty());
    assert(joined(parts.drop_last()) == Seq::<char>::empty());
    assert(joined(parts) == Seq::<char>::empty() + part);
}

/// The top-level comments of two runs, one after the other.
proof fn lemma_threads_in_runs(
    a: Seq<RenderedView>,
    b: Seq<RenderedView>,
    items: Seq<RenderedView>,
    admin_email: Seq<char>,
)
    ensures
        threads_of(a + b, items, admin_email) == threads_of(a, items, admin_email) + threads_of(
            b,
            items,
            admin_email,
        ),
{
    let is_top = |r: RenderedView| r.comment.parent_id is None;
    let f = |p: RenderedView| thread(items, p, admin_email);
    Seq::filter_distributes_over_add(a, b, is_top);
    assert((top_level(a) + top_level(b)).map_values(f) =~= top_level(a).map_values(f) + top_level(
        b,
    ).map_values(f));
    law_joined_in_runs(top_level(a).map_values(f), top_level(b).map_values(f));
}

/// Threads do not change with an item that is a reply to none of their parents.
proof fn lemma_threads_without(
    parents: Seq<RenderedView>,
    items: Seq<RenderedView>,
    k: int,
    admin_email: Seq<char>,
)
    requires
        0 <= k < items.len(),
        items[k].comment.parent_id is None,
    ensures
        threads_of(parents, items.remove(k), admin_email) == threads_of(parents, items, admin_email),
{
    let tops = top_level(parents);
    let a = tops.map_values(|p: RenderedView| thread(items.remove(k), p, admin_email));
    let b = tops.map_values(|p: RenderedView| thread(items, p, admin_email));
    assert forall|t: int| 0 <= t < tops.len() implies a[t] == b[t] by {
        let id = tops[t].comment.id;
        lemma_filter_remove(items, k, |r: RenderedView| r.comment.parent_id == Some(id));
    }
    assert(a == b);
}

/// The threads of one top-level comment are its thread.
proof fn lemma_thread_of_one(
    parent: RenderedView,
    items: Seq<RenderedView>,
    admin_email: Seq<char>,
)
    requires
        parent.comment.parent_id is None,
    ensures
        threads_of(seq![parent], items, admin_email) == thread(items, parent, admin_email),
{
    let f = |p: RenderedView| thread(items, p, admin_email);
    lemma_filter_all(seq![parent], |r: RenderedView| r.comment.parent_id is None);
    assert(seq![parent].map_values(f) =~= seq![f(parent)]);
    lemma_joined_one(f(parent));
}

/// Without one of its top-level comments a list shows the same threads in the
/// same order, but for the thread of that comment: its item and the items of all
/// replies to it are cut out.
pub proof fn law_absent_comment_is_cut_out_with_its_replies(
    items: Seq<RenderedView>,
    k: int,
    admin_email: Seq<char>,
)
    requires
        0 <= k < items.len(),
        items[k].comment.parent_id is None,
    ensures
        ({
            let rest = items.remove(k);
            let above = threads_of(items.take(k), rest, admin_email);
            let below = threads_of(items.skip(k + 1), rest, admin_email);
            &&& thread_list(items, admin_email) == above + thread(items, items[k], admin_email)
                + below
            &&& thread_list(rest, admin_email) == above + below
        }),
{
    let rest = items.remove(k);
    let x = items.take(k);
    let y = items.skip(k + 1);
    let one = seq![items[k]];
    assert(rest == x + y);
    assert(items == x + one + y);
    lemma_threads_in_runs(x, y, rest, admin_email);
    lemma_threads_in_runs(x, one, items, admin_email);
    lemma_threads_in_runs(x + one, y, items, admin_email);
    lemma_thread_of_one(items[k], items, admin_email);
    lemma_threads_without(x, items, k, admin_email);
    lemma_threads_without(y, items, k, admin_email);
}

/// Whether the thread of a comment stays the same without item `k`, but for that
/// item where it is a reply to the comment.
pub open spec fn thread_without(
    items: Seq<RenderedView>,
    k: int,
    parent: RenderedView,
    admin_email: Seq<char>,
) -> bool {
    let id = parent.comment.id;
    let above = replies_to(items.take(k), id);
    let below = replies_to(items.skip(k + 1), id);
    &&& thread(items.remove(k), parent, admin_email) == comment_with_replies(
        parent,
        above + below,
        admin_email,
    )
    &&& thread(items, parent, admin_email) == comment_with_replies(
        parent,
        if items[k].comment.parent_id == Some(id) {
            above + seq![items[k]] + below
        } else {
            above + below
        },
        admin_email,
    )
}

/// Without one of its replies a list has the same top-level comments. Its parent
/// has the same replies but for that one, and all other comments have the same
/// replies.
pub proof fn law_absent_reply_is_cut_out_beneath_its_parent(
    items: Seq<RenderedView>,
    k: int,
    parent: RenderedView,
    admin_email: Seq<char>,
)
    requires
        0 <= k < items.len(),
        items[k].comment.parent_id is Some,
    ensures
        top_level(items.remove(k)) == top_level(items),
        thread_without(items, k, parent, admin_email),
{
    let id = parent.comment.id;
    let answers = |r: RenderedView| r.comment.parent_id == Some(id);
    let rest = items.remove(k);
    let x = items.take(k);
    let y = items.skip(k + 1);
    lemma_filter_remove(items, k, |r: RenderedView| r.comment.parent_id is None);
    assert(rest == x + y);
    assert(items == items.take(k + 1) + y);
    Seq::filter_distributes_over_add(x, y, answers);
    Seq::filter_distributes_over_add(items.take(k + 1), y, answers);
    lemma_filter_step(items, k, answers);
    assert(replies_to(x, id).push(items[k]) == replies_to(x, id) + seq![items[k]]);
}

} // verus!
