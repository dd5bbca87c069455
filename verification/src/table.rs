//! The comment table as the statements see it, and what holds of it over
//! several requests.
//!
//! The store runs the statements. What each of them asks of the table is written
//! down here; that the store does as it is asked is not proved.

use crate::author::by_admin;
use crate::comments::{
    insert_statement, new_comment, stored_comment, submission, NewCommentView, SubmissionView,
};
use crate::models::{CommentView, FormView};
use crate::rows::{
    distinct_ids, lemma_filter_distinct, lemma_filtered, lemma_filters_commute, without,
};
use crate::store::{with_text, SqlValueView, StatementView, DELETE, INSERT, TOGGLE};
use crate::time::Civil;
use vstd::prelude::*;

verus! {

/// The text in a value; nothing for the null value.
pub open spec fn text_of(value: SqlValueView) -> Option<Seq<char>> {
    match value {
        SqlValueView::Text(text) => Some(text),
        _ => None,
    }
}

/// The row that the values of an [`INSERT`] statement make at `now`.
pub open spec fn inserted_row(values: Seq<SqlValueView>, now: Civil) -> CommentView {
    CommentView {
        id: text_of(values[0])->0,
        post_slug: text_of(values[1])->0,
        author_name: text_of(values[2])->0,
        author_email: text_of(values[3]),
        content: text_of(values[4])->0,
        is_approved: values[5] != SqlValueView::Integer(0),
        created_at: now,
        parent_id: text_of(values[6]),
    }
}

/// A comment with its approval changed.
pub open spec fn flipped(c: CommentView) -> CommentView {
    CommentView { is_approved: !c.is_approved, ..c }
}

/// The table with the approval of a comment changed.
pub open spec fn toggled(table: Seq<CommentView>, id: Seq<char>) -> Seq<CommentView> {
    table.map_values(
        |c: CommentView|
            if c.id == id {
                flipped(c)
            } else {
                c
            },
    )
}

/// The table after a statement was run at `now`.
pub open spec fn after(
    table: Seq<CommentView>,
    statement: StatementView,
    now: Civil,
) -> Seq<CommentView> {
    if statement.sql == INSERT@ {
        table.push(inserted_row(statement.values, now))
    } else if statement.sql == TOGGLE@ {
        toggled(table, text_of(statement.values[0])->0)
    } else if statement.sql == DELETE@ {
        without(table, text_of(statement.values[0])->0)
    } else {
        table
    }
}

/// The approved comments of a page: the rows that the visitors' query asks for,
/// in the order in which they were stored.
pub open spec fn approved_of(table: Seq<CommentView>, slug: Seq<char>) -> Seq<CommentView> {
    table.filter(|c: CommentView| c.post_slug == slug && c.is_approved)
}

/// The table after a form was taken: as before where it was answered at once or
/// its statement failed, and with the statement run at `saved_at` otherwise.
pub open spec fn after_submission(
    table: Seq<CommentView>,
    taken: SubmissionView,
    saved_at: Option<Civil>,
) -> Seq<CommentView> {
    match (taken, saved_at) {
        (SubmissionView::Store(c), Some(now)) => after(table, insert_statement(c), now),
        _ => table,
    }
}

/// The statements that change the table are told apart by their text.
proof fn lemma_texts_differ()
    ensures
        INSERT@ != TOGGLE@,
        INSERT@ != DELETE@,
        TOGGLE@ != DELETE@,
{
    reveal_strlit(
        "INSERT INTO comments (id, post_slug, author_name, author_email, content, is_approved, parent_id) VALUES (?, ?, ?, ?, ?, ?, ?)",
    );
    reveal_strlit("UPDATE comments SET is_approved = NOT is_approved WHERE id = ?");
    reveal_strlit("DELETE FROM comments WHERE id = ?");
    assert(INSERT@[0] == 'I');
    assert(TOGGLE@[0] == 'U');
    assert(DELETE@[0] == 'D');
}

/// A comment that was stored stands at the end of the table, with everything
/// that its form gave.
pub proof fn law_stored_comments_stand_in_the_table(
    table: Seq<CommentView>,
    c: NewCommentView,
    now: Civil,
)
    ensures
        after(table, insert_statement(c), now) == table.push(stored_comment(c, now)),
{
    let values = insert_statement(c).values;
    assert(text_of(values[3]) == c.author_email);
    assert(text_of(values[6]) == c.parent_id);
}

/// One more row is asked for exactly where it is an approved one of that page.
proof fn lemma_approved_push(table: Seq<CommentView>, c: CommentView, slug: Seq<char>)
    ensures
        approved_of(table.push(c), slug) == if c.post_slug == slug && c.is_approved {
            approved_of(table, slug).push(c)
        } else {
            approved_of(table, slug)
        },
{
    reveal(Seq::filter);
    assert(table.push(c).drop_last() == table);
}

/// A form of anyone but the administrator leaves the approved comments of every
/// page as they were: whether it is taken for a machine's, refused, stored or
/// lost.
pub proof fn law_only_the_administrator_adds_approved_comments(
    table: Seq<CommentView>,
    form: FormView,
    author_name: Seq<char>,
    content: Seq<char>,
    id: Seq<char>,
    admin_email: Seq<char>,
    saved_at: Option<Civil>,
    slug: Seq<char>,
)
    requires
        !by_admin(form.author_email, admin_email),
    ensures
        ({
            let taken = submission(form, author_name, content, id, admin_email);
            approved_of(after_submission(table, taken, saved_at), slug) == approved_of(table, slug)
        }),
{
    let c = new_comment(form, author_name, content, id, admin_email);
    if let Some(now) = saved_at {
        law_stored_comments_stand_in_the_table(table, c, now);
        lemma_approved_push(table, stored_comment(c, now), slug);
    }
}

/// A comment of the administrator is among those that the visitors of its page
/// see as soon as it is stored, and changes nothing on other pages.
pub proof fn law_comments_of_the_administrator_show_at_once(
    table: Seq<CommentView>,
    c: NewCommentView,
    now: Civil,
    slug: Seq<char>,
)
    requires
        c.by_admin,
    ensures
        approved_of(after(table, insert_statement(c), now), slug) == if slug == c.post_slug {
            approved_of(table, slug).push(stored_comment(c, now))
        } else {
            approved_of(table, slug)
        },
{
    law_stored_comments_stand_in_the_table(table, c, now);
    lemma_approved_push(table, stored_comment(c, now), slug);
}

/// What the statement of a change of approval does to the table.
pub proof fn lemma_toggle(table: Seq<CommentView>, id: Seq<char>, now: Civil)
    ensures
        after(table, with_text(TOGGLE@, id), now) == toggled(table, id),
{
    lemma_texts_differ();
}

/// A second change of the approval of a comment undoes the first.
pub proof fn law_second_toggle_restores_the_table(
    table: Seq<CommentView>,
    id: Seq<char>,
    first: Civil,
    second: Civil,
)
    ensures
        ({
            let statement = with_text(TOGGLE@, id);
            after(after(table, statement, first), statement, second) == table
        }),
{
    let once = toggled(table, id);
    lemma_toggle(table, id, first);
    lemma_toggle(once, id, second);
    assert forall|i: int| 0 <= i < table.len() implies #[trigger] toggled(once, id)[i]
        == table[i] by {
        let c = table[i];
        if c.id == id {
            assert(once[i] == flipped(c));
            assert(flipped(flipped(c)) == c);
        } else {
            assert(once[i] == c);
        }
    }
    assert(toggled(once, id) =~= table);
}

/// A change of approval keeps ids different, and turns one comment round.
pub proof fn lemma_toggled_rows(table: Seq<CommentView>, c: CommentView)
    requires
        distinct_ids(table),
        table.contains(c),
    ensures
        distinct_ids(toggled(table, c.id)),
        toggled(table, c.id).contains(flipped(c)),
{
    let once = toggled(table, c.id);
    let k = choose|k: int| 0 <= k < table.len() && table[k] == c;
    assert(once[k] == flipped(c));
    assert forall|i: int, j: int| 0 <= i < j < once.len() implies (#[trigger] once[i]).id != (
    #[trigger] once[j]).id by {
        assert(once[i].id == table[i].id);
        assert(once[j].id == table[j].id);
    }
}

/// Where every comment with some id is approved, a change of approval takes them
/// away from the approved comments.
proof fn lemma_approved_toggled(table: Seq<CommentView>, id: Seq<char>, slug: Seq<char>)
    requires
        forall|i: int|
            0 <= i < table.len() && (#[trigger] table[i]).id == id ==> table[i].is_approved,
    ensures
        approved_of(toggled(table, id), slug) == without(approved_of(table, slug), id),
    decreases table.len(),
{
    reveal(Seq::filter);
    if table.len() > 0 {
        let rest = table.drop_last();
        let last = table.last();
        assert forall|i: int| 0 <= i < rest.len() && (#[trigger] rest[i]).id
            == id implies rest[i].is_approved by {
            assert(rest[i] == table[i]);
        }
        lemma_approved_toggled(rest, id, slug);
        assert(toggled(table, id).drop_last() =~= toggled(rest, id));
        assert(table[table.len() - 1] == last);
        let above = approved_of(rest, slug);
        assert(above.push(last).drop_last() == above);
    } else {
        assert(toggled(table, id) =~= table);
    }
}

/// Hiding an approved comment takes it away from the approved comments of its
/// page, and leaves all others, of every page, in their order.
pub proof fn law_hidden_comments_leave_their_page(
    table: Seq<CommentView>,
    c: CommentView,
    now: Civil,
    slug: Seq<char>,
)
    requires
        distinct_ids(table),
        table.contains(c),
        c.is_approved,
    ensures
        approved_of(after(table, with_text(TOGGLE@, c.id), now), slug) == without(
            approved_of(table, slug),
            c.id,
        ),
{
    lemma_toggle(table, c.id, now);
    let k = choose|k: int| 0 <= k < table.len() && table[k] == c;
    assert forall|i: int| 0 <= i < table.len() && (#[trigger] table[i]).id
        == c.id implies table[i].is_approved by {
        lemma_same_place(table, i, k);
    }
    lemma_approved_toggled(table, c.id, slug);
}

/// Of rows with different ids, an id tells the place.
proof fn lemma_same_place(table: Seq<CommentView>, i: int, k: int)
    requires
        distinct_ids(table),
        0 <= i < table.len(),
        0 <= k < table.len(),
        table[i].id == table[k].id,
    ensures
        i == k,
{
    if i < k {
        assert(table[i].id != table[k].id);
    } else if k < i {
        assert(table[k].id != table[i].id);
    }
}

/// Approving a pending comment adds it to the approved comments of its page, and
/// leaves all others, of every page, in their order.
pub proof fn law_approved_comments_join_their_page(
    table: Seq<CommentView>,
    c: CommentView,
    now: Civil,
    slug: Seq<char>,
)
    requires
        distinct_ids(table),
        table.contains(c),
        !c.is_approved,
    ensures
        ({
            let then = approved_of(after(table, with_text(TOGGLE@, c.id), now), slug);
            &&& without(then, c.id) == approved_of(table, slug)
            &&& then.contains(flipped(c)) <==> c.post_slug == slug
        }),
{
    let once = toggled(table, c.id);
    lemma_toggle(table, c.id, now);
    lemma_toggled_rows(table, c);
    law_hidden_comments_leave_their_page(once, flipped(c), now, slug);
    law_second_toggle_restores_the_table(table, c.id, now, now);
    lemma_filtered(once, |d: CommentView| d.post_slug == slug && d.is_approved, flipped(c));
}

/// Which comments are approved after a change of approval: those that were,
/// without the one whose approval was changed, and that one where it was
/// pending.
pub proof fn law_toggle_decides_what_is_approved(
    table: Seq<CommentView>,
    c: CommentView,
    now: Civil,
    slug: Seq<char>,
    d: CommentView,
)
    requires
        distinct_ids(table),
        table.contains(c),
    ensures
        approved_of(after(table, with_text(TOGGLE@, c.id), now), slug).contains(d) <==> {
            ||| approved_of(table, slug).contains(d) && d.id != c.id
            ||| d == flipped(c) && !c.is_approved && c.post_slug == slug
        },
{
    let once = toggled(table, c.id);
    let then = approved_of(once, slug);
    let approved = approved_of(table, slug);
    let pred = |d: CommentView| d.id != c.id;
    lemma_toggle(table, c.id, now);
    if c.is_approved {
        law_hidden_comments_leave_their_page(table, c, now, slug);
        lemma_filtered(approved, pred, d);
    } else {
        law_approved_comments_join_their_page(table, c, now, slug);
        lemma_filtered(then, pred, d);
        if then.contains(d) && d.id == c.id {
            lemma_toggled_rows(table, c);
            lemma_filtered(once, |d: CommentView| d.post_slug == slug && d.is_approved, d);
            let i = choose|i: int| 0 <= i < once.len() && once[i] == d;
            let k = choose|k: int| 0 <= k < once.len() && once[k] == flipped(c);
            lemma_same_place(once, i, k);
        }
    }
}

/// What the statement of a deletion does to the table.
pub proof fn lemma_delete(table: Seq<CommentView>, id: Seq<char>, now: Civil)
    ensures
        after(table, with_text(DELETE@, id), now) == without(table, id),
{
    lemma_texts_differ();
}

/// Nothing is left to delete after a deletion.
proof fn lemma_without_twice(table: Seq<CommentView>, id: Seq<char>)
    ensures
        without(without(table, id), id) == without(table, id),
    decreases table.len(),
{
    reveal(Seq::filter);
    if table.len() > 0 {
        let rest = table.drop_last();
        lemma_without_twice(rest, id);
        if table.last().id != id {
            let kept = without(rest, id).push(table.last());
            assert(kept.drop_last() == without(rest, id));
        }
    }
}

/// A second deletion of a comment changes nothing. The answer is the same too:
/// that of [`crate::admin::delete_comment`], which depends on nothing.
pub proof fn law_second_deletion_changes_nothing(
    table: Seq<CommentView>,
    id: Seq<char>,
    first: Civil,
    second: Civil,
)
    ensures
        ({
            let statement = with_text(DELETE@, id);
            let once = after(table, statement, first);
            after(once, statement, second) == once
        }),
{
    lemma_delete(table, id, first);
    lemma_delete(without(table, id), id, second);
    lemma_without_twice(table, id);
}

/// A deletion removes the comment and no other.
pub proof fn law_deletion_removes_one_comment(
    table: Seq<CommentView>,
    id: Seq<char>,
    now: Civil,
    c: CommentView,
)
    ensures
        after(table, with_text(DELETE@, id), now).contains(c) <==> table.contains(c) && c.id != id,
{
    lemma_delete(table, id, now);
    lemma_filtered(table, |c: CommentView| c.id != id, c);
}

/// A deletion takes the comment away from the approved comments of its page, and
/// leaves all others, of every page, in their order.
pub proof fn law_deleted_comments_leave_their_page(
    table: Seq<CommentView>,
    id: Seq<char>,
    now: Civil,
    slug: Seq<char>,
)
    ensures
        approved_of(after(table, with_text(DELETE@, id), now), slug) == without(
            approved_of(table, slug),
            id,
        ),
{
    lemma_delete(table, id, now);
    lemma_filters_commute(
        table,
        |c: CommentView| c.id != id,
        |c: CommentView| c.post_slug == slug && c.is_approved,
    );
}

/// Ids stay different: where no two comments have the same one, none do after a
/// change of approval, after a deletion, and after a comment with a new id was
/// stored.
pub proof fn law_ids_stay_different(
    table: Seq<CommentView>,
    id: Seq<char>,
    c: NewCommentView,
    now: Civil,
)
    requires
        distinct_ids(table),
    ensures
        distinct_ids(after(table, with_text(TOGGLE@, id), now)),
        distinct_ids(after(table, with_text(DELETE@, id), now)),
        (forall|i: int| 0 <= i < table.len() ==> (#[trigger] table[i]).id != c.id) ==> distinct_ids(
            after(table, insert_statement(c), now),
        ),
{
    lemma_toggle(table, id, now);
    lemma_delete(table, id, now);
    law_stored_comments_stand_in_the_table(table, c, now);
    lemma_filter_distinct(table, |c: CommentView| c.id != id);
    let once = toggled(table, id);
    assert forall|i: int, j: int| 0 <= i < j < once.len() implies (#[trigger] once[i]).id != (
    #[trigger] once[j]).id by {
        assert(once[i].id == table[i].id);
        assert(once[j].id == table[j].id);
    }
}

} // verus!
