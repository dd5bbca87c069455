//! What an answer holds, field by field.

use crate::reply::Response;
use vstd::prelude::*;

verus! {

/// Whether an answer has this status, these header fields in this order and no
/// others, and this body.
pub open spec fn answer_is(
    r: Response,
    status: u16,
    headers: Seq<(Seq<char>, Seq<char>)>,
    body: Seq<char>,
) -> bool {
    &&& r.status == status
    &&& r.headers@.len() == headers.len()
    &&& forall|i: int|
        0 <= i < headers.len() ==> (#[trigger] r.headers@[i]).0@ == headers[i].0
            && r.headers@[i].1@ == headers[i].1
    &&& r.body@ == body
}

/// Whether an answer is an HTML page with this status and body.
pub open spec fn page_is(r: Response, status: u16, body: Seq<char>) -> bool {
    answer_is(r, status, seq![("content-type"@, "text/html; charset=utf-8"@)], body)
}

/// The view of an answer shows its fields.
pub proof fn lemma_answer(r: Response)
    ensures
        answer_is(r, r@.status, r@.headers, r@.body),
{
    let seen = r.headers.deep_view();
    assert(seen.len() == r.headers@.len());
    assert forall|i: int| 0 <= i < seen.len() implies (#[trigger] r.headers@[i]).0@ == seen[i].0
        && r.headers@[i].1@ == seen[i].1 by {
        assert(seen[i] == r.headers@[i].deep_view());
    }
}

/// An answer has a status, header fields and a body, and they are the ones it is
/// made with.
pub proof fn law_answers_are_made_of_what_is_given(
    status: u16,
    content_type: &str,
    location: &str,
    cookie: String,
    body: String,
    page: Response,
    text: Response,
    away: Response,
    entered: Response,
)
    requires
        call_ensures(Response::html, (status, body), page),
        call_ensures(Response::document, (status, content_type, body), text),
        call_ensures(Response::redirect, (location,), away),
        call_ensures(Response::redirect_with_cookie, (cookie, location), entered),
    ensures
        page_is(page, status, body@),
        answer_is(text, status, seq![("content-type"@, content_type@)], body@),
        answer_is(away, 303, seq![("location"@, location@)], Seq::empty()),
        answer_is(
            entered,
            303,
            seq![("set-cookie"@, cookie@), ("location"@, location@)],
            Seq::empty(),
        ),
{
    lemma_answer(page);
    lemma_answer(text);
    lemma_answer(away);
    lemma_answer(entered);
}

} // verus!
