//! Markdown and HTML cleaning.

use vstd::prelude::*;

verus! {

/// What `ammonia::clean` makes of a text.
pub uninterp spec fn cleaned(html: Seq<char>) -> Seq<char>;

/// What `pulldown_cmark::html::push_html` writes for the events that
/// `pulldown_cmark::Parser::new` reads from a text.
pub uninterp spec fn markdown(text: Seq<char>) -> Seq<char>;

/// HTML with everything removed that a visitor may not post, by
/// `ammonia::clean` with its default rules.
///
/// Trusted: the result depends on the text alone. What the rules remove is left
/// to `ammonia`.
#[verifier::external_body]
pub(crate) fn clean(html: &str) -> (r: String)
    ensures
        r@ == cleaned(html@),
{
    ammonia::clean(html)
}

/// Markdown turned into HTML, by `pulldown_cmark::html::push_html` on the
/// events of `pulldown_cmark::Parser::new`, with no extensions.
///
/// Trusted: the result depends on the text alone. What each mark becomes is
/// left to `pulldown_cmark`.
#[verifier::external_body]
pub(crate) fn markdown_to_html(text: &str) -> (r: String)
    ensures
        r@ == markdown(text@),
{
    let mut html = String::new();
    pulldown_cmark::html::push_html(&mut html, pulldown_cmark::Parser::new(text));
    html
}

/// The HTML shown for a comment's content: its Markdown as HTML, cleaned.
pub open spec fn shown_content(content: Seq<char>) -> Seq<char> {
    cleaned(markdown(content))
}

/// Turns a comment's content into the HTML that is shown for it.
pub fn show_content(content: &str) -> (r: String)
    ensures
        r@ == shown_content(content@),
{
    let html = markdown_to_html(content);
    clean(html.as_str())
}

} // verus!
