//! The files that a page embeds.

use crate::assets::{WIDGET_CSS, WIDGET_JS};
use crate::reply::{document, Response, OK};
use vstd::prelude::*;

verus! {

/// Answers with the style sheet.
pub fn serve_css() -> (r: Response)
    ensures
        r@ == document(OK, "text/css; charset=utf-8"@, WIDGET_CSS@),
{
    Response::document(OK, "text/css; charset=utf-8", WIDGET_CSS.to_string())
}

/// Answers with the script.
pub fn serve_js() -> (r: Response)
    ensures
        r@ == document(OK, "application/javascript; charset=utf-8"@, WIDGET_JS@),
{
    Response::document(OK, "application/javascript; charset=utf-8", WIDGET_JS.to_string())
}

} // verus!
