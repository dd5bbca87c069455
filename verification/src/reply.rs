//! Answers to requests.

use vstd::prelude::*;

verus! {

/// An HTTP answer: a status code, header fields in order, and a body.
#[derive(Debug)]
pub struct Response {
    pub status: u16,
    pub headers: Vec<(String, String)>,
    pub body: String,
}

/// The text of a [`Response`].
pub struct ResponseView {
    pub status: u16,
    pub headers: Seq<(Seq<char>, Seq<char>)>,
    pub body: Seq<char>,
}

impl View for Response {
    type V = ResponseView;

    open spec fn view(&self) -> ResponseView {
        ResponseView {
            status: self.status,
            headers: self.headers.deep_view(),
            body: self.body@,
        }
    }
}

/// The request succeeded.
pub const OK: u16 = 200;

/// The comment was stored.
pub const CREATED: u16 = 201;

/// The answer stands at another address.
pub const SEE_OTHER: u16 = 303;

/// The form was not acceptable.
pub const BAD_REQUEST: u16 = 400;

/// The comment could not be stored.
pub const INTERNAL_SERVER_ERROR: u16 = 500;

/// An answer with a body of some content type.
pub open spec fn document(status: u16, content_type: Seq<char>, body: Seq<char>) -> ResponseView {
    ResponseView { status, headers: seq![("content-type"@, content_type)], body }
}

/// An answer with an HTML body.
pub open spec fn html(status: u16, body: Seq<char>) -> ResponseView {
    document(status, "text/html; charset=utf-8"@, body)
}

/// An answer without a body that sends the browser to `location`.
pub open spec fn redirect(location: Seq<char>) -> ResponseView {
    ResponseView {
        status: SEE_OTHER,
        headers: seq![("location"@, location)],
        body: Seq::empty(),
    }
}

/// An answer without a body that sets a cookie and sends the browser to
/// `location`.
pub open spec fn redirect_with_cookie(cookie: Seq<char>, location: Seq<char>) -> ResponseView {
    ResponseView {
        status: SEE_OTHER,
        headers: seq![("set-cookie"@, cookie), ("location"@, location)],
        body: Seq::empty(),
    }
}

impl Response {
    /// An answer with a body of some content type.
    pub fn document(status: u16, content_type: &str, body: String) -> (r: Response)
        ensures
            r@ == document(status, content_type@, body@),
    {
        let mut headers: Vec<(String, String)> = Vec::new();
        headers.push(("content-type".to_string(), content_type.to_string()));
        let r = Response { status, headers, body };
        assert(r@.headers == document(status, content_type@, body@).headers);
        r
    }

    /// An answer with an HTML body.
    pub fn html(status: u16, body: String) -> (r: Response)
        ensures
            r@ == html(status, body@),
    {
        Response::document(status, "text/html; charset=utf-8", body)
    }

    /// An answer that sends the browser to `location`.
    pub fn redirect(location: &str) -> (r: Response)
        ensures
            r@ == redirect(location@),
    {
        let mut headers: Vec<(String, String)> = Vec::new();
        headers.push(("location".to_string(), location.to_string()));
        let r = Response { status: SEE_OTHER, headers, body: String::new() };
        assert(r@.headers == redirect(location@).headers);
        r
    }

    /// An answer that sets a cookie and sends the browser to `location`.
    pub fn redirect_with_cookie(cookie: String, location: &str) -> (r: Response)
        ensures
            r@ == redirect_with_cookie(cookie@, location@),
    {
        let mut headers: Vec<(String, String)> = Vec::new();
        headers.push(("set-cookie".to_string(), cookie));
        headers.push(("location".to_string(), location.to_string()));
        let r = Response { status: SEE_OTHER, headers, body: String::new() };
        assert(r@.headers == redirect_with_cookie(cookie@, location@).headers);
        r
    }
}

} // verus!
