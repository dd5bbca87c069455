//! The administrator's access: a token, sent in an `Authorization` header or
//! in a cookie.

use crate::models::LoginForm;
use crate::pages::{login_page, render_login_page};
use crate::reply::{
    document, html, redirect, redirect_with_cookie, Response, ResponseView, OK, SEE_OTHER,
};
use crate::text::{
    law_split_at_separator, law_trimmed_padded, lemma_position_is, lemma_split_whole, position, split, split_at_each,
    trim, trim_start_matches, trimmed, white_space, without_prefixes,
};
use vstd::prelude::*;

verus! {

/// The token in force where none is configured.
pub const DEFAULT_TOKEN: &'static str = "secret-admin-key";

/// The name of the cookie that holds the token.
pub const COOKIE_NAME: &'static str = "admin_token";

/// Whether a byte of a header field is a visible ASCII character, a space or a
/// tab.
pub open spec fn visible_byte(b: u8) -> bool {
    32 <= b < 127 || b == 9
}

/// A header field as text: its characters where all its bytes are visible
/// ASCII, nothing otherwise.
pub open spec fn field_text(bytes: Seq<u8>) -> Option<Seq<char>> {
    if forall|i: int| 0 <= i < bytes.len() ==> visible_byte(#[trigger] bytes[i]) {
        Some(bytes.map_values(|b: u8| b as char))
    } else {
        None
    }
}

/// The text of a header field, by `axum::http::HeaderValue::to_str` on the
/// value that `HeaderValue::from_bytes` makes of the field's bytes.
///
/// Trusted: there is a text exactly where every byte is a visible ASCII
/// character, a space or a tab, and then its characters are those bytes.
#[verifier::external_body]
fn read_field(bytes: &[u8]) -> (r: Option<String>)
    ensures
        r.deep_view() == field_text(bytes@),
{
    let value = axum::http::HeaderValue::from_bytes(bytes).ok()?;
    match value.to_str() {
        Ok(text) => Some(text.to_string()),
        Err(_) => None,
    }
}

/// The token that grants access, given the configured one.
pub open spec fn token_in_force(configured: Option<Seq<char>>) -> Seq<char> {
    match configured {
        Some(token) => token,
        None => DEFAULT_TOKEN@,
    }
}

/// The token that grants access: the configured one, or a fixed one where none
/// is configured.
pub fn expected_token(configured: Option<&str>) -> (r: String)
    ensures
        r@ == token_in_force(configured.deep_view()),
{
    match configured {
        Some(token) => token.to_string(),
        None => DEFAULT_TOKEN.to_string(),
    }
}

/// The token in one `name=value` entry of a cookie header, if the entry is the
/// administrator's cookie. The value ends at a further `=`.
pub open spec fn entry_token(entry: Seq<char>) -> Option<Seq<char>> {
    let parts = split_at_each(trimmed(entry), '=');
    if parts[0] == COOKIE_NAME@ && parts.len() > 1 {
        Some(parts[1])
    } else {
        None
    }
}

/// The token of the first entry that holds one.
pub open spec fn first_token(entries: Seq<Seq<char>>) -> Option<Seq<char>>
    decreases entries.len(),
{
    if entries.len() == 0 {
        None
    } else if entry_token(entries[0]) is Some {
        entry_token(entries[0])
    } else {
        first_token(entries.drop_first())
    }
}

/// The token that a cookie header carries.
pub open spec fn cookie_token(cookies: Seq<char>) -> Option<Seq<char>> {
    first_token(split_at_each(cookies, ';'))
}

/// Reads the token of one entry of a cookie header.
fn read_entry(entry: &str) -> (r: Option<String>)
    ensures
        r.deep_view() == entry_token(entry@),
{
    let parts = split(trim(entry), '=');
    let ghost seen = parts.deep_view();
    assert(seen.len() == parts@.len());
    if parts.len() > 1 {
        assert(seen[0] == parts@[0]@);
        assert(seen[1] == parts@[1]@);
        if parts[0] == COOKIE_NAME.to_string() {
            Some(parts[1].clone())
        } else {
            None
        }
    } else {
        None
    }
}

/// Reads the token that a cookie header carries.
pub fn read_cookie_token(cookies: &str) -> (r: Option<String>)
    ensures
        r.deep_view() == cookie_token(cookies@),
{
    let entries = split(cookies, ';');
    let ghost seen = entries.deep_view();
    let n: usize = entries.len();
    let mut i: usize = 0;
    assert(seen.skip(0) == seen);
    while i < n
        invariant
            n == entries@.len(),
            seen == entries.deep_view(),
            seen == split_at_each(cookies@, ';'),
            i <= n,
            first_token(seen) == first_token(seen.skip(i as int)),
        decreases n - i,
    {
        assert(seen[i as int] == entries@[i as int]@);
        assert(seen.skip(i as int)[0] == seen[i as int]);
        assert(seen.skip(i as int).drop_first() == seen.skip(i + 1));
        let token = read_entry(entries[i].as_str());
        if token.is_some() {
            return token;
        }
        i = i + 1;
    }
    None
}

/// The token that an `Authorization` header carries: its text without
/// `Bearer ` at the start.
pub open spec fn bearer_token(field: Seq<char>) -> Seq<char> {
    without_prefixes(field, "Bearer "@)
}

/// Whether a request with these two header fields may use the administrator's
/// pages.
pub open spec fn authorised(
    authorization: Option<Seq<u8>>,
    cookie: Option<Seq<u8>>,
    token: Seq<char>,
) -> bool {
    ||| {
        &&& authorization is Some
        &&& field_text(authorization->0) is Some
        &&& bearer_token(field_text(authorization->0)->0) == token
    }
    ||| {
        &&& cookie is Some
        &&& field_text(cookie->0) is Some
        &&& cookie_token(field_text(cookie->0)->0) == Some(token)
    }
}

/// Lets a request through to the administrator's pages, or answers it with the
/// way to the login page. `authorization` and `cookie` are the bytes of the
/// request's first header fields of those names.
pub fn require_admin_auth(
    authorization: Option<&[u8]>,
    cookie: Option<&[u8]>,
    configured_token: Option<&str>,
) -> (r: Result<(), Response>)
    ensures
        r is Ok <==> authorised(
            authorization.deep_view(),
            cookie.deep_view(),
            token_in_force(configured_token.deep_view()),
        ),
        r is Err ==> r->Err_0@ == redirect("/admin/login"@),
{
    let token = expected_token(configured_token);
    let mut passed: bool = false;
    if let Some(bytes) = authorization {
        assert(bytes.deep_view() == bytes@);
        if let Some(field) = read_field(bytes) {
            passed = trim_start_matches(field.as_str(), "Bearer ").to_string() == token;
        }
    }
    if let Some(bytes) = cookie {
        assert(bytes.deep_view() == bytes@);
        if let Some(field) = read_field(bytes) {
            if let Some(found) = read_cookie_token(field.as_str()) {
                passed = passed || found == token;
            }
        }
    }
    if passed {
        Ok(())
    } else {
        Err(Response::redirect("/admin/login"))
    }
}

/// Answers with the login page.
pub fn admin_login_form() -> (r: Response)
    ensures
        r@ == html(OK, login_page(None)),
{
    Response::html(OK, render_login_page(None))
}

/// The cookie that a login sets: it holds the token for a year.
pub open spec fn login_cookie(token: Seq<char>) -> Seq<char> {
    "admin_token="@ + token + "; Path=/; HttpOnly; Max-Age=31536000"@
}

/// Whether a text can be sent as the value of a header field: it holds no
/// control character but the tab.
pub open spec fn sendable(text: Seq<char>) -> bool {
    forall|i: int|
        0 <= i < text.len() ==> ' ' <= #[trigger] text[i] && text[i] != '\u{7f}' || text[i] == '\t'
}

/// What stands against sending a text as the value of a header field.
pub open spec fn objection(text: Seq<char>) -> Option<Seq<char>> {
    if sendable(text) {
        None
    } else {
        Some("failed to parse header value"@)
    }
}

/// What stands against sending a text as the value of a header field, by
/// `axum::http::HeaderValue::from_str`: the text of its error.
///
/// Trusted: there is an error exactly where the text holds a control character
/// other than the tab, and its text is always the same.
#[verifier::external_body]
fn find_objection(text: &str) -> (r: Option<String>)
    ensures
        r.deep_view() == objection(text@),
{
    match axum::http::HeaderValue::from_str(text) {
        Ok(_) => None,
        Err(error) => Some(error.to_string()),
    }
}

/// The answer to a login with some token. A right token that cannot be sent in
/// a cookie leaves the answer without its header fields: it leads nowhere, and
/// says why.
pub open spec fn login_response(submitted: Seq<char>, token: Seq<char>) -> ResponseView {
    if submitted == token {
        match objection(login_cookie(submitted)) {
            None => redirect_with_cookie(login_cookie(submitted), "/admin"@),
            Some(reason) => document(SEE_OTHER, "text/plain; charset=utf-8"@, reason),
        }
    } else {
        html(OK, login_page(Some("Invalid Token. Please try again."@)))
    }
}

/// Answers a login: with the cookie and the way to the moderation page where
/// the token is right, with the login page and a message where it is not. Where
/// a right token cannot be sent in a cookie, the answer sets none.
pub fn admin_login_submit(form: &LoginForm, configured_token: Option<&str>) -> (r: Response)
    ensures
        r@ == login_response(form.token@, token_in_force(configured_token.deep_view())),
{
    let token = expected_token(configured_token);
    if form.token == token {
        let mut cookie = "admin_token=".to_string();
        cookie.append(form.token.as_str());
        cookie.append("; Path=/; HttpOnly; Max-Age=31536000");
        match find_objection(cookie.as_str()) {
            None => Response::redirect_with_cookie(cookie, "/admin"),
            Some(reason) => Response::document(SEE_OTHER, "text/plain; charset=utf-8", reason),
        }
    } else {
        Response::html(OK, render_login_page(Some("Invalid Token. Please try again.")))
    }
}

/// Answers a logout: the cookie is emptied and ends at once.
pub fn admin_logout() -> (r: Response)
    ensures
        r@ == redirect_with_cookie(
            "admin_token=; Path=/; HttpOnly; Max-Age=0"@,
            "/admin/login"@,
        ),
{
    Response::redirect_with_cookie(
        "admin_token=; Path=/; HttpOnly; Max-Age=0".to_string(),
        "/admin/login",
    )
}

/// What a browser sends back of a cookie that was set: its name and value, up
/// to the first semicolon.
pub open spec fn sent_back(set_cookie: Seq<char>) -> Seq<char> {
    set_cookie.take(position(set_cookie, ';'))
}

/// The bytes of a text of ASCII characters.
pub open spec fn ascii_bytes(text: Seq<char>) -> Seq<u8> {
    text.map_values(|c: char| c as u8)
}

/// Whether a text can stand in a header field: visible ASCII characters, spaces
/// and tabs.
pub open spec fn visible(text: Seq<char>) -> bool {
    forall|i: int|
        0 <= i < text.len() ==> ' ' <= #[trigger] text[i] <= '~' || text[i] == '\t'
}

/// A visible text is read back from its bytes.
proof fn lemma_read_back(text: Seq<char>)
    requires
        visible(text),
    ensures
        field_text(ascii_bytes(text)) == Some(text),
{
    let bytes = ascii_bytes(text);
    assert forall|i: int| 0 <= i < bytes.len() implies visible_byte(#[trigger] bytes[i]) by {
        assert(bytes[i] == text[i] as u8);
    }
    assert(bytes.map_values(|b: u8| b as char) =~= text);
}

/// The administrator's cookie gives its token.
proof fn lemma_entry_token(token: Seq<char>)
    requires
        forall|i: int| 0 <= i < token.len() ==> #[trigger] token[i] != '=',
        token.len() > 0 ==> !white_space(token.last()),
    ensures
        entry_token("admin_token="@ + token) == Some(token),
{
    reveal_strlit("admin_token=");
    reveal_strlit("admin_token");
    let entry = "admin_token="@ + token;
    assert(entry[0] == 'a');
    assert(entry.last() == if token.len() > 0 {
        token.last()
    } else {
        '='
    });
    assert(trimmed(entry) == entry);
    lemma_position_is(entry, '=', 11);
    assert(entry.take(11) == COOKIE_NAME@);
    assert(entry.skip(12) == token);
    lemma_split_whole(token, '=');
}

/// A single cookie is one entry.
proof fn lemma_single_cookie(entry: Seq<char>)
    requires
        forall|i: int| 0 <= i < entry.len() ==> #[trigger] entry[i] != ';',
    ensures
        cookie_token(entry) == entry_token(entry),
{
    lemma_split_whole(entry, ';');
    let entries = seq![entry];
    assert(entries.drop_first() == Seq::<Seq<char>>::empty());
    assert(first_token(entries.drop_first()) is None);
}

/// Of two runs of entries, the first that holds a token counts.
proof fn lemma_first_token_in_runs(a: Seq<Seq<char>>, b: Seq<Seq<char>>)
    ensures
        first_token(a + b) == if first_token(a) is Some {
            first_token(a)
        } else {
            first_token(b)
        },
    decreases a.len(),
{
    if a.len() == 0 {
        assert(a + b == b);
    } else {
        assert((a + b)[0] == a[0]);
        assert((a + b).drop_first() == a.drop_first() + b);
        lemma_first_token_in_runs(a.drop_first(), b);
    }
}

/// Cookies of other names do not matter: of two runs of cookies, the first that
/// holds the administrator's cookie counts.
pub proof fn law_first_cookie_counts(before: Seq<char>, after: Seq<char>)
    ensures
        cookie_token(before + seq![';'] + after) == if cookie_token(before) is Some {
            cookie_token(before)
        } else {
            cookie_token(after)
        },
{
    law_split_at_separator(before, ';', after);
    lemma_first_token_in_runs(split_at_each(before, ';'), split_at_each(after, ';'));
}

/// The cookie of a login can be sent where the token can.
pub proof fn lemma_cookie_sendable(token: Seq<char>)
    ensures
        sendable(login_cookie(token)) <==> sendable(token),
{
    reveal_strlit("admin_token=");
    reveal_strlit("; Path=/; HttpOnly; Max-Age=31536000");
    let cookie = login_cookie(token);
    let tail = "; Path=/; HttpOnly; Max-Age=31536000"@;
    let n = token.len() as int;
    assert forall|i: int| 0 <= i < n implies #[trigger] token[i] == cookie[12 + i] by {}
    if sendable(token) {
        assert forall|i: int| 0 <= i < cookie.len() implies ' ' <= #[trigger] cookie[i] && cookie[i]
            != '\u{7f}' || cookie[i] == '\t' by {
            if i < 12 {
                assert(cookie[i] == "admin_token="@[i]);
            } else if i < 12 + n {
                assert(cookie[i] == token[i - 12]);
            } else {
                assert(cookie[i] == tail[i - 12 - n]);
            }
        }
    }
}

/// A browser sends back the name and the token of the cookie that a login sets.
proof fn lemma_login_cookie_sent_back(token: Seq<char>)
    requires
        visible(token),
        forall|i: int| 0 <= i < token.len() ==> #[trigger] token[i] != ';' && token[i] != '=',
    ensures
        sendable(login_cookie(token)),
        sent_back(login_cookie(token)) == "admin_token="@ + token,
        visible("admin_token="@ + token),
        forall|i: int|
            0 <= i < ("admin_token="@ + token).len() ==> #[trigger] ("admin_token="@ + token)[i]
                != ';',
{
    reveal_strlit("admin_token=");
    reveal_strlit("; Path=/; HttpOnly; Max-Age=31536000");
    let cookie = login_cookie(token);
    let entry = "admin_token="@ + token;
    let tail = "; Path=/; HttpOnly; Max-Age=31536000"@;
    let n = entry.len() as int;
    assert forall|i: int| 0 <= i < n implies #[trigger] entry[i] != ';' by {
        if i >= 12 {
            assert(entry[i] == token[i - 12]);
        }
    }
    assert(cookie == entry + tail);
    assert forall|i: int| 0 <= i < n implies #[trigger] cookie[i] != ';' by {
        assert(cookie[i] == entry[i]);
    }
    assert(cookie[n] == tail[0]);
    lemma_position_is(cookie, ';', n);
    assert(sent_back(cookie) == entry);
    assert(visible(entry)) by {
        assert forall|i: int| 0 <= i < n implies ' ' <= #[trigger] entry[i] <= '~' || entry[i]
            == '\t' by {
            if i >= 12 {
                assert(entry[i] == token[i - 12]);
            }
        }
    }
    lemma_cookie_sendable(token);
}

/// A login opens the administrator's pages: the cookie that the answer to the
/// right token sets, sent back, passes. This holds of every token that can
/// stand in a cookie: one of visible ASCII characters, without a semicolon or an
/// equals sign, and without white space at its end.
pub proof fn law_login_opens_the_pages(token: Seq<char>)
    requires
        visible(token),
        forall|i: int| 0 <= i < token.len() ==> #[trigger] token[i] != ';' && token[i] != '=',
        token.len() > 0 ==> !white_space(token.last()),
    ensures
        ({
            let answer = login_response(token, token);
            &&& answer.headers[0].0 == "set-cookie"@
            &&& authorised(None, Some(ascii_bytes(sent_back(answer.headers[0].1))), token)
        }),
{
    lemma_login_cookie_sent_back(token);
    let entry = "admin_token="@ + token;
    lemma_read_back(entry);
    lemma_single_cookie(entry);
    lemma_entry_token(token);
}

/// The cookie of a login passes among other cookies too, as browsers send them:
/// after any run of cookies that holds no administrator's cookie.
pub proof fn law_login_cookie_passes_among_others(others: Seq<char>, token: Seq<char>)
    requires
        visible(others),
        cookie_token(others) is None,
        visible(token),
        forall|i: int| 0 <= i < token.len() ==> #[trigger] token[i] != ';' && token[i] != '=',
        token.len() > 0 ==> !white_space(token.last()),
    ensures
        authorised(
            None,
            Some(ascii_bytes(others + "; "@ + sent_back(login_cookie(token)))),
            token,
        ),
{
    lemma_login_cookie_sent_back(token);
    reveal_strlit("; ");
    let entry = "admin_token="@ + token;
    let padded = seq![' '] + entry;
    let field = others + "; "@ + entry;
    assert(field == others + seq![';'] + padded);
    assert(visible(field)) by {
        let n = others.len();
        assert forall|i: int| 0 <= i < field.len() implies ' ' <= #[trigger] field[i] <= '~'
            || field[i] == '\t' by {
            if i < n {
                assert(field[i] == others[i]);
            } else if i >= n + 2 {
                assert(field[i] == entry[i - n - 2]);
            }
        }
    }
    lemma_read_back(field);
    law_first_cookie_counts(others, padded);
    assert forall|i: int| 0 <= i < padded.len() implies #[trigger] padded[i] != ';' by {
        if i > 0 {
            assert(padded[i] == entry[i - 1]);
        }
    }
    lemma_single_cookie(padded);
    let nothing = Seq::<char>::empty();
    assert(padded == seq![' '] + entry + nothing);
    law_trimmed_padded(seq![' '], entry, nothing);
    lemma_entry_token(token);
}

/// A logout closes them: the cookie that its answer sets, sent back, passes for
/// no token but the empty one.
pub proof fn law_logout_closes_the_pages(token: Seq<char>)
    ensures
        authorised(
            None,
            Some(ascii_bytes(sent_back("admin_token=; Path=/; HttpOnly; Max-Age=0"@))),
            token,
        ) <==> token.len() == 0,
{
    reveal_strlit("admin_token=");
    reveal_strlit("admin_token=; Path=/; HttpOnly; Max-Age=0");
    let cookie = "admin_token=; Path=/; HttpOnly; Max-Age=0"@;
    let entry = "admin_token="@ + Seq::<char>::empty();
    lemma_position_is(cookie, ';', 12);
    assert(sent_back(cookie) == entry);
    lemma_read_back(entry);
    lemma_single_cookie(entry);
    lemma_entry_token(Seq::empty());
    if token.len() == 0 {
        assert(token == Seq::<char>::empty());
    }
}

/// A word, some number of times over.
pub open spec fn repeated(word: Seq<char>, n: nat) -> Seq<char>
    decreases n,
{
    if n == 0 {
        Seq::empty()
    } else {
        word + repeated(word, (n - 1) as nat)
    }
}

/// Of a token with `Bearer ` before it any number of times, the token is left.
proof fn lemma_bearer_token(token: Seq<char>, n: nat)
    requires
        visible(token),
        !"Bearer "@.is_prefix_of(token),
    ensures
        visible(repeated("Bearer "@, n) + token),
        bearer_token(repeated("Bearer "@, n) + token) == token,
    decreases n,
{
    let prefix = "Bearer "@;
    let field = repeated(prefix, n) + token;
    if n == 0 {
        assert(field == token);
    } else {
        reveal_strlit("Bearer ");
        let rest = repeated(prefix, (n - 1) as nat) + token;
        lemma_bearer_token(token, (n - 1) as nat);
        assert(field == prefix + rest);
        assert forall|i: int| 0 <= i < field.len() implies ' ' <= #[trigger] field[i] <= '~'
            || field[i] == '\t' by {
            if i >= 7 {
                assert(field[i] == rest[i - 7]);
            }
        }
        assert(field.take(7) == prefix);
        assert(prefix.is_prefix_of(field));
        assert(field.skip(7) == rest);
    }
}

/// A token in an `Authorization` header passes, with `Bearer ` before it any
/// number of times, and without. This holds of every token of visible ASCII
/// characters that does not itself start with `Bearer `.
pub proof fn law_bearer_token_passes(token: Seq<char>, n: nat)
    requires
        visible(token),
        !"Bearer "@.is_prefix_of(token),
    ensures
        authorised(Some(ascii_bytes(repeated("Bearer "@, n) + token)), None, token),
{
    lemma_bearer_token(token, n);
    lemma_read_back(repeated("Bearer "@, n) + token);
}

/// A request that carries neither header does not pass.
pub proof fn law_no_credentials_no_access(token: Seq<char>)
    ensures
        !authorised(None, None, token),
{
}

/// Whether an answer sets a cookie.
pub open spec fn sets_cookie(answer: ResponseView) -> bool {
    exists|i: int|
        0 <= i < answer.headers.len() && (#[trigger] answer.headers[i]).0 == "set-cookie"@
}

/// A login sets a cookie exactly where its token is the right one and can be
/// sent in a header field.
pub proof fn law_only_the_right_token_sets_a_cookie(submitted: Seq<char>, token: Seq<char>)
    ensures
        sets_cookie(login_response(submitted, token)) <==> submitted == token && sendable(token),
{
    reveal_strlit("content-type");
    reveal_strlit("set-cookie");
    assert("content-type"@.len() != "set-cookie"@.len());
    lemma_cookie_sendable(token);
    let answer = login_response(submitted, token);
    if submitted == token && sendable(token) {
        assert(answer.headers[0].0 == "set-cookie"@);
    }
}

} // verus!
