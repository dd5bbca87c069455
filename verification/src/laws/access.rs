//! What the administrator's access promises.

use crate::auth::{
    admin_login_form, admin_login_submit, admin_logout, ascii_bytes, authorised, bearer_token,
    entry_token, expected_token, field_text, first_token, read_cookie_token, repeated,
    require_admin_auth, sendable, visible, visible_byte,
};
use crate::laws::answers::{answer_is, lemma_answer, page_is};
use crate::laws::words::{
    core_of, interposed, lemma_core, lemma_pieces, lemma_pieces_found, lemma_prefixes,
    lemma_prefixes_taken,
};
use crate::models::LoginForm;
use crate::pages::render_login_page;
use crate::reply::Response;
use crate::text::{law_split_at_separator, lemma_split_whole, split_at_each, trimmed};
use vstd::prelude::*;

verus! {

/// Whether all bytes of a header field are visible ASCII, spaces or tabs.
pub open spec fn readable(bytes: Seq<u8>) -> bool {
    forall|i: int|
        0 <= i < bytes.len() ==> 0x20 <= #[trigger] bytes[i] && bytes[i] <= 0x7e || bytes[i] == 0x09
}

/// The characters that bytes stand for.
pub open spec fn text_of_bytes(bytes: Seq<u8>) -> Seq<char> {
    Seq::new(bytes.len(), |i: int| bytes[i] as char)
}

/// A field is read exactly where it is readable, as the text of its bytes.
proof fn lemma_field(bytes: Seq<u8>)
    ensures
        field_text(bytes) == if readable(bytes) {
            Some(text_of_bytes(bytes))
        } else {
            None
        },
{
    if readable(bytes) {
        assert forall|i: int| 0 <= i < bytes.len() implies visible_byte(#[trigger] bytes[i]) by {}
        assert(bytes.map_values(|b: u8| b as char) =~= text_of_bytes(bytes));
    } else {
        if forall|i: int| 0 <= i < bytes.len() ==> visible_byte(#[trigger] bytes[i]) {
            assert forall|i: int| 0 <= i < bytes.len() implies 0x20 <= #[trigger] bytes[i]
                && bytes[i] <= 0x7e || bytes[i] == 0x09 by {
                assert(visible_byte(bytes[i]));
            }
        }
    }
}

/// The token in force is the one that is configured, to the letter, and a fixed
/// one where none is.
pub proof fn law_configured_token_is_in_force(configured: Option<&str>, r: String)
    requires
        call_ensures(expected_token, (configured,), r),
    ensures
        configured is Some ==> r@ == configured->0@,
        configured is None ==> r@ == "secret-admin-key"@,
{
}

/// A request with an `Authorization` header alone passes exactly where its text
/// is the token in force, character for character, with `Bearer ` before it any
/// number of times. A token that itself starts with `Bearer ` never passes so.
pub proof fn law_authorization_passes_with_the_token_only(
    bytes: &[u8],
    configured: Option<&str>,
    token: String,
    r: Result<(), Response>,
)
    requires
        call_ensures(require_admin_auth, (Some(bytes), None::<&[u8]>, configured), r),
        call_ensures(expected_token, (configured,), token),
    ensures
        r is Ok <==> {
            &&& readable(bytes@)
            &&& !"Bearer "@.is_prefix_of(token@)
            &&& exists|n: nat|
                text_of_bytes(bytes@) == #[trigger] repeated("Bearer "@, n) + token@
        },
{
    reveal_strlit("Bearer ");
    let prefix = "Bearer "@;
    let text = text_of_bytes(bytes@);
    let none = None::<&[u8]>;
    assert(bytes.deep_view() =~= bytes@);
    lemma_field(bytes@);
    if readable(bytes@) {
        let n = lemma_prefixes(text, prefix);
        assert(text == repeated(prefix, n) + bearer_token(text));
        if !prefix.is_prefix_of(token@) && exists|n: nat|
            text == #[trigger] repeated(prefix, n) + token@ {
            let m = choose|m: nat| text == #[trigger] repeated(prefix, m) + token@;
            lemma_prefixes_taken(prefix, m, token@);
        }
    }
}

/// A wrong token in an `Authorization` header does not pass: of two different
/// tokens that do not start with `Bearer `, neither opens the pages of the other.
pub proof fn law_wrong_bearer_token_is_refused(sent: Seq<char>, token: Seq<char>, n: nat)
    requires
        sent != token,
        visible(sent),
        !"Bearer "@.is_prefix_of(sent),
    ensures
        !authorised(Some(ascii_bytes(repeated("Bearer "@, n) + sent)), None, token),
{
    crate::auth::law_bearer_token_passes(sent, n);
    let bytes = ascii_bytes(repeated("Bearer "@, n) + sent);
    assert(authorised(Some(bytes), None, sent));
}

/// Whether an entry of a cookie header is the administrator's cookie with some
/// token: but for white space round it, it is `admin_token=` and the token, up to
/// its end or a further `=`.
pub open spec fn carries(entry: Seq<char>, token: Seq<char>) -> bool {
    &&& !token.contains('=')
    &&& exists|tail: Seq<char>| #[trigger]
        core_of("admin_token="@ + token + tail, entry) && (tail.len() == 0 || tail[0] == '=')
}

/// The administrator's cookie is told by its text.
proof fn lemma_carries(entry: Seq<char>, token: Seq<char>)
    ensures
        carries(entry, token) <==> entry_token(entry) == Some(token),
{
    reveal_strlit("admin_token");
    reveal_strlit("admin_token=");
    let name = "admin_token"@;
    assert("admin_token="@ =~= name + seq!['=']);
    let core = trimmed(entry);
    let parts = split_at_each(core, '=');
    lemma_pieces(core, '=');
    if carries(entry, token) {
        let tail = choose|tail: Seq<char>| #[trigger]
            core_of("admin_token="@ + token + tail, entry) && (tail.len() == 0 || tail[0] == '=');
        lemma_core("admin_token="@ + token + tail, entry);
        assert(core =~= name + seq!['='] + (token + tail));
        law_split_at_separator(name, '=', token + tail);
        lemma_split_whole(name, '=');
        assert forall|i: int| 0 <= i < token.len() implies #[trigger] token[i] != '=' by {
            assert(token.contains(token[i]));
        }
        lemma_split_whole(token, '=');
        if tail.len() == 0 {
            assert(token + tail =~= token);
        } else {
            assert(token + tail =~= token + seq!['='] + tail.skip(1));
            law_split_at_separator(token, '=', tail.skip(1));
        }
        assert(parts[0] == name);
        assert(parts[1] == token);
    }
    if entry_token(entry) == Some(token) {
        let rest = parts.drop_first();
        assert(parts[0] == name);
        assert(rest[0] == parts[1]);
        assert(!parts[1].contains('='));
        let tail = if rest.len() == 1 {
            Seq::empty()
        } else {
            seq!['='] + interposed(rest.drop_first(), '=')
        };
        assert(interposed(rest, '=') =~= token + tail);
        assert(core =~= "admin_token="@ + token + tail);
        lemma_core("admin_token="@ + token + tail, entry);
    }
}

/// Which token counts of several entries.
proof fn lemma_first(entries: Seq<Seq<char>>, token: Seq<char>)
    ensures
        first_token(entries) == Some(token) <==> exists|k: int|
            0 <= k < entries.len() && carries(#[trigger] entries[k], token) && forall|j: int|
                0 <= j < k ==> forall|other: Seq<char>| !carries(#[trigger] entries[j], other),
        first_token(entries) is None <==> forall|j: int|
            0 <= j < entries.len() ==> forall|other: Seq<char>|
                !carries(#[trigger] entries[j], other),
    decreases entries.len(),
{
    if entries.len() > 0 {
        let rest = entries.drop_first();
        lemma_first(rest, token);
        assert forall|other: Seq<char>|
            carries(entries[0], other) <==> entry_token(entries[0]) == Some(other) by {
            lemma_carries(entries[0], other);
        }
        if entry_token(entries[0]) is Some {
            let found = entry_token(entries[0])->0;
            assert(carries(entries[0], found));
            if found == token {
                assert(carries(entries[0], token));
            }
            assert forall|k: int|
                0 <= k < entries.len() && carries(#[trigger] entries[k], token) && (forall|j: int|
                    0 <= j < k ==> forall|other: Seq<char>|
                        !carries(#[trigger] entries[j], other)) implies k == 0 by {
                if k > 0 {
                    assert(!carries(entries[0], found));
                }
            }
        } else {
            assert forall|other: Seq<char>| !carries(entries[0], other) by {}
            assert forall|j: int| 0 <= j < rest.len() implies rest[j] == #[trigger] entries[j
                + 1] by {}
            if first_token(rest) == Some(token) {
                let k = choose|k: int|
                    0 <= k < rest.len() && carries(#[trigger] rest[k], token) && forall|j: int|
                        0 <= j < k ==> forall|other: Seq<char>| !carries(#[trigger] rest[j], other);
                assert(entries[k + 1] == rest[k]);
                assert forall|j: int| 0 <= j < k + 1 implies forall|other: Seq<char>|
                    !carries(#[trigger] entries[j], other) by {
                    if j > 0 {
                        assert(rest[j - 1] == entries[j]);
                    }
                }
                assert(carries(entries[k + 1], token));
            }
            if exists|k: int|
                0 <= k < entries.len() && carries(#[trigger] entries[k], token) && forall|j: int|
                    0 <= j < k ==> forall|other: Seq<char>| !carries(#[trigger] entries[j], other) {
                let k = choose|k: int|
                    0 <= k < entries.len() && carries(#[trigger] entries[k], token) && forall|j: int|
                        0 <= j < k ==> forall|other: Seq<char>| !carries(#[trigger] entries[j], other);
                assert(k > 0);
                assert(rest[k - 1] == entries[k]);
                assert forall|j: int| 0 <= j < k - 1 implies forall|other: Seq<char>|
                    !carries(#[trigger] rest[j], other) by {
                    assert(rest[j] == entries[j + 1]);
                }
                assert(carries(rest[k - 1], token));
            }
            if first_token(rest) is None {
                assert forall|j: int| 0 <= j < entries.len() implies forall|other: Seq<char>|
                    !carries(#[trigger] entries[j], other) by {
                    if j > 0 {
                        assert(rest[j - 1] == entries[j]);
                    }
                }
            } else {
                if forall|j: int|
                    0 <= j < entries.len() ==> forall|other: Seq<char>|
                        !carries(#[trigger] entries[j], other) {
                    assert forall|j: int| 0 <= j < rest.len() implies forall|other: Seq<char>|
                        !carries(#[trigger] rest[j], other) by {
                        assert(rest[j] == entries[j + 1]);
                    }
                }
            }
        }
    }
}

/// The token that is read from a cookie header is that of the first of its
/// entries that is the administrator's cookie; there is none where no entry is.
pub proof fn law_cookie_token_is_that_of_the_first_entry(
    cookies: &str,
    entries: Seq<Seq<char>>,
    r: Option<String>,
)
    requires
        call_ensures(read_cookie_token, (cookies,), r),
        entries.len() > 0,
        forall|i: int| 0 <= i < entries.len() ==> !(#[trigger] entries[i]).contains(';'),
        cookies@ == interposed(entries, ';'),
    ensures
        r is Some ==> exists|k: int|
            0 <= k < entries.len() && carries(#[trigger] entries[k], r->0@) && forall|j: int|
                0 <= j < k ==> forall|other: Seq<char>| !carries(#[trigger] entries[j], other),
        r is None ==> forall|j: int|
            0 <= j < entries.len() ==> forall|other: Seq<char>|
                !carries(#[trigger] entries[j], other),
{
    lemma_pieces_found(entries, ';');
    if r is Some {
        lemma_first(entries, r->0@);
    } else {
        lemma_first(entries, Seq::empty());
    }
}

/// A request with a cookie header alone passes exactly where the token that is
/// read from it is the token in force, character for character.
pub proof fn law_cookie_passes_with_the_token_only(
    bytes: &[u8],
    text: &str,
    configured: Option<&str>,
    token: String,
    found: Option<String>,
    r: Result<(), Response>,
)
    requires
        call_ensures(require_admin_auth, (None::<&[u8]>, Some(bytes), configured), r),
        call_ensures(expected_token, (configured,), token),
        text@ == text_of_bytes(bytes@),
        call_ensures(read_cookie_token, (text,), found),
    ensures
        r is Ok <==> readable(bytes@) && found is Some && found->0@ == token@,
{
    let none = None::<&[u8]>;
    assert(bytes.deep_view() =~= bytes@);
    lemma_field(bytes@);
}

/// A request with both headers passes exactly where it would with one of them.
pub proof fn law_either_header_is_enough(
    authorization: Option<&[u8]>,
    cookie: Option<&[u8]>,
    configured: Option<&str>,
    both: Result<(), Response>,
    first: Result<(), Response>,
    second: Result<(), Response>,
)
    requires
        call_ensures(require_admin_auth, (authorization, cookie, configured), both),
        call_ensures(require_admin_auth, (authorization, None::<&[u8]>, configured), first),
        call_ensures(require_admin_auth, (None::<&[u8]>, cookie, configured), second),
    ensures
        both is Ok <==> first is Ok || second is Ok,
{
}

/// A request without the headers does not pass, and every request that does not
/// pass is sent to the login page.
pub proof fn law_refused_requests_are_sent_to_the_login_page(
    authorization: Option<&[u8]>,
    cookie: Option<&[u8]>,
    configured: Option<&str>,
    r: Result<(), Response>,
)
    requires
        call_ensures(require_admin_auth, (authorization, cookie, configured), r),
    ensures
        authorization is None && cookie is None ==> r is Err,
        r is Err ==> answer_is(r->Err_0, 303, seq![("location"@, "/admin/login"@)], Seq::empty()),
{
    if r is Err {
        lemma_answer(r->Err_0);
    }
}

/// Whether a text holds no control character but the tab.
pub open spec fn fits_a_header(text: Seq<char>) -> bool {
    forall|i: int|
        0 <= i < text.len() ==> #[trigger] text[i] != '\u{7f}' && (text[i] <= '\u{1f}' ==> text[i]
            == '\t')
}

/// A login with the token in force sets the cookie that holds it, for a year, and
/// leads to the moderation page. Where the token does not fit a header field, the
/// answer has neither field and says why. A login with any other token shows the
/// login page with a message, and sets nothing.
pub proof fn law_login_is_answered_by_its_token(
    form: LoginForm,
    configured: Option<&str>,
    token: String,
    again: String,
    r: Response,
)
    requires
        call_ensures(admin_login_submit, (&form, configured), r),
        call_ensures(expected_token, (configured,), token),
        call_ensures(render_login_page, (Some("Invalid Token. Please try again."),), again),
    ensures
        form.token@ == token@ && fits_a_header(token@) ==> answer_is(
            r,
            303,
            seq![
                (
                    "set-cookie"@,
                    "admin_token="@ + token@ + "; Path=/; HttpOnly; Max-Age=31536000"@,
                ),
                ("location"@, "/admin"@),
            ],
            Seq::empty(),
        ),
        form.token@ == token@ && !fits_a_header(token@) ==> answer_is(
            r,
            303,
            seq![("content-type"@, "text/plain; charset=utf-8"@)],
            "failed to parse header value"@,
        ),
        form.token@ != token@ ==> page_is(r, 200, again@),
{
    lemma_answer(r);
    crate::auth::lemma_cookie_sendable(token@);
    assert(sendable(token@) <==> fits_a_header(token@));
}

/// A logout empties the cookie, ends it at once, and leads to the login page,
/// which is shown without a message.
pub proof fn law_logout_empties_the_cookie(out: Response, shown: Response, page: String)
    requires
        call_ensures(admin_logout, (), out),
        call_ensures(admin_login_form, (), shown),
        call_ensures(render_login_page, (None::<&str>,), page),
    ensures
        answer_is(
            out,
            303,
            seq![
                ("set-cookie"@, "admin_token=; Path=/; HttpOnly; Max-Age=0"@),
                ("location"@, "/admin/login"@),
            ],
            Seq::empty(),
        ),
        page_is(shown, 200, page@),
{
    lemma_answer(out);
    lemma_answer(shown);
}

} // verus!
