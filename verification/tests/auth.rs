use axum::http::{header, HeaderValue, StatusCode};
use axum::response::IntoResponse;
use markreply::auth::{
    admin_login_form, admin_login_submit, admin_logout, expected_token, read_cookie_token,
    require_admin_auth,
};
use markreply::models::LoginForm;
use markreply::pages::render_login_page;

fn passes(authorization: Option<&str>, cookie: Option<&str>, token: Option<&str>) -> bool {
    require_admin_auth(authorization.map(|a| a.as_bytes()), cookie.map(|c| c.as_bytes()), token)
        .is_ok()
}

fn form(token: &str) -> LoginForm {
    LoginForm { token: token.to_string() }
}

#[test]
fn configured_token_or_the_fixed_one() {
    assert_eq!(expected_token(Some("t")), "t");
    assert_eq!(expected_token(Some("")), "");
    assert_eq!(expected_token(None), "secret-admin-key");
}

#[test]
fn bearer_header_passes() {
    assert!(passes(Some("Bearer tok"), None, Some("tok")));
    assert!(passes(Some("tok"), None, Some("tok")));
    assert!(passes(Some("Bearer Bearer tok"), None, Some("tok")));
    assert!(passes(Some("Bearer Bearer Bearer Bearer tok"), None, Some("tok")));
    assert!(passes(Some("Bearer "), None, Some("")));
    assert!(passes(Some("Bearer secret-admin-key"), None, None));
    assert!(!passes(Some("bearer tok"), None, Some("tok")));
    assert!(!passes(Some("Bearer tok2"), None, Some("tok")));
    assert!(!passes(Some("Bearer  tok"), None, Some("tok")));
}

#[test]
fn token_that_starts_with_bearer_never_passes_in_the_header() {
    assert!(!passes(Some("Bearer Bearer x"), None, Some("Bearer x")));
    assert!(!passes(Some("Bearer x"), None, Some("Bearer x")));
}

#[test]
fn cookie_passes() {
    assert!(passes(None, Some("admin_token=tok"), Some("tok")));
    assert!(passes(None, Some("a=b; admin_token=tok; c=d"), Some("tok")));
    assert!(passes(None, Some("  admin_token=tok  "), Some("tok")));
    assert!(!passes(None, Some("admin_token=other; admin_token=tok"), Some("tok")));
    assert!(!passes(None, Some("xadmin_token=tok"), Some("tok")));
    assert!(!passes(None, Some("admin_token =tok"), Some("tok")));
    assert!(!passes(None, Some("admin_token"), Some("")));
    assert!(passes(None, Some("admin_token; admin_token=tok"), Some("tok")));
}

#[test]
fn cookie_value_ends_at_an_equals_sign() {
    assert_eq!(read_cookie_token("admin_token=a=b"), Some("a".to_string()));
    assert_eq!(read_cookie_token("admin_token="), Some("".to_string()));
    assert_eq!(read_cookie_token("x=y"), None);
    assert_eq!(read_cookie_token(""), None);
    assert!(!passes(None, Some("admin_token=a=b"), Some("a=b")));
}

#[test]
fn either_header_is_enough() {
    assert!(passes(Some("wrong"), Some("admin_token=tok"), Some("tok")));
    assert!(passes(Some("Bearer tok"), Some("admin_token=wrong"), Some("tok")));
}

#[test]
fn refused_requests_are_sent_to_the_login_page() {
    let r = require_admin_auth(None, None, Some("")).unwrap_err();
    assert_eq!(r.status, 303);
    assert_eq!(r.headers, vec![("location".to_string(), "/admin/login".to_string())]);
    assert_eq!(r.body, "");
}

#[test]
fn header_bytes_outside_visible_ascii_do_not_count() {
    assert!(!passes(Some("Bearer é"), None, Some("é")));
    assert!(!passes(None, Some("x=é; admin_token=tok"), Some("tok")));
    assert!(require_admin_auth(Some(b"a\x7f"), None, Some("a\x7f")).is_err());
    assert!(require_admin_auth(Some(b"a\n"), None, Some("a\n")).is_err());
    assert!(require_admin_auth(Some(b"\xff"), None, Some("\u{ff}")).is_err());
    assert!(require_admin_auth(Some(b"a\tb ~"), None, Some("a\tb ~")).is_ok());
}

#[test]
fn login_form_page() {
    let r = admin_login_form();
    assert_eq!(r.status, 200);
    assert_eq!(
        r.headers,
        vec![("content-type".to_string(), "text/html; charset=utf-8".to_string())]
    );
    assert_eq!(r.body, render_login_page(None));
}

#[test]
fn right_token_sets_the_cookie() {
    let r = admin_login_submit(&form("tok"), Some("tok"));
    assert_eq!(r.status, 303);
    assert_eq!(
        r.headers,
        vec![
            (
                "set-cookie".to_string(),
                "admin_token=tok; Path=/; HttpOnly; Max-Age=31536000".to_string()
            ),
            ("location".to_string(), "/admin".to_string()),
        ]
    );
    assert_eq!(r.body, "");
}

#[test]
fn wrong_token_shows_the_form_again() {
    let r = admin_login_submit(&form("tok "), Some("tok"));
    assert_eq!(r.status, 200);
    assert_eq!(
        r.headers,
        vec![("content-type".to_string(), "text/html; charset=utf-8".to_string())]
    );
    assert_eq!(r.body, render_login_page(Some("Invalid Token. Please try again.")));
}

#[test]
fn login_opens_the_pages_and_logout_closes_them() {
    let granted = admin_login_submit(&form("s3cret ~ key"), Some("s3cret ~ key"));
    let sent = granted.headers[0].1.split(';').next().unwrap();
    assert!(passes(None, Some(sent), Some("s3cret ~ key")));
    assert!(passes(None, Some(&format!("lang=en; {}", sent)), Some("s3cret ~ key")));
    let ended = admin_logout();
    let sent = ended.headers[0].1.split(';').next().unwrap();
    assert_eq!(sent, "admin_token=");
    assert!(!passes(None, Some(sent), Some("s3cret ~ key")));
}

#[test]
fn logout_empties_the_cookie() {
    let r = admin_logout();
    assert_eq!(r.status, 303);
    assert_eq!(
        r.headers,
        vec![
            (
                "set-cookie".to_string(),
                "admin_token=; Path=/; HttpOnly; Max-Age=0".to_string()
            ),
            ("location".to_string(), "/admin/login".to_string()),
        ]
    );
    assert_eq!(r.body, "");
}

#[test]
fn token_that_cannot_be_sent_sets_no_cookie() {
    for token in ["a\nb", "\r", "\u{0}", "x\u{7f}", "\u{1f}y"] {
        let r = admin_login_submit(&form(token), Some(token));
        assert_eq!(r.status, 303);
        assert_eq!(
            r.headers,
            vec![("content-type".to_string(), "text/plain; charset=utf-8".to_string())]
        );
        assert_eq!(r.body, "failed to parse header value");
    }
    let wrong = admin_login_submit(&form("a\nb"), Some("a"));
    assert_eq!(wrong.status, 200);
}

#[test]
fn every_other_token_sets_the_cookie() {
    for token in ["", "a\tb", " ~", "\u{80}", "ééé", "🌟", "a;b=c"] {
        let r = admin_login_submit(&form(token), Some(token));
        assert_eq!(r.headers[0].0, "set-cookie");
        assert_eq!(
            r.headers[0].1,
            format!("admin_token={}; Path=/; HttpOnly; Max-Age=31536000", token)
        );
    }
}

#[test]
fn cookie_is_set_where_the_header_takes_it() {
    for code in 0..0x300u32 {
        let token = format!("a{}b", char::from_u32(code).unwrap());
        let r = admin_login_submit(&form(&token), Some(&token));
        let taken = HeaderValue::try_from(token).is_ok();
        assert_eq!(r.headers[0].0 == "set-cookie", taken);
    }
}

#[test]
fn login_answers_as_the_server_library_does() {
    let runtime = tokio::runtime::Builder::new_current_thread().build().unwrap();
    for token in ["tok", "a\nb"] {
        let cookie = format!("admin_token={}; Path=/; HttpOnly; Max-Age=31536000", token);
        let sent = (
            StatusCode::SEE_OTHER,
            [(header::SET_COOKIE, cookie), (header::LOCATION, "/admin".to_string())],
        )
            .into_response();
        let r = admin_login_submit(&form(token), Some(token));
        assert_eq!(r.status, sent.status().as_u16());
        let fields: Vec<(String, String)> = sent
            .headers()
            .iter()
            .map(|(name, value)| (name.to_string(), value.to_str().unwrap().to_string()))
            .collect();
        assert_eq!(r.headers, fields);
        let body = runtime.block_on(axum::body::to_bytes(sent.into_body(), 1000)).unwrap();
        assert_eq!(r.body.as_bytes(), &body[..]);
    }
}
