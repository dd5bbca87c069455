use markreply::comments::{
    decide_submission, get_comments, get_comments_statement, post_comment, write_threads_page,
    NewComment, Submission,
};
use markreply::markup::show_content;
use markreply::models::{Comment, CommentQuery, CreateCommentForm};
use markreply::pages::{comment_item_html, render_comment_item};
use markreply::reply::Response;
use markreply::store::SqlValue;
use markreply::threads::Rendered;
use markreply::time::{Civil, Timestamp};

const ADMIN: Option<&str> = Some("admin@example.com");

fn moment() -> Timestamp {
    Timestamp::new(Civil {
        year: 2024,
        month: 3,
        day: 5,
        hour: 14,
        minute: 7,
        second: 9,
        nanosecond: 0,
    })
    .unwrap()
}

fn comment(id: &str, parent: Option<&str>) -> Comment {
    Comment {
        id: id.to_string(),
        post_slug: "post".to_string(),
        author_name: format!("author of {}", id),
        author_email: None,
        content: format!("text of **{}**", id),
        is_approved: true,
        created_at: moment(),
        parent_id: parent.map(|p| p.to_string()),
    }
}

fn form() -> CreateCommentForm {
    CreateCommentForm {
        post_slug: "post".to_string(),
        author_name: "Jane".to_string(),
        author_email: Some("jane@example.com".to_string()),
        content: "Hello".to_string(),
        parent_id: None,
        honeypot: None,
    }
}

fn is_html(r: &Response, status: u16) -> bool {
    r.status == status
        && r.headers
            == vec![("content-type".to_string(), "text/html; charset=utf-8".to_string())]
}

fn decide(form: CreateCommentForm) -> Submission {
    let name = form.author_name.clone();
    let content = form.content.clone();
    decide_submission(form, name, content, "id-1".to_string(), ADMIN)
}

fn stored(s: Submission) -> NewComment {
    match s {
        Submission::Store(c) => c,
        Submission::Reply(_) => panic!("the form was answered"),
    }
}

fn answered(s: Submission) -> Response {
    match s {
        Submission::Reply(r) => r,
        Submission::Store(_) => panic!("a comment is to be stored"),
    }
}

fn texts(values: &Vec<SqlValue>) -> Vec<String> {
    values
        .iter()
        .map(|v| match v {
            SqlValue::Text(t) => t.clone(),
            SqlValue::Integer(n) => format!("#{}", n),
            SqlValue::Null => "NULL".to_string(),
        })
        .collect()
}

#[test]
fn comments_of_a_page_statement() {
    let s = get_comments_statement(&CommentQuery { slug: "my-post".to_string() });
    assert_eq!(s.sql, "SELECT id, post_slug, author_name, author_email, content, is_approved, created_at, parent_id FROM comments WHERE post_slug = ? AND is_approved = 1 ORDER BY created_at DESC");
    assert_eq!(texts(&s.values), vec!["my-post"]);
}

#[test]
fn page_without_comments() {
    let expected =
        "<p class=\"no-comments\">No comments yet. Be the first to share your thoughts!</p>";
    let empty = get_comments(Some(Vec::new()), ADMIN);
    assert!(is_html(&empty, 200));
    assert_eq!(empty.body, expected);
    let failed = get_comments(None, ADMIN);
    assert!(is_html(&failed, 200));
    assert_eq!(failed.body, expected);
}

#[test]
fn replies_stand_beneath_their_parents() {
    let list = vec![
        comment("r1", Some("b")),
        comment("a", None),
        comment("r2", Some("a")),
        comment("b", None),
        comment("r3", Some("b")),
    ];
    let r = get_comments(Some(list), ADMIN);
    assert!(is_html(&r, 200));
    let mut expected = String::new();
    expected.push_str(&render_comment_item(&comment("a", None), false, ADMIN));
    expected.push_str(&render_comment_item(&comment("r2", Some("a")), true, ADMIN));
    expected.push_str(&render_comment_item(&comment("b", None), false, ADMIN));
    expected.push_str(&render_comment_item(&comment("r1", Some("b")), true, ADMIN));
    expected.push_str(&render_comment_item(&comment("r3", Some("b")), true, ADMIN));
    assert_eq!(r.body, expected);
}

#[test]
fn unattached_replies_do_not_show() {
    let list = vec![
        comment("a", None),
        comment("r1", Some("a")),
        comment("r2", Some("r1")),
        comment("r3", Some("gone")),
    ];
    let fewer = vec![comment("a", None), comment("r1", Some("a"))];
    assert_eq!(get_comments(Some(list), ADMIN).body, get_comments(Some(fewer), ADMIN).body);
    let orphan = get_comments(Some(vec![comment("r", Some("gone"))]), ADMIN);
    assert!(is_html(&orphan, 200));
    assert_eq!(orphan.body, "");
}

#[test]
fn parents_of_one_id_each_show_their_replies() {
    let list = vec![comment("a", None), comment("a", None), comment("r", Some("a"))];
    let top = render_comment_item(&comment("a", None), false, ADMIN);
    let reply = render_comment_item(&comment("r", Some("a")), true, ADMIN);
    assert_eq!(
        get_comments(Some(list), ADMIN).body,
        format!("{}{}{}{}", top, reply, top, reply)
    );
}

#[test]
fn without_replies_the_order_is_kept() {
    let list = vec![comment("c", None), comment("a", None), comment("b", None)];
    let mut expected = String::new();
    for id in ["c", "a", "b"] {
        expected.push_str(&render_comment_item(&comment(id, None), false, ADMIN));
    }
    assert_eq!(get_comments(Some(list), ADMIN).body, expected);
}

#[test]
fn first_comment_stands_first() {
    let rest = get_comments(Some(vec![comment("a", None), comment("r", Some("a"))]), ADMIN).body;
    let all = get_comments(
        Some(vec![comment("new", None), comment("a", None), comment("r", Some("a"))]),
        ADMIN,
    )
    .body;
    let first = render_comment_item(&comment("new", None), false, ADMIN);
    assert_eq!(all, format!("{}{}", first, rest));
}

#[test]
fn threads_of_given_contents() {
    let items = vec![
        Rendered { comment: comment("a", None), content: "<i>A</i>".to_string() },
        Rendered { comment: comment("r", Some("a")), content: "<i>R</i>".to_string() },
    ];
    let r = write_threads_page(&items, ADMIN);
    assert!(is_html(&r, 200));
    assert_eq!(
        r.body,
        format!(
            "{}{}",
            comment_item_html(&comment("a", None), "<i>A</i>", false, ADMIN),
            comment_item_html(&comment("r", Some("a")), "<i>R</i>", true, ADMIN)
        )
    );
}

#[test]
fn markdown_becomes_clean_html() {
    assert_eq!(show_content("**b** <script>x</script>\n\n- i"), "<p><strong>b</strong> </p>\n<ul>\n<li>i</li>\n</ul>\n");
    assert_eq!(
        show_content("[l](https://e.com)"),
        "<p><a href=\"https://e.com\" rel=\"noopener noreferrer\">l</a></p>\n"
    );
}

#[test]
fn machines_get_an_empty_page() {
    let mut f = form();
    f.honeypot = Some("spam".to_string());
    let r = answered(decide(f));
    assert!(is_html(&r, 200));
    assert_eq!(r.body, "");
    let mut f = form();
    f.honeypot = Some("x".to_string());
    f.content = "".to_string();
    assert_eq!(answered(post_comment(f, ADMIN)).status, 200);
}

#[test]
fn blank_trap_is_no_trap() {
    let mut f = form();
    f.honeypot = Some(" \t".to_string());
    assert_eq!(stored(decide(f)).content, "Hello");
}

#[test]
fn blank_fields_are_refused() {
    let expected = "<p style=\"color: red;\">Author name and comment cannot be empty.</p>";
    let mut f = form();
    f.content = " \n".to_string();
    let r = answered(decide(f));
    assert!(is_html(&r, 400));
    assert_eq!(r.body, expected);
    let mut f = form();
    f.author_name = "".to_string();
    let r = answered(decide(f));
    assert!(is_html(&r, 400));
    assert_eq!(r.body, expected);
}

#[test]
fn fields_that_are_blank_once_cleaned_are_refused() {
    let mut f = form();
    f.content = "<script>alert(1)</script>".to_string();
    assert_eq!(answered(post_comment(f, ADMIN)).status, 400);
    let mut f = form();
    f.author_name = "<style>b{}</style> ".to_string();
    assert_eq!(answered(post_comment(f, ADMIN)).status, 400);
}

#[test]
fn posted_comment_is_cleaned_and_gets_an_id() {
    let mut f = form();
    f.author_name = "Jane<script>x</script>".to_string();
    f.content = "<b onclick=\"x\">Hi</b> & bye".to_string();
    f.parent_id = Some("p".to_string());
    let c = stored(post_comment(f, ADMIN));
    assert_eq!(c.author_name, "Jane");
    assert_eq!(c.content, "<b>Hi</b> &amp; bye");
    assert_eq!(c.post_slug, "post");
    assert_eq!(c.author_email, Some("jane@example.com".to_string()));
    assert_eq!(c.parent_id, Some("p".to_string()));
    assert!(!c.by_admin);
    let id: Vec<char> = c.id.chars().collect();
    assert_eq!(id.len(), 36);
    for i in 0..36 {
        if i == 8 || i == 13 || i == 18 || i == 23 {
            assert_eq!(id[i], '-');
        } else {
            assert!(id[i].is_ascii_digit() || ('a' <= id[i] && id[i] <= 'f'));
        }
    }
    assert_eq!(id[14], '4');
    assert!(matches!(id[19], '8' | '9' | 'a' | 'b'));
    assert_ne!(stored(post_comment(form(), ADMIN)).id, c.id);
}

#[test]
fn insert_statement_binds_every_value() {
    let mut f = form();
    f.parent_id = Some("p".to_string());
    let s = stored(decide(f)).insert_statement();
    assert_eq!(s.sql, "INSERT INTO comments (id, post_slug, author_name, author_email, content, is_approved, parent_id) VALUES (?, ?, ?, ?, ?, ?, ?)");
    assert_eq!(
        texts(&s.values),
        vec!["id-1", "post", "Jane", "jane@example.com", "Hello", "#0", "p"]
    );
    let mut f = form();
    f.author_email = None;
    let s = stored(decide(f)).insert_statement();
    assert_eq!(texts(&s.values), vec!["id-1", "post", "Jane", "NULL", "Hello", "#0", "NULL"]);
    assert_eq!(s.values.len(), s.sql.matches('?').count());
}

#[test]
fn administrator_skips_moderation() {
    let mut f = form();
    f.author_email = Some(" Admin@Example.com".to_string());
    let c = stored(decide(f));
    assert!(c.by_admin);
    assert_eq!(texts(&c.insert_statement().values)[5], "#1");
    let o = c.finish_at(Some(moment()));
    assert!(is_html(&o.response, 201));
    assert_eq!(o.response.body, "<div class=\"comment-success-msg\">Welcome back, Admin! Your comment has been posted instantly.</div>");
    assert!(o.alert.is_none());
}

#[test]
fn everyone_else_awaits_moderation() {
    let o = stored(decide(form())).finish_at(Some(moment()));
    assert!(is_html(&o.response, 201));
    assert_eq!(o.response.body, "<div class=\"comment-success-msg\">Thank you! Your comment has been submitted and is awaiting moderation.</div>");
    let told = o.alert.unwrap();
    assert_eq!(told.id, "id-1");
    assert_eq!(told.post_slug, "post");
    assert_eq!(told.author_name, "Jane");
    assert_eq!(told.author_email, Some("jane@example.com".to_string()));
    assert_eq!(told.content, "Hello");
    assert!(!told.is_approved);
    assert_eq!(told.created_at, moment());
    assert_eq!(told.parent_id, None);
}

#[test]
fn failed_store_is_reported() {
    for o in [stored(decide(form())).finish_at(None), stored(decide(form())).finish(false)] {
        assert!(is_html(&o.response, 500));
        assert_eq!(o.response.body, "<p style=\"color: red;\">Failed to save comment.</p>");
        assert!(o.alert.is_none());
    }
}

#[test]
fn finished_comment_carries_the_present_moment() {
    let o = stored(decide(form())).finish(true);
    assert_eq!(o.response.status, 201);
    assert!(o.alert.unwrap().created_at.fields().year >= 2024);
}
