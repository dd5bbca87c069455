use markreply::admin::{
    admin_dashboard, delete_comment, delete_comment_statement, list_admin_comments,
    list_admin_comments_statement, toggle_approve_comment, toggle_approve_comment_statements,
};
use markreply::models::Comment;
use markreply::pages::render_admin_row;
use markreply::reply::Response;
use markreply::store::SqlValue;
use markreply::time::{Civil, Timestamp};
use markreply::widget::{serve_css, serve_js};

fn comment(id: &str) -> Comment {
    Comment {
        id: id.to_string(),
        post_slug: "post".to_string(),
        author_name: "A".to_string(),
        author_email: None,
        content: "c".to_string(),
        is_approved: false,
        created_at: Timestamp::new(Civil {
            year: 2025,
            month: 1,
            day: 2,
            hour: 3,
            minute: 4,
            second: 5,
            nanosecond: 6,
        })
        .unwrap(),
        parent_id: None,
    }
}

fn is_html(r: &Response, status: u16) -> bool {
    r.status == status
        && r.headers
            == vec![("content-type".to_string(), "text/html; charset=utf-8".to_string())]
}

fn texts(values: &Vec<SqlValue>) -> Vec<String> {
    values
        .iter()
        .map(|v| match v {
            SqlValue::Text(t) => t.clone(),
            SqlValue::Integer(n) => n.to_string(),
            SqlValue::Null => "NULL".to_string(),
        })
        .collect()
}

#[test]
fn dashboard_page() {
    let r = admin_dashboard();
    assert!(is_html(&r, 200));
    assert_eq!(
        r.body,
        "\
    <!DOCTYPE html>\
    <html lang=\"en\">\
    <head>\
        <meta charset=\"UTF-8\">\
        <meta name=\"viewport\" content=\"width=device-width, initial-scale=1.0\">\
        <title>Comment Moderation</title>\
        <script src=\"https://cdn.tailwindcss.com\"></script>\
        <script src=\"https://unpkg.com/htmx.org@1.9.12\"></script>\
    </head>\
    <body class=\"bg-neutral-950 text-neutral-100 min-h-screen font-sans p-6\">\
        <!-- 🌟 CHANGED: max-w-6xl is now max-w-7xl below -->\
        <div class=\"max-w-7xl mx-auto space-y-6\">\
            <header class=\"flex items-center justify-between border-b border-neutral-800 pb-4\">\
                <div>\
                    <h1 class=\"text-2xl font-bold text-emerald-400\">Comment Moderation</h1>\
                    <p class=\"text-xs text-neutral-400 mt-1\">Review, approve, and purge blog comments</p>\
                </div>\
                <div class=\"flex gap-2\">\
                    <button hx-get=\"/admin/api/comments\" hx-target=\"#comment-table-body\" class=\"px-3 py-1.5 bg-neutral-800 hover:bg-neutral-700 text-xs font-semibold rounded-lg transition-colors\">Refresh</button>\
                    <a href=\"/admin/logout\" class=\"px-3 py-1.5 bg-rose-950 hover:bg-rose-900 text-rose-300 border border-rose-800 text-xs font-semibold rounded-lg transition-colors\">Logout</a>\
                </div>\
            </header>\
            <div class=\"bg-neutral-900 border border-neutral-800 rounded-xl overflow-hidden shadow-lg\">\
                <div class=\"overflow-x-auto\">\
                    <table class=\"w-full text-left text-sm\">\
                        <thead class=\"bg-neutral-800/60 text-xs uppercase text-neutral-400 border-b border-neutral-800\">\
                            <tr>\
                                <th class=\"px-4 py-3\">Status</th>\
                                <th class=\"px-4 py-3\">Post Slug</th>\
                                <th class=\"px-4 py-3\">Author</th>\
                                <th class=\"px-4 py-3\">Comment</th>\
                                <th class=\"px-4 py-3\">Date</th>\
                                <th class=\"px-4 py-3 text-right\">Actions</th>\
                            </tr>\
                        </thead>\
                        <tbody id=\"comment-table-body\" hx-get=\"/admin/api/comments\" hx-trigger=\"load\" class=\"divide-y divide-neutral-800\">\
                            <tr>\
                                <td colspan=\"6\" class=\"p-6 text-center text-neutral-500 animate-pulse\">Loading comments...</td>\
                            </tr>\
                        </tbody>\
                    </table>\
                </div>\
            </div>\
        </div>\
    </body>\
    </html>\
    "
    );
}

#[test]
fn table_of_nothing() {
    let expected = "<tr><td colspan=\"6\" class=\"p-6 text-center text-neutral-500\">No comments found.</td></tr>";
    let empty = list_admin_comments(Some(Vec::new()));
    assert!(is_html(&empty, 200));
    assert_eq!(empty.body, expected);
    let failed = list_admin_comments(None);
    assert!(is_html(&failed, 200));
    assert_eq!(failed.body, expected);
}

#[test]
fn table_keeps_the_order() {
    let r = list_admin_comments(Some(vec![comment("b"), comment("a")]));
    assert!(is_html(&r, 200));
    let expected = format!("{}{}", render_admin_row(&comment("b")), render_admin_row(&comment("a")));
    assert_eq!(r.body, expected);
}

#[test]
fn latest_comments_statement() {
    let s = list_admin_comments_statement();
    assert_eq!(s.sql, "SELECT id, post_slug, author_name, author_email, content, is_approved, created_at, parent_id FROM comments ORDER BY created_at DESC LIMIT 100");
    assert_eq!(s.values.len(), 0);
}

#[test]
fn toggle_statements_in_order() {
    let (update, select) = toggle_approve_comment_statements("x1");
    assert_eq!(update.sql, "UPDATE comments SET is_approved = NOT is_approved WHERE id = ?");
    assert_eq!(texts(&update.values), vec!["x1"]);
    assert_eq!(select.sql, "SELECT id, post_slug, author_name, author_email, content, is_approved, created_at, parent_id FROM comments WHERE id = ?");
    assert_eq!(texts(&select.values), vec!["x1"]);
}

#[test]
fn toggle_answers_with_the_row() {
    let r = toggle_approve_comment(Some(comment("x1")));
    assert!(is_html(&r, 200));
    assert_eq!(r.body, render_admin_row(&comment("x1")));
    assert_eq!(r.body, list_admin_comments(Some(vec![comment("x1")])).body);
}

#[test]
fn toggle_of_a_missing_comment_answers_with_nothing() {
    let r = toggle_approve_comment(None);
    assert!(is_html(&r, 200));
    assert_eq!(r.body, "");
}

#[test]
fn delete_answers_with_nothing() {
    let s = delete_comment_statement("x2");
    assert_eq!(s.sql, "DELETE FROM comments WHERE id = ?");
    assert_eq!(texts(&s.values), vec!["x2"]);
    let r = delete_comment();
    assert!(is_html(&r, 200));
    assert_eq!(r.body, "");
}

#[test]
fn style_sheet() {
    let r = serve_css();
    assert_eq!(r.status, 200);
    assert_eq!(
        r.headers,
        vec![("content-type".to_string(), "text/css; charset=utf-8".to_string())]
    );
    assert!(r.body.starts_with("\n    /* 🌟 Base Variables (Light Mode) */\n    :root {\n"));
    assert!(r.body.ends_with("    .mr-form-slot { margin-top: 1rem; }\n    "));
    assert_eq!(r.body.len(), 5209);
}

#[test]
fn script() {
    let r = serve_js();
    assert_eq!(r.status, 200);
    assert_eq!(
        r.headers,
        vec![(
            "content-type".to_string(),
            "application/javascript; charset=utf-8".to_string()
        )]
    );
    assert!(r.body.starts_with("\n(function() {\n    const scriptTag = document.currentScript;\n"));
    assert!(r.body.ends_with("    fetchComments();\n})();\n    "));
}
