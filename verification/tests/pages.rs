use markreply::models::Comment;
use markreply::pages::{
    comment_item_html, render_admin_row, render_comment_item, render_login_page,
};
use markreply::time::{Civil, Timestamp};

fn at(year: i32, month: u32, day: u32, hour: u32, minute: u32) -> Timestamp {
    Timestamp::new(Civil { year, month, day, hour, minute, second: 9, nanosecond: 0 }).unwrap()
}

fn comment(id: &str, email: Option<&str>, parent: Option<&str>, approved: bool) -> Comment {
    Comment {
        id: id.to_string(),
        post_slug: "hello-world".to_string(),
        author_name: "Jane Doe".to_string(),
        author_email: email.map(|e| e.to_string()),
        content: "Some *text*".to_string(),
        is_approved: approved,
        created_at: at(2024, 3, 5, 14, 7),
        parent_id: parent.map(|p| p.to_string()),
    }
}

fn expected_item(
    wrapper_class: &str,
    name: &str,
    badge: &str,
    date: &str,
    content: &str,
    reply_btn: &str,
    id: &str,
) -> String {
    format!(
        "<div class=\"{wrapper_class}\">\
            <div class=\"comment-header\">\
                <div>\
                    <span class=\"comment-author\">{name}</span>\
                    {badge}\
                </div>\
                <span class=\"comment-date\">{date}</span>\
            </div>\
            <div class=\"comment-content\">{content}</div>\
            {reply_btn}\
            <div id=\"mr-slot-{id}\" class=\"mr-form-slot\"></div>\
        </div>"
    )
}

fn expected_row(
    id: &str,
    badge: &str,
    type_badge: &str,
    slug: &str,
    author: &str,
    email: &str,
    content: &str,
    date: &str,
    toggle: &str,
) -> String {
    format!(
        "<tr id=\"comment-row-{id}\" class=\"hover:bg-neutral-800/40 transition-colors\">\
            <td class=\"px-4 py-3 whitespace-nowrap\">\
                <div class=\"flex items-center gap-2\">\
                    {badge}\
                    {type_badge}\
                </div>\
            </td>\
            <td class=\"px-4 py-3 font-mono text-xs text-neutral-300 max-w-[12rem] truncate\" title=\"{slug}\">{slug}</td>\
            <td class=\"px-4 py-3 max-w-[12rem]\">\
                <div class=\"font-bold text-neutral-200 truncate\" title=\"{author}\">{author}</div>\
                <div class=\"text-xs text-neutral-500 truncate\" title=\"{email}\">{email}</div>\
            </td>\
            <!-- 🌟 FIX: Replaced 'truncate' with 'line-clamp-2' and 'whitespace-normal' in a wrapper div -->\
            <td class=\"px-4 py-3 text-neutral-300 max-w-xs xl:max-w-md\">\
                <div class=\"line-clamp-2 whitespace-normal break-words\">{content}</div>\
            </td>\
            <td class=\"px-4 py-3 text-xs text-neutral-400 whitespace-nowrap\">{date}</td>\
            <td class=\"px-4 py-3 text-right space-x-2 whitespace-nowrap\">\
                <button hx-post=\"/admin/api/comments/{id}/toggle\" hx-target=\"#comment-row-{id}\" hx-swap=\"outerHTML\" class=\"px-2.5 py-1 text-xs font-semibold bg-neutral-800 hover:bg-neutral-700 text-neutral-200 rounded border border-neutral-700 transition-colors\">{toggle}</button>\
                <button hx-delete=\"/admin/api/comments/{id}\" hx-target=\"#comment-row-{id}\" hx-swap=\"outerHTML\" hx-confirm=\"Are you sure you want to permanently delete this comment?\" class=\"px-2.5 py-1 text-xs font-semibold bg-rose-950 hover:bg-rose-900 text-rose-300 rounded border border-rose-800 transition-colors\">Delete</button>\
            </td>\
        </tr>"
    )
}

fn expected_login(error_html: &str) -> String {
    format!(
        "\
    <!DOCTYPE html>\
    <html lang=\"en\">\
    <head>\
        <meta charset=\"UTF-8\">\
        <meta name=\"viewport\" content=\"width=device-width, initial-scale=1.0\">\
        <title>Admin Login</title>\
        <script src=\"https://cdn.tailwindcss.com\"></script>\
    </head>\
    <body class=\"bg-neutral-950 text-neutral-100 min-h-screen flex items-center justify-center font-sans p-6\">\
        <div class=\"bg-neutral-900 border border-neutral-800 p-8 rounded-xl shadow-lg w-full max-w-md\">\
            <h1 class=\"text-2xl font-bold text-emerald-400 mb-6\">Admin Login</h1>\
            {error_html}\
            <form method=\"POST\" action=\"/admin/login\" class=\"space-y-4\">\
                <div>\
                    <label class=\"block text-xs font-semibold mb-1 text-neutral-400\">Authentication Token</label>\
                    <input type=\"password\" name=\"token\" required class=\"w-full px-3.5 py-2 bg-neutral-950 border border-neutral-800 rounded-lg text-sm outline-none focus:ring-2 focus:ring-emerald-500 text-white\" />\
                </div>\
                <button type=\"submit\" class=\"w-full px-5 py-2.5 bg-emerald-600 hover:bg-emerald-500 text-white font-bold rounded-lg text-sm transition-colors shadow-sm\">\
                    Secure Login\
                </button>\
            </form>\
        </div>\
    </body>\
    </html>\
    "
    )
}

const APPROVED: &str = "<span class=\"inline-flex items-center px-2 py-0.5 rounded-full text-xs font-semibold bg-emerald-950 text-emerald-400 border border-emerald-800\">Approved</span>";
const PENDING: &str = "<span class=\"inline-flex items-center px-2 py-0.5 rounded-full text-xs font-semibold bg-amber-950 text-amber-400 border border-amber-800\">Pending</span>";
const REPLY: &str = "<span class=\"inline-flex items-center px-2 py-0.5 rounded-full text-xs font-semibold bg-indigo-950 text-indigo-400 border border-indigo-800\">Reply</span>";
const TOP: &str = "<span class=\"inline-flex items-center px-2 py-0.5 rounded-full text-xs font-semibold bg-slate-800 text-slate-400 border border-slate-700\">Top-Level</span>";

#[test]
fn top_level_comment_has_a_reply_button() {
    let c = comment("c1", None, None, true);
    assert_eq!(
        comment_item_html(&c, "<p>x</p>", false, Some("admin@example.com")),
        expected_item(
            "comment-item",
            "Jane Doe",
            "",
            "Mar 05, 2024 at 14:07",
            "<p>x</p>",
            "<button type=\"button\" class=\"mr-reply-btn\" onclick=\"window.mrReplyTo('c1')\">↳ Reply</button>",
            "c1",
        )
    );
}

#[test]
fn reply_has_no_reply_button() {
    let c = comment("c2", Some("  ADMIN@example.com "), Some("c1"), true);
    assert_eq!(
        comment_item_html(&c, "", true, Some("admin@example.com")),
        expected_item(
            "comment-item comment-reply",
            "Jane Doe",
            "<span class=\"mr-admin-badge\">Admin</span>",
            "Mar 05, 2024 at 14:07",
            "",
            "",
            "c2",
        )
    );
}

#[test]
fn content_is_markdown_and_is_cleaned() {
    let mut c = comment("c3", None, None, true);
    c.content = "Some *text* <script>alert(1)</script>".to_string();
    let shown = render_comment_item(&c, false, None);
    assert!(shown.contains("<div class=\"comment-content\"><p>Some <em>text</em> </p>\n</div>"));
    assert!(!shown.contains("script"));
}

#[test]
fn row_of_an_approved_top_level_comment() {
    let c = comment("c1", Some("jane@example.com"), None, true);
    assert_eq!(
        render_admin_row(&c),
        expected_row(
            "c1",
            APPROVED,
            TOP,
            "hello-world",
            "Jane Doe",
            "jane@example.com",
            "Some *text*",
            "2024-03-05 14:07",
            "Unapprove",
        )
    );
}

#[test]
fn row_of_a_pending_reply_without_address() {
    let c = comment("c9", None, Some("c1"), false);
    assert_eq!(
        render_admin_row(&c),
        expected_row(
            "c9",
            PENDING,
            REPLY,
            "hello-world",
            "Jane Doe",
            "-",
            "Some *text*",
            "2024-03-05 14:07",
            "Approve",
        )
    );
}

#[test]
fn login_page_without_error() {
    assert_eq!(render_login_page(None), expected_login(""));
}

#[test]
fn login_page_with_error() {
    assert_eq!(
        render_login_page(Some("No.")),
        expected_login("<div class=\"p-3 mb-4 rounded bg-rose-950/50 border border-rose-900 text-rose-400 text-sm\">No.</div>")
    );
}
