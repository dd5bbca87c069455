//! The fixed parts of the pages.

use vstd::prelude::*;

verus! {

/// The start of a comment.
pub const ITEM_OPEN: &'static str = "<div class=\"";

/// From the class of a comment to its author.
pub const ITEM_AUTHOR: &'static str = "\"><div class=\"comment-header\"><div><span class=\"comment-author\">";

/// After the author's name.
pub const ITEM_BADGE: &'static str = "</span>";

/// From the badge to the date.
pub const ITEM_DATE: &'static str = "</div><span class=\"comment-date\">";

/// From the date to the content.
pub const ITEM_CONTENT: &'static str = "</span></div><div class=\"comment-content\">";

/// After the content.
pub const ITEM_REPLY: &'static str = "</div>";

/// From the reply button to the slot for a reply form.
pub const ITEM_SLOT: &'static str = "<div id=\"mr-slot-";

/// The end of a comment.
pub const ITEM_CLOSE: &'static str = "\" class=\"mr-form-slot\"></div></div>";

/// The start of a table row.
pub const ROW_OPEN: &'static str = "<tr id=\"comment-row-";

/// From the id of a row to its badges.
pub const ROW_STATUS: &'static str = "\" class=\"hover:bg-neutral-800/40 transition-colors\">\
    <td class=\"px-4 py-3 whitespace-nowrap\"><div class=\"flex items-center gap-2\">";

/// From the badges to the title of the slug.
pub const ROW_SLUG: &'static str = "</div></td>\
    <td class=\"px-4 py-3 font-mono text-xs text-neutral-300 max-w-[12rem] truncate\" title=\"";

/// The end of a title.
pub const ROW_TITLE_END: &'static str = "\">";

/// From the slug to the title of the author.
pub const ROW_AUTHOR: &'static str = "</td><td class=\"px-4 py-3 max-w-[12rem]\">\
    <div class=\"font-bold text-neutral-200 truncate\" title=\"";

/// From the author to the title of the address.
pub const ROW_EMAIL: &'static str = "</div><div class=\"text-xs text-neutral-500 truncate\" title=\"";

/// From the address to the content.
pub const ROW_CONTENT: &'static str = "</div></td>\
    <!-- 🌟 FIX: Replaced 'truncate' with 'line-clamp-2' and 'whitespace-normal' in a wrapper div -->\
    <td class=\"px-4 py-3 text-neutral-300 max-w-xs xl:max-w-md\">\
    <div class=\"line-clamp-2 whitespace-normal break-words\">";

/// From the content to the date.
pub const ROW_DATE: &'static str = "</div></td><td class=\"px-4 py-3 text-xs text-neutral-400 whitespace-nowrap\">";

/// From the date to the id in the address that approves or hides.
pub const ROW_TOGGLE: &'static str = "</td><td class=\"px-4 py-3 text-right space-x-2 whitespace-nowrap\">\
    <button hx-post=\"/admin/api/comments/";

/// From there to the id of the row that changes.
pub const ROW_TOGGLE_TARGET: &'static str = "/toggle\" hx-target=\"#comment-row-";

/// From there to the label of the button.
pub const ROW_TOGGLE_LABEL: &'static str = "\" hx-swap=\"outerHTML\" class=\"px-2.5 py-1 text-xs font-semibold bg-neutral-800 hover:bg-neutral-700 text-neutral-200 rounded border border-neutral-700 transition-colors\">";

/// From the label to the id in the address that deletes.
pub const ROW_DELETE: &'static str = "</button><button hx-delete=\"/admin/api/comments/";

/// From there to the id of the row that goes.
pub const ROW_DELETE_TARGET: &'static str = "\" hx-target=\"#comment-row-";

/// The end of a table row.
pub const ROW_CLOSE: &'static str = "\" hx-swap=\"outerHTML\" hx-confirm=\"Are you sure you want to permanently delete this comment?\" class=\"px-2.5 py-1 text-xs font-semibold bg-rose-950 hover:bg-rose-900 text-rose-300 rounded border border-rose-800 transition-colors\">Delete</button>\
    </td></tr>";

/// The badge of an approved comment.
pub const APPROVED_BADGE: &'static str = "<span class=\"inline-flex items-center px-2 py-0.5 rounded-full text-xs font-semibold bg-emerald-950 text-emerald-400 border border-emerald-800\">Approved</span>";

/// The badge of a comment that awaits approval.
pub const PENDING_BADGE: &'static str = "<span class=\"inline-flex items-center px-2 py-0.5 rounded-full text-xs font-semibold bg-amber-950 text-amber-400 border border-amber-800\">Pending</span>";

/// The badge of a reply.
pub const REPLY_BADGE: &'static str = "<span class=\"inline-flex items-center px-2 py-0.5 rounded-full text-xs font-semibold bg-indigo-950 text-indigo-400 border border-indigo-800\">Reply</span>";

/// The badge of a top-level comment.
pub const TOP_LEVEL_BADGE: &'static str = "<span class=\"inline-flex items-center px-2 py-0.5 rounded-full text-xs font-semibold bg-slate-800 text-slate-400 border border-slate-700\">Top-Level</span>";

/// The badge of the administrator's comments.
pub const ADMIN_BADGE: &'static str = "<span class=\"mr-admin-badge\">Admin</span>";

/// The start of the button that answers a comment.
pub const REPLY_BUTTON_OPEN: &'static str = "<button type=\"button\" class=\"mr-reply-btn\" onclick=\"window.mrReplyTo('";

/// The end of the button that answers a comment.
pub const REPLY_BUTTON_CLOSE: &'static str = "')\">↳ Reply</button>";

/// The start of the error message of the login page.
pub const LOGIN_ERROR_OPEN: &'static str = "<div class=\"p-3 mb-4 rounded bg-rose-950/50 border border-rose-900 text-rose-400 text-sm\">";

/// The end of the error message of the login page.
pub const LOGIN_ERROR_CLOSE: &'static str = "</div>";

/// The login page up to the error message.
pub const LOGIN_OPEN: &'static str = "<!DOCTYPE html><html lang=\"en\"><head><meta charset=\"UTF-8\">\
    <meta name=\"viewport\" content=\"width=device-width, initial-scale=1.0\">\
    <title>Admin Login</title><script src=\"https://cdn.tailwindcss.com\"></script>\
    </head>\
    <body class=\"bg-neutral-950 text-neutral-100 min-h-screen flex items-center justify-center font-sans p-6\">\
    <div class=\"bg-neutral-900 border border-neutral-800 p-8 rounded-xl shadow-lg w-full max-w-md\">\
    <h1 class=\"text-2xl font-bold text-emerald-400 mb-6\">Admin Login</h1>";

/// The login page after the error message.
pub const LOGIN_CLOSE: &'static str = "<form method=\"POST\" action=\"/admin/login\" class=\"space-y-4\"><div>\
    <label class=\"block text-xs font-semibold mb-1 text-neutral-400\">Authentication Token</label>\
    <input type=\"password\" name=\"token\" required class=\"w-full px-3.5 py-2 bg-neutral-950 border border-neutral-800 rounded-lg text-sm outline-none focus:ring-2 focus:ring-emerald-500 text-white\" />\
    </div>\
    <button type=\"submit\" class=\"w-full px-5 py-2.5 bg-emerald-600 hover:bg-emerald-500 text-white font-bold rounded-lg text-sm transition-colors shadow-sm\">Secure Login</button>\
    </form></div></body></html>";

/// The moderation page.
pub const DASHBOARD: &'static str = "<!DOCTYPE html><html lang=\"en\"><head><meta charset=\"UTF-8\">\
    <meta name=\"viewport\" content=\"width=device-width, initial-scale=1.0\">\
    <title>Comment Moderation</title><script src=\"https://cdn.tailwindcss.com\">\
    </script><script src=\"https://unpkg.com/htmx.org@1.9.12\"></script></head>\
    <body class=\"bg-neutral-950 text-neutral-100 min-h-screen font-sans p-6\">\
    <!-- 🌟 CHANGED: max-w-6xl is now max-w-7xl below -->\
    <div class=\"max-w-7xl mx-auto space-y-6\">\
    <header class=\"flex items-center justify-between border-b border-neutral-800 pb-4\">\
    <div><h1 class=\"text-2xl font-bold text-emerald-400\">Comment Moderation</h1>\
    <p class=\"text-xs text-neutral-400 mt-1\">Review, approve, and purge blog comments</p>\
    </div><div class=\"flex gap-2\">\
    <button hx-get=\"/admin/api/comments\" hx-target=\"#comment-table-body\" class=\"px-3 py-1.5 bg-neutral-800 hover:bg-neutral-700 text-xs font-semibold rounded-lg transition-colors\">Refresh</button>\
    <a href=\"/admin/logout\" class=\"px-3 py-1.5 bg-rose-950 hover:bg-rose-900 text-rose-300 border border-rose-800 text-xs font-semibold rounded-lg transition-colors\">Logout</a>\
    </div></header>\
    <div class=\"bg-neutral-900 border border-neutral-800 rounded-xl overflow-hidden shadow-lg\">\
    <div class=\"overflow-x-auto\"><table class=\"w-full text-left text-sm\">\
    <thead class=\"bg-neutral-800/60 text-xs uppercase text-neutral-400 border-b border-neutral-800\">\
    <tr><th class=\"px-4 py-3\">Status</th><th class=\"px-4 py-3\">Post Slug</th>\
    <th class=\"px-4 py-3\">Author</th><th class=\"px-4 py-3\">Comment</th>\
    <th class=\"px-4 py-3\">Date</th><th class=\"px-4 py-3 text-right\">Actions</th>\
    </tr></thead>\
    <tbody id=\"comment-table-body\" hx-get=\"/admin/api/comments\" hx-trigger=\"load\" class=\"divide-y divide-neutral-800\">\
    <tr>\
    <td colspan=\"6\" class=\"p-6 text-center text-neutral-500 animate-pulse\">Loading comments...</td>\
    </tr></tbody></table></div></div></div></body></html>";

} // verus!
