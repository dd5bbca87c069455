//! The style sheet and the script that a page embeds.

use vstd::prelude::*;

verus! {

/// The style sheet of the comment widget.
pub const WIDGET_CSS: &'static str = r###"
    /* 🌟 Base Variables (Light Mode) */
    :root {
        --mr-primary: #059669;
        --mr-bg: #ffffff;
        --mr-input-bg: #f9fafb;
        --mr-border: #e5e7eb;
        --mr-text: #171717;
        --mr-muted: #737373;
    }

    @media (prefers-color-scheme: dark) {
        :root:not(.light) {
            --mr-bg: #171717;
            --mr-input-bg: #262626;
            --mr-border: #404040;
            --mr-text: #f5f5f5;
            --mr-muted: #a3a3a3;
        }
    }

    html.dark, .dark {
        --mr-bg: #171717;
        --mr-input-bg: #262626;
        --mr-border: #404040;
        --mr-text: #f5f5f5;
        --mr-muted: #a3a3a3;
    }

    /* 🌟 THE FIX: This stops inputs from overlapping their grid! */
    .mr-container, .mr-container * {
        box-sizing: border-box;
    }

    /* Widget Styles */
    .mr-container { font-family: system-ui, sans-serif; color: var(--mr-text); margin-top: 3rem; padding-top: 2rem; border-top: 1px solid var(--mr-border); }
    .mr-title { font-size: 1.5rem; font-weight: bold; margin-bottom: 1.5rem; color: var(--mr-text); }

    .mr-input {
        width: 100%;
        padding: 0.5rem 0.75rem;
        border: 1px solid var(--mr-border);
        border-radius: 0.5rem;
        background: var(--mr-input-bg);
        color: var(--mr-text);
        margin-top: 0.25rem;
        font-family: inherit;
        transition: border-color 0.2s, box-shadow 0.2s;
    }
    .mr-input::placeholder { color: var(--mr-muted); opacity: 0.7; }
    .mr-input:focus { outline: none; border-color: var(--mr-primary); box-shadow: 0 0 0 2px rgba(5, 150, 105, 0.2); }

    .mr-label { font-size: 0.75rem; font-weight: 600; color: var(--mr-text); }

    .mr-btn { background: var(--mr-primary); color: white; padding: 0.5rem 1.25rem; border-radius: 0.5rem; border: none; font-weight: bold; cursor: pointer; transition: opacity 0.2s; }
    .mr-btn:hover { opacity: 0.9; }

    .mr-grid { display: grid; grid-template-columns: 1fr; gap: 1rem; margin-bottom: 1rem; }
    @media (min-width: 640px) { .mr-grid { grid-template-columns: 1fr 1fr; } }

    /* 🌟 Markdown & Admin Badge Styles */
    .mr-admin-badge { background: var(--mr-primary); color: white; padding: 0.1rem 0.4rem; border-radius: 0.25rem; font-size: 0.65rem; margin-left: 0.5rem; vertical-align: middle; text-transform: uppercase; letter-spacing: 0.05em; }
    
    .comment-content p { margin-top: 0; margin-bottom: 0.75rem; line-height: 1.6; }
    .comment-content p:last-child { margin-bottom: 0; }
    .comment-content strong { font-weight: 700; color: var(--mr-text); }
    .comment-content em { font-style: italic; }
    .comment-content del { text-decoration: line-through; opacity: 0.7; }
    
    /* Links */
    .comment-content a { color: var(--mr-primary); text-decoration: underline; text-underline-offset: 2px; }
    .comment-content a:hover { opacity: 0.8; }
    
    /* Blockquotes */
    .comment-content blockquote { border-left: 3px solid var(--mr-border); margin: 0.75rem 0; padding-left: 1rem; color: var(--mr-muted); font-style: italic; background: rgba(0,0,0,0.02); padding-top: 0.25rem; padding-bottom: 0.25rem; }
    
    /* Lists */
    .comment-content ul, .comment-content ol { margin-top: 0.5rem; margin-bottom: 0.75rem; padding-left: 1.5rem; }
    .comment-content ul { list-style-type: disc; }
    .comment-content ol { list-style-type: decimal; }
    .comment-content li { margin-bottom: 0.25rem; }
    
    /* Code Blocks */
    .comment-content code { background: var(--mr-input-bg); padding: 0.1rem 0.3rem; border-radius: 0.25rem; font-family: ui-monospace, SFMono-Regular, Menlo, Monaco, Consolas, monospace; font-size: 0.85em; border: 1px solid var(--mr-border); }
    .comment-content pre { background: var(--mr-input-bg); padding: 0.75rem; border-radius: 0.5rem; overflow-x: auto; margin: 0.75rem 0; border: 1px solid var(--mr-border); }
    .comment-content pre code { background: transparent; padding: 0; border: none; font-size: 0.85em; }

    .comment-item { padding: 1rem; background: var(--mr-bg); border: 1px solid var(--mr-border); border-radius: 0.5rem; margin-bottom: 1rem; color: var(--mr-text); }
    .comment-header { display: flex; justify-content: space-between; margin-bottom: 0.5rem; }
    .comment-author { font-weight: bold; color: var(--mr-text); }
    .comment-date { font-size: 0.75rem; color: var(--mr-muted); }
    .comment-content { font-size: 0.875rem; line-height: 1.5; color: var(--mr-text); }

    .comment-success-msg { padding: 1rem; background-color: rgba(5, 150, 105, 0.1); border: 1px solid rgba(5, 150, 105, 0.3); color: var(--mr-primary); border-radius: 0.5rem; font-size: 0.875rem; font-weight: 500; }

    /* Threading */
    .comment-reply { margin-left: 2rem; border-left: 3px solid var(--mr-border); padding-left: 1rem; border-radius: 0; border-top: none; border-right: none; border-bottom: none; background: transparent; }
    .mr-reply-btn { background: none; border: none; color: var(--mr-muted); font-size: 0.75rem; font-weight: 600; cursor: pointer; padding: 0; margin-top: 0.5rem; transition: color 0.2s; }
    .mr-reply-btn:hover { color: var(--mr-primary); }
    .mr-form-slot { margin-top: 1rem; }
    "###;

/// The script of the comment widget.
pub const WIDGET_JS: &'static str = r###"
(function() {
    const scriptTag = document.currentScript;
    const backendOrigin = new URL(scriptTag ? scriptTag.src : window.location.href).origin;

    const container = document.getElementById("markreply-comments");
    if (!container) return;

    const postSlug = container.getAttribute("data-slug") || window.location.pathname;

    if (!document.querySelector(`link[href="${backendOrigin}/widget.css"]`)) {
        const link = document.createElement("link");
        link.rel = "stylesheet";
        link.href = `${backendOrigin}/widget.css`;
        document.head.appendChild(link);
    }

    container.innerHTML = `
        <div class="mr-container">
            <h3 class="mr-title">Discussion</h3>

            <!-- 🌟 MOVED: The Master Slot (Form) is now ABOVE the comments list -->
            <div id="mr-master-slot" style="margin-bottom: 2rem;">
                <form id="mr-form" style="max-width: 36rem;">
                    <input type="hidden" id="mr-slug" value="${postSlug}">
                    <input type="hidden" id="mr-parent-id" value="">
                    <input type="text" id="mr-honeypot" name="honeypot" style="opacity: 0; position: absolute; top: 0; left: -9999px; z-index: -1;" tabindex="-1" autocomplete="off">

                    <div id="mr-replying-to" style="display: none; font-size: 0.75rem; color: var(--mr-primary); font-weight: 600; margin-bottom: 1rem;">
                        Replying to comment... <button type="button" id="mr-cancel-reply" style="background:none;border:none;color:var(--mr-muted);cursor:pointer;text-decoration:underline;">Cancel</button>
                    </div>

                    <div class="mr-grid">
                        <div>
                            <!-- 🌟 INCLUDED: Updated labels for theme compatibility -->
                            <label class="mr-label">Name *</label>
                            <input type="text" id="mr-name" required class="mr-input" placeholder="Jane Doe">
                        </div>
                        <div>
                            <label class="mr-label">Email (Optional)</label>
                            <input type="email" id="mr-email" class="mr-input" placeholder="jane@example.com">
                        </div>
                    </div>
                    <div style="margin-bottom: 1rem;">
                        <label class="mr-label">Comment *</label>
                        <textarea id="mr-content" rows="2" required class="mr-input" placeholder="Write a comment..." style="resize: vertical; min-height: 60px; max-height: 250px;"></textarea>
                    </div>
                    <!-- 🌟 FIX: Wrapped in a flex container to push the button right -->
                    <div style="display: flex; justify-content: space-between; align-items: center; margin-top: 0.5rem;">
                        <div id="mr-status"></div>
                        <button type="submit" class="mr-btn" id="mr-submit">Post Comment</button>
                    </div>
                </form>
            </div>

            <!-- 🌟 MOVED: The Comments List is now BELOW the form -->
            <div id="mr-list">
                <p style="color: var(--mr-muted); font-size: 0.875rem;">Loading comments...</p>
            </div>
        </div>
    `;

    const listEl = document.getElementById("mr-list");
    const formEl = document.getElementById("mr-form");
    const statusEl = document.getElementById("mr-status");
    const masterSlot = document.getElementById("mr-master-slot");
    const parentInput = document.getElementById("mr-parent-id");
    const replyIndicator = document.getElementById("mr-replying-to");

    window.mrReplyTo = function(commentId) {
        parentInput.value = commentId;
        replyIndicator.style.display = "block";
        const slot = document.getElementById(`mr-slot-${commentId}`);
        if (slot) slot.appendChild(formEl);
        document.getElementById("mr-content").focus();
    };

    document.getElementById("mr-cancel-reply").addEventListener("click", () => {
        parentInput.value = "";
        replyIndicator.style.display = "none";
        masterSlot.appendChild(formEl);
    });

    async function fetchComments() {
        try {
            const res = await fetch(`${backendOrigin}/api/comments?slug=${encodeURIComponent(postSlug)}`);
            listEl.innerHTML = await res.text();
        } catch (err) {
            listEl.innerHTML = '<p>Could not load comments.</p>';
        }
    }

    formEl.addEventListener("submit", async (e) => {
        e.preventDefault();
        document.getElementById("mr-submit").disabled = true;

        const formData = new URLSearchParams();
        formData.append("post_slug", postSlug);
        formData.append("author_name", document.getElementById("mr-name").value);
        formData.append("author_email", document.getElementById("mr-email").value);
        formData.append("content", document.getElementById("mr-content").value);
        formData.append("honeypot", document.getElementById("mr-honeypot").value);

        if (parentInput.value) {
            formData.append("parent_id", parentInput.value);
        }

        try {
            const res = await fetch(`${backendOrigin}/api/comments`, { method: "POST", body: formData });
            statusEl.innerHTML = await res.text();
            if (res.ok) {
                formEl.reset();
                parentInput.value = "";
                replyIndicator.style.display = "none";
                masterSlot.appendChild(formEl);

                fetchComments();
            }
        } finally {
            document.getElementById("mr-submit").disabled = false;
        }
    });

    fetchComments();
})();
    "###;

} // verus!
