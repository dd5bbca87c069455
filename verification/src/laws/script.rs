//! What the script of the widget and the service agree on.

use crate::assets::WIDGET_JS;
use crate::reply::Response;
use crate::text::{occurs, occurs_at};
use crate::widget::serve_js;
use vstd::prelude::*;

verus! {

/// The script fetches the comments of its page by the slug, sends a comment with
/// every field that the service reads from a form, each under its name, and has
/// the function that the button of a comment calls, which moves the form to the
/// slot of that comment.
pub proof fn law_script_speaks_the_language_of_the_service(r: Response)
    requires
        call_ensures(serve_js, (), r),
    ensures
        occurs(
            "document.getElementById(\"markreply-comments\")"@,
            r.body@,
        ),
        occurs(
            "container.getAttribute(\"data-slug\") || window.location.pathname;"@,
            r.body@,
        ),
        occurs(
            "link.href = `${backendOrigin}/widget.css`;"@,
            r.body@,
        ),
        occurs(
            "window.mrReplyTo = function(commentId) {\n        parentInput.value = commentId;"@,
            r.body@,
        ),
        occurs(
            "document.getElementById(`mr-slot-${commentId}`);\n        if (slot) slot.appendChild(formEl);"@,
            r.body@,
        ),
        occurs(
            "fetch(`${backendOrigin}/api/comments?slug=${encodeURIComponent(postSlug)}`);\n            listEl.innerHTML = await res.text();"@,
            r.body@,
        ),
        occurs(
            "formData.append(\"post_slug\", postSlug);"@,
            r.body@,
        ),
        occurs(
            "formData.append(\"author_name\", document.getElementById(\"mr-name\").value);"@,
            r.body@,
        ),
        occurs(
            "formData.append(\"author_email\", document.getElementById(\"mr-email\").value);"@,
            r.body@,
        ),
        occurs(
            "formData.append(\"content\", document.getElementById(\"mr-content\").value);"@,
            r.body@,
        ),
        occurs(
            "formData.append(\"honeypot\", document.getElementById(\"mr-honeypot\").value);"@,
            r.body@,
        ),
        occurs(
            "if (parentInput.value) {\n            formData.append(\"parent_id\", parentInput.value);\n        }"@,
            r.body@,
        ),
        occurs(
            "fetch(`${backendOrigin}/api/comments`, { method: \"POST\", body: formData });\n            statusEl.innerHTML = await res.text();"@,
            r.body@,
        ),
{
    lemma_script();
}

#[verifier::rlimit(100)]
#[verifier::spinoff_prover]
proof fn lemma_script()
    ensures
        occurs(
            "document.getElementById(\"markreply-comments\")"@,
            WIDGET_JS@,
        ),
        occurs(
            "container.getAttribute(\"data-slug\") || window.location.pathname;"@,
            WIDGET_JS@,
        ),
        occurs(
            "link.href = `${backendOrigin}/widget.css`;"@,
            WIDGET_JS@,
        ),
        occurs(
            "window.mrReplyTo = function(commentId) {\n        parentInput.value = commentId;"@,
            WIDGET_JS@,
        ),
        occurs(
            "document.getElementById(`mr-slot-${commentId}`);\n        if (slot) slot.appendChild(formEl);"@,
            WIDGET_JS@,
        ),
        occurs(
            "fetch(`${backendOrigin}/api/comments?slug=${encodeURIComponent(postSlug)}`);\n            listEl.innerHTML = await res.text();"@,
            WIDGET_JS@,
        ),
        occurs(
            "formData.append(\"post_slug\", postSlug);"@,
            WIDGET_JS@,
        ),
        occurs(
            "formData.append(\"author_name\", document.getElementById(\"mr-name\").value);"@,
            WIDGET_JS@,
        ),
        occurs(
            "formData.append(\"author_email\", document.getElementById(\"mr-email\").value);"@,
            WIDGET_JS@,
        ),
        occurs(
            "formData.append(\"content\", document.getElementById(\"mr-content\").value);"@,
            WIDGET_JS@,
        ),
        occurs(
            "formData.append(\"honeypot\", document.getElementById(\"mr-honeypot\").value);"@,
            WIDGET_JS@,
        ),
        occurs(
            "if (parentInput.value) {\n            formData.append(\"parent_id\", parentInput.value);\n        }"@,
            WIDGET_JS@,
        ),
        occurs(
            "fetch(`${backendOrigin}/api/comments`, { method: \"POST\", body: formData });\n            statusEl.innerHTML = await res.text();"@,
            WIDGET_JS@,
        ),
{
    reveal_strlit(
        r###"
(function() {
    const scriptTag = document.currentScript;
    const backendOrigin = new URL(scriptTag ? scriptTag.src : window.location.href).origin;

    const container = document.getElementById("markreply-comments");
    if (!container) return;

    const postSlug = container.getAttribute("data-slug") || window.location.pathname;

    if (!document.querySelector(`link[href="${backendOrigin}/widget.css"]`)) {
        const link = document.createElement("link");
        link.rel = "stylesheet";
        link.href = `${backendOrigin}/widget.css`;
        document.head.appendChild(link);
    }

    container.innerHTML = `
        <div class="mr-container">
            <h3 class="mr-title">Discussion</h3>

            <!-- 🌟 MOVED: The Master Slot (Form) is now ABOVE the comments list -->
            <div id="mr-master-slot" style="margin-bottom: 2rem;">
                <form id="mr-form" style="max-width: 36rem;">
                    <input type="hidden" id="mr-slug" value="${postSlug}">
                    <input type="hidden" id="mr-parent-id" value="">
                    <input type="text" id="mr-honeypot" name="honeypot" style="opacity: 0; position: absolute; top: 0; left: -9999px; z-index: -1;" tabindex="-1" autocomplete="off">

                    <div id="mr-replying-to" style="display: none; font-size: 0.75rem; color: var(--mr-primary); font-weight: 600; margin-bottom: 1rem;">
                        Replying to comment... <button type="button" id="mr-cancel-reply" style="background:none;border:none;color:var(--mr-muted);cursor:pointer;text-decoration:underline;">Cancel</button>
                    </div>

                    <div class="mr-grid">
                        <div>
                            <!-- 🌟 INCLUDED: Updated labels for theme compatibility -->
                            <label class="mr-label">Name *</label>
                            <input type="text" id="mr-name" required class="mr-input" placeholder="Jane Doe">
                        </div>
                        <div>
                            <label class="mr-label">Email (Optional)</label>
                            <input type="email" id="mr-email" class="mr-input" placeholder="jane@example.com">
                        </div>
                    </div>
                    <div style="margin-bottom: 1rem;">
                        <label class="mr-label">Comment *</label>
                        <textarea id="mr-content" rows="2" required class="mr-input" placeholder="Write a comment..." style="resize: vertical; min-height: 60px; max-height: 250px;"></textarea>
                    </div>
                    <!-- 🌟 FIX: Wrapped in a flex container to push the button right -->
                    <div style="display: flex; justify-content: space-between; align-items: center; margin-top: 0.5rem;">
                        <div id="mr-status"></div>
                        <button type="submit" class="mr-btn" id="mr-submit">Post Comment</button>
                    </div>
                </form>
            </div>

            <!-- 🌟 MOVED: The Comments List is now BELOW the form -->
            <div id="mr-list">
                <p style="color: var(--mr-muted); font-size: 0.875rem;">Loading comments...</p>
            </div>
        </div>
    `;

    const listEl = document.getElementById("mr-list");
    const formEl = document.getElementById("mr-form");
    const statusEl = document.getElementById("mr-status");
    const masterSlot = document.getElementById("mr-master-slot");
    const parentInput = document.getElementById("mr-parent-id");
    const replyIndicator = document.getElementById("mr-replying-to");

    window.mrReplyTo = function(commentId) {
        parentInput.value = commentId;
        replyIndicator.style.display = "block";
        const slot = document.getElementById(`mr-slot-${commentId}`);
        if (slot) slot.appendChild(formEl);
        document.getElementById("mr-content").focus();
    };

    document.getElementById("mr-cancel-reply").addEventListener("click", () => {
        parentInput.value = "";
        replyIndicator.style.display = "none";
        masterSlot.appendChild(formEl);
    });

    async function fetchComments() {
        try {
            const res = await fetch(`${backendOrigin}/api/comments?slug=${encodeURIComponent(postSlug)}`);
            listEl.innerHTML = await res.text();
        } catch (err) {
            listEl.innerHTML = '<p>Could not load comments.</p>';
        }
    }

    formEl.addEventListener("submit", async (e) => {
        e.preventDefault();
        document.getElementById("mr-submit").disabled = true;

        const formData = new URLSearchParams();
        formData.append("post_slug", postSlug);
        formData.append("author_name", document.getElementById("mr-name").value);
        formData.append("author_email", document.getElementById("mr-email").value);
        formData.append("content", document.getElementById("mr-content").value);
        formData.append("honeypot", document.getElementById("mr-honeypot").value);

        if (parentInput.value) {
            formData.append("parent_id", parentInput.value);
        }

        try {
            const res = await fetch(`${backendOrigin}/api/comments`, { method: "POST", body: formData });
            statusEl.innerHTML = await res.text();
            if (res.ok) {
                formEl.reset();
                parentInput.value = "";
                replyIndicator.style.display = "none";
                masterSlot.appendChild(formEl);

                fetchComments();
            }
        } finally {
            document.getElementById("mr-submit").disabled = false;
        }
    });

    fetchComments();
})();
    "###,
    );
    let script = WIDGET_JS@;
    reveal_strlit("document.getElementById(\"markreply-comments\")");
    let w0 = "document.getElementById(\"markreply-comments\")"@;
    assert(script.subrange(176, 221) =~= w0);
    assert(occurs_at(w0, script, 176));
    reveal_strlit("container.getAttribute(\"data-slug\") || window.location.pathname;");
    let w1 = "container.getAttribute(\"data-slug\") || window.location.pathname;"@;
    assert(script.subrange(273, 337) =~= w1);
    assert(occurs_at(w1, script, 273));
    reveal_strlit("link.href = `${backendOrigin}/widget.css`;");
    let w2 = "link.href = `${backendOrigin}/widget.css`;"@;
    assert(script.subrange(512, 554) =~= w2);
    assert(occurs_at(w2, script, 512));
    reveal_strlit("window.mrReplyTo = function(commentId) {\n        parentInput.value = commentId;");
    let w3 = "window.mrReplyTo = function(commentId) {\n        parentInput.value = commentId;"@;
    assert(script.subrange(3674, 3753) =~= w3);
    assert(occurs_at(w3, script, 3674));
    reveal_strlit("document.getElementById(`mr-slot-${commentId}`);\n        if (slot) slot.appendChild(formEl);");
    let w4 = "document.getElementById(`mr-slot-${commentId}`);\n        if (slot) slot.appendChild(formEl);"@;
    assert(script.subrange(3823, 3915) =~= w4);
    assert(occurs_at(w4, script, 3823));
    reveal_strlit("fetch(`${backendOrigin}/api/comments?slug=${encodeURIComponent(postSlug)}`);\n            listEl.innerHTML = await res.text();");
    let w5 = "fetch(`${backendOrigin}/api/comments?slug=${encodeURIComponent(postSlug)}`);\n            listEl.innerHTML = await res.text();"@;
    assert(script.subrange(4269, 4394) =~= w5);
    assert(occurs_at(w5, script, 4269));
    reveal_strlit("formData.append(\"post_slug\", postSlug);");
    let w6 = "formData.append(\"post_slug\", postSlug);"@;
    assert(script.subrange(4702, 4741) =~= w6);
    assert(occurs_at(w6, script, 4702));
    reveal_strlit("formData.append(\"author_name\", document.getElementById(\"mr-name\").value);");
    let w7 = "formData.append(\"author_name\", document.getElementById(\"mr-name\").value);"@;
    assert(script.subrange(4750, 4823) =~= w7);
    assert(occurs_at(w7, script, 4750));
    reveal_strlit("formData.append(\"author_email\", document.getElementById(\"mr-email\").value);");
    let w8 = "formData.append(\"author_email\", document.getElementById(\"mr-email\").value);"@;
    assert(script.subrange(4832, 4907) =~= w8);
    assert(occurs_at(w8, script, 4832));
    reveal_strlit("formData.append(\"content\", document.getElementById(\"mr-content\").value);");
    let w9 = "formData.append(\"content\", document.getElementById(\"mr-content\").value);"@;
    assert(script.subrange(4916, 4988) =~= w9);
    assert(occurs_at(w9, script, 4916));
    reveal_strlit("formData.append(\"honeypot\", document.getElementById(\"mr-honeypot\").value);");
    let w10 = "formData.append(\"honeypot\", document.getElementById(\"mr-honeypot\").value);"@;
    assert(script.subrange(4997, 5071) =~= w10);
    assert(occurs_at(w10, script, 4997));
    reveal_strlit("if (parentInput.value) {\n            formData.append(\"parent_id\", parentInput.value);\n        }");
    let w11 = "if (parentInput.value) {\n            formData.append(\"parent_id\", parentInput.value);\n        }"@;
    assert(script.subrange(5081, 5176) =~= w11);
    assert(occurs_at(w11, script, 5081));
    reveal_strlit("fetch(`${backendOrigin}/api/comments`, { method: \"POST\", body: formData });\n            statusEl.innerHTML = await res.text();");
    let w12 = "fetch(`${backendOrigin}/api/comments`, { method: \"POST\", body: formData });\n            statusEl.innerHTML = await res.text();"@;
    assert(script.subrange(5222, 5348) =~= w12);
    assert(occurs_at(w12, script, 5222));
}

} // verus!
