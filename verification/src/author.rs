//! Who wrote a comment.

use crate::text::{
    ascii_lower, blank, eq_ignore_ascii_case, is_blank, law_blank_is_trimmed_empty, law_case_survives_trimming,
    law_trimmed_padded, same_ignoring_ascii_case, trim,
    trimmed,
};
use vstd::prelude::*;

verus! {

/// The administrator's address in force: empty where none is configured.
pub open spec fn admin_address(configured: Option<Seq<char>>) -> Seq<char> {
    match configured {
        Some(address) => address,
        None => Seq::empty(),
    }
}

/// Whether an author with this address is the administrator: both addresses
/// are given, and but for white space round the author's and the case of ASCII
/// letters they are the same.
pub open spec fn by_admin(author_email: Option<Seq<char>>, admin_email: Seq<char>) -> bool {
    &&& author_email is Some
    &&& !blank(author_email->0)
    &&& admin_email.len() > 0
    &&& same_ignoring_ascii_case(trimmed(author_email->0), admin_email)
}

/// Tells whether an author with this address is the administrator.
pub fn is_admin(author_email: &Option<String>, admin_email: Option<&str>) -> (r: bool)
    ensures
        r == by_admin(author_email.deep_view(), admin_address(admin_email.deep_view())),
{
    match (author_email, admin_email) {
        (Some(email), Some(admin)) => {
            !is_blank(email.as_str()) && !admin.is_empty() && eq_ignore_ascii_case(
                trim(email.as_str()),
                admin,
            )
        },
        _ => false,
    }
}

/// Where no administrator's address is configured, nobody is the
/// administrator.
pub proof fn law_nobody_without_configured_address(author_email: Option<Seq<char>>)
    ensures
        !by_admin(author_email, admin_address(None)),
{
}

/// White space round an author's address does not matter.
pub proof fn law_padding_does_not_matter(
    before: Seq<char>,
    email: Seq<char>,
    after: Seq<char>,
    admin_email: Seq<char>,
)
    requires
        blank(before),
        blank(after),
    ensures
        by_admin(Some(before + email + after), admin_email) == by_admin(Some(email), admin_email),
{
    law_trimmed_padded(before, email, after);
    law_blank_is_trimmed_empty(before + email + after);
    law_blank_is_trimmed_empty(email);
}

/// The case of ASCII letters in an author's address does not matter.
pub proof fn law_case_does_not_matter(a: Seq<char>, b: Seq<char>, admin_email: Seq<char>)
    requires
        same_ignoring_ascii_case(a, b),
    ensures
        by_admin(Some(a), admin_email) == by_admin(Some(b), admin_email),
{
    law_case_survives_trimming(a, b);
    law_blank_is_trimmed_empty(a);
    law_blank_is_trimmed_empty(b);
    assert(trimmed(a).map_values(|c: char| ascii_lower(c)).len() == trimmed(a).len());
    assert(trimmed(b).map_values(|c: char| ascii_lower(c)).len() == trimmed(b).len());
}

} // verus!
