//! What the operations on text promise.

use crate::auth::repeated;
use crate::text::{
    ascii_lower, blank, chars_of, eq_ignore_ascii_case, is_blank, is_white_space,
    law_split_at_separator, law_trimmed_padded, lemma_position, lemma_split_whole, position, split,
    split_at_each, trim, trim_start_matches, trimmed, white_space, without_prefixes,
};
use vstd::prelude::*;

verus! {

/// The characters that count as white space, by their code points.
pub open spec fn space(c: char) -> bool {
    seq![
        0x09u32, 0x0a, 0x0b, 0x0c, 0x0d, 0x20, 0x85, 0xa0, 0x1680, 0x2000, 0x2001, 0x2002, 0x2003,
        0x2004, 0x2005, 0x2006, 0x2007, 0x2008, 0x2009, 0x200a, 0x2028, 0x2029, 0x202f, 0x205f,
        0x3000,
    ].contains(c as u32)
}

/// Whether a text holds nothing but white space.
pub open spec fn all_space(s: Seq<char>) -> bool {
    forall|i: int| 0 <= i < s.len() ==> space(#[trigger] s[i])
}

/// Whether `core` is `s` without the white space at its ends: nothing but white
/// space was taken away, and none is left there.
pub open spec fn core_of(core: Seq<char>, s: Seq<char>) -> bool {
    &&& exists|before: Seq<char>, after: Seq<char>| #[trigger]
        all_space(before) && #[trigger] all_space(after) && s == before + core + after
    &&& core.len() > 0 ==> !space(core[0]) && !space(core.last())
}

/// Texts with a separator between one and the next.
pub open spec fn interposed(pieces: Seq<Seq<char>>, sep: char) -> Seq<char>
    decreases pieces.len(),
{
    if pieces.len() == 0 {
        Seq::empty()
    } else if pieces.len() == 1 {
        pieces[0]
    } else {
        pieces[0] + seq![sep] + interposed(pieces.drop_first(), sep)
    }
}

/// Whether two characters are the same, or the same ASCII letter in two cases.
pub open spec fn same_letter(a: char, b: char) -> bool {
    ||| a == b
    ||| 'A' <= a <= 'Z' && b as u32 == a as u32 + 32
    ||| 'A' <= b <= 'Z' && a as u32 == b as u32 + 32
}

/// White space is what [`space`] lists.
pub proof fn lemma_space(c: char)
    ensures
        white_space(c) <==> space(c),
{
    let list = seq![
        0x09u32, 0x0a, 0x0b, 0x0c, 0x0d, 0x20, 0x85, 0xa0, 0x1680, 0x2000, 0x2001, 0x2002, 0x2003,
        0x2004, 0x2005, 0x2006, 0x2007, 0x2008, 0x2009, 0x200a, 0x2028, 0x2029, 0x202f, 0x205f,
        0x3000,
    ];
    let n = c as u32;
    assert(list.len() == 25);
    if white_space(c) {
        let i: int = if n <= 0x0d {
            n - 9
        } else if n == 0x20 {
            5
        } else if n == 0x85 {
            6
        } else if n == 0xa0 {
            7
        } else if n == 0x1680 {
            8
        } else if n <= 0x200a {
            n - 0x2000 + 9
        } else if n == 0x2028 {
            20
        } else if n == 0x2029 {
            21
        } else if n == 0x202f {
            22
        } else if n == 0x205f {
            23
        } else {
            24
        };
        assert(list[i] == n);
    }
}

/// A text is blank where it is nothing but white space.
pub proof fn lemma_all_space(s: Seq<char>)
    ensures
        blank(s) <==> all_space(s),
{
    assert forall|i: int| 0 <= i < s.len() implies (white_space(#[trigger] s[i]) <==> space(
        s[i],
    )) by {
        lemma_space(s[i]);
    }
    if all_space(s) {
        assert forall|i: int| 0 <= i < s.len() implies white_space(#[trigger] s[i]) by {
            assert(space(s[i]));
        }
    }
    if blank(s) {
        assert forall|i: int| 0 <= i < s.len() implies space(#[trigger] s[i]) by {
            assert(white_space(s[i]));
        }
    }
}

/// A character is told to be white space exactly where it is listed.
pub proof fn law_white_space_is_what_is_listed(c: char, r: bool)
    requires
        call_ensures(is_white_space, (c,), r),
    ensures
        r <==> space(c),
{
    lemma_space(c);
}

/// The characters that are handed out are those of the text, all and in order.
pub proof fn law_characters_are_all_handed_out(s: &str, r: Vec<char>)
    requires
        call_ensures(chars_of, (s,), r),
    ensures
        r@.len() == s@.len(),
        forall|i: int| 0 <= i < s@.len() ==> #[trigger] r@[i] == s@[i],
{
}

/// The core of a text is what trimming leaves of it.
pub proof fn lemma_core(core: Seq<char>, s: Seq<char>)
    ensures
        core_of(core, s) <==> core == trimmed(s),
{
    if core_of(core, s) {
        let (before, after) = choose|before: Seq<char>, after: Seq<char>| #[trigger]
            all_space(before) && #[trigger] all_space(after) && s == before + core + after;
        lemma_all_space(before);
        lemma_all_space(after);
        law_trimmed_padded(before, core, after);
        if core.len() > 0 {
            lemma_space(core[0]);
            lemma_space(core.last());
        }
        assert(trimmed(core) == core);
    }
    let t = trimmed(s);
    let (before, after) = crate::text::lemma_trimmed_parts(s);
    lemma_all_space(before);
    lemma_all_space(after);
    assert(all_space(before) && all_space(after) && s == before + t + after);
    if t.len() > 0 {
        lemma_space(t[0]);
        lemma_space(t.last());
    }
    assert(core_of(t, s));
}

/// Trimming takes away all white space at both ends of a text, and nothing else.
pub proof fn law_trimming_takes_the_ends_and_nothing_else(s: &str, r: &str)
    requires
        call_ensures(trim, (s,), r),
    ensures
        core_of(r@, s@),
{
    lemma_core(r@, s@);
}

/// A text is told to be blank exactly where every character of it is listed as
/// white space.
pub proof fn law_blank_is_nothing_but_white_space(s: &str, r: bool)
    requires
        call_ensures(is_blank, (s,), r),
    ensures
        r <==> all_space(s@),
{
    lemma_all_space(s@);
}

/// Two texts are told to be the same exactly where they are equally long and, at
/// each place, hold the same character or the same ASCII letter in two cases.
pub proof fn law_texts_are_compared_letter_by_letter(a: &str, b: &str, r: bool)
    requires
        call_ensures(eq_ignore_ascii_case, (a, b), r),
    ensures
        r <==> {
            &&& a@.len() == b@.len()
            &&& forall|i: int| 0 <= i < a@.len() ==> same_letter(#[trigger] a@[i], b@[i])
        },
{
    let low = |c: char| ascii_lower(c);
    let p = a@.map_values(low);
    let q = b@.map_values(low);
    assert(p.len() == a@.len() && q.len() == b@.len());
    if r {
        assert(p == q);
        assert forall|i: int| 0 <= i < a@.len() implies same_letter(#[trigger] a@[i], b@[i]) by {
            assert(p[i] == q[i]);
        }
    }
    if a@.len() == b@.len() && forall|i: int|
        0 <= i < a@.len() ==> same_letter(#[trigger] a@[i], b@[i]) {
        assert forall|i: int| 0 <= i < p.len() implies p[i] == q[i] by {
            assert(same_letter(a@[i], b@[i]));
        }
        assert(p =~= q);
    }
}

/// What is left after the prefix was taken away.
pub proof fn lemma_prefixes(s: Seq<char>, p: Seq<char>) -> (n: nat)
    requires
        p.len() > 0,
    ensures
        s == repeated(p, n) + without_prefixes(s, p),
        !p.is_prefix_of(without_prefixes(s, p)),
    decreases s.len(),
{
    if p.is_prefix_of(s) {
        let rest = s.skip(p.len() as int);
        let m = lemma_prefixes(rest, p);
        assert(s =~= p + rest);
        assert(p + (repeated(p, m) + without_prefixes(rest, p)) =~= p + repeated(p, m)
            + without_prefixes(rest, p));
        m + 1
    } else {
        assert(repeated(p, 0) + s =~= s);
        0
    }
}

/// A prefix is taken away as often as it stands at the start: what was taken away
/// is the prefix some number of times over, and what is left does not start with
/// it.
pub proof fn law_prefixes_are_all_taken_away(s: &str, p: &str, r: &str)
    requires
        call_ensures(trim_start_matches, (s, p), r),
        p@.len() > 0,
    ensures
        exists|n: nat| s@ == #[trigger] repeated(p@, n) + r@,
        !p@.is_prefix_of(r@),
{
    let n = lemma_prefixes(s@, p@);
    assert(s@ == repeated(p@, n) + r@);
}

/// Without a prefix to take away, the text is left as it is.
pub proof fn law_no_prefix_takes_nothing_away(s: &str, p: &str, r: &str)
    requires
        call_ensures(trim_start_matches, (s, p), r),
        !p@.is_prefix_of(s@) || p@.len() == 0,
    ensures
        r@ == s@,
{
}

/// A text that starts with a prefix some number of times over loses just that.
pub proof fn lemma_prefixes_taken(p: Seq<char>, n: nat, rest: Seq<char>)
    requires
        p.len() > 0,
        !p.is_prefix_of(rest),
    ensures
        without_prefixes(repeated(p, n) + rest, p) == rest,
    decreases n,
{
    if n == 0 {
        assert(repeated(p, n) + rest =~= rest);
    } else {
        lemma_prefixes_taken(p, (n - 1) as nat, rest);
        let more = repeated(p, (n - 1) as nat) + rest;
        let s = repeated(p, n) + rest;
        assert(s =~= p + more);
        assert(s.take(p.len() as int) =~= p);
        assert(p.is_prefix_of(s));
        assert(s.skip(p.len() as int) =~= more);
    }
}

/// The pieces of a text, with the separator between them, are the text; none
/// holds the separator.
pub proof fn lemma_pieces(s: Seq<char>, sep: char)
    ensures
        split_at_each(s, sep).len() > 0,
        interposed(split_at_each(s, sep), sep) == s,
        forall|i: int|
            0 <= i < split_at_each(s, sep).len() ==> !(#[trigger] split_at_each(
                s,
                sep,
            )[i]).contains(sep),
    decreases s.len(),
{
    let k = position(s, sep);
    lemma_position(s, sep);
    let pieces = split_at_each(s, sep);
    if k == s.len() {
        assert(pieces == seq![s]);
    } else {
        let first = s.take(k);
        let rest = s.skip(k + 1);
        lemma_pieces(rest, sep);
        let more = split_at_each(rest, sep);
        assert(pieces == seq![first] + more);
        assert(pieces.drop_first() =~= more);
        assert(first + seq![sep] + rest =~= s);
        assert forall|i: int| 0 <= i < pieces.len() implies !(#[trigger] pieces[i]).contains(
            sep,
        ) by {
            if i > 0 {
                assert(pieces[i] == more[i - 1]);
            }
        }
    }
}

/// Pieces without the separator, put together with it, are found again.
pub proof fn lemma_pieces_found(pieces: Seq<Seq<char>>, sep: char)
    requires
        pieces.len() > 0,
        forall|i: int| 0 <= i < pieces.len() ==> !(#[trigger] pieces[i]).contains(sep),
    ensures
        split_at_each(interposed(pieces, sep), sep) == pieces,
    decreases pieces.len(),
{
    let first = pieces[0];
    assert(!first.contains(sep));
    assert forall|i: int| 0 <= i < first.len() implies #[trigger] first[i] != sep by {
        assert(first.contains(first[i]));
    }
    lemma_split_whole(first, sep);
    if pieces.len() == 1 {
        assert(pieces =~= seq![first]);
    } else {
        let more = pieces.drop_first();
        assert forall|i: int| 0 <= i < more.len() implies !(#[trigger] more[i]).contains(sep) by {
            assert(more[i] == pieces[i + 1]);
        }
        lemma_pieces_found(more, sep);
        law_split_at_separator(first, sep, interposed(more, sep));
        assert(seq![first] + more =~= pieces);
    }
}

/// A text is split at each separator and nowhere else: put together with the
/// separator between them its pieces are the text, there is at least one, and
/// none of them holds the separator.
pub proof fn law_texts_are_split_at_each_separator(s: &str, sep: char, r: Vec<String>)
    requires
        call_ensures(split, (s, sep), r),
    ensures
        r@.len() > 0,
        interposed(r@.map_values(|piece: String| piece@), sep) == s@,
        forall|i: int| 0 <= i < r@.len() ==> !(#[trigger] r@[i])@.contains(sep),
{
    lemma_pieces(s@, sep);
    let pieces = split_at_each(s@, sep);
    assert(r.deep_view() =~= r@.map_values(|piece: String| piece@));
    assert forall|i: int| 0 <= i < r@.len() implies !(#[trigger] r@[i])@.contains(sep) by {
        assert(pieces[i] == r@[i]@);
    }
}

} // verus!
