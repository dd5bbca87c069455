//! Text operations on characters: white space, case folding, prefixes and
//! separators.

use vstd::prelude::*;

verus! {

/// The characters with the Unicode property `White_Space`.
pub open spec fn white_space(c: char) -> bool {
    ||| '\u{9}' <= c <= '\u{d}'
    ||| c == '\u{20}'
    ||| c == '\u{85}'
    ||| c == '\u{a0}'
    ||| c == '\u{1680}'
    ||| '\u{2000}' <= c <= '\u{200a}'
    ||| c == '\u{2028}'
    ||| c == '\u{2029}'
    ||| c == '\u{202f}'
    ||| c == '\u{205f}'
    ||| c == '\u{3000}'
}

/// Tells whether `c` is white space.
pub fn is_white_space(c: char) -> (r: bool)
    ensures
        r == white_space(c),
{
    ('\u{9}' <= c && c <= '\u{d}') || c == '\u{20}' || c == '\u{85}' || c == '\u{a0}' || c
        == '\u{1680}' || ('\u{2000}' <= c && c <= '\u{200a}') || c == '\u{2028}' || c == '\u{2029}'
        || c == '\u{202f}' || c == '\u{205f}' || c == '\u{3000}'
}

/// `s` without its leading white space.
pub open spec fn trimmed_start(s: Seq<char>) -> Seq<char>
    decreases s.len(),
{
    if s.len() > 0 && white_space(s[0]) {
        trimmed_start(s.drop_first())
    } else {
        s
    }
}

/// `s` without its trailing white space.
pub open spec fn trimmed_end(s: Seq<char>) -> Seq<char>
    decreases s.len(),
{
    if s.len() > 0 && white_space(s.last()) {
        trimmed_end(s.drop_last())
    } else {
        s
    }
}

/// `s` without white space at either end.
pub open spec fn trimmed(s: Seq<char>) -> Seq<char> {
    trimmed_end(trimmed_start(s))
}

/// The characters of `s`.
pub fn chars_of(s: &str) -> (r: Vec<char>)
    ensures
        r@ == s@,
{
    let mut v: Vec<char> = Vec::new();
    for c in it: s.chars()
        invariant
            it.seq() == s@,
            v@ == s@.take(it.index() as int),
    {
        v.push(c);
    }
    v
}

/// Removes white space at both ends.
pub fn trim(s: &str) -> (r: &str)
    ensures
        r@ == trimmed(s@),
{
    let chars = chars_of(s);
    let n: usize = chars.len();
    let mut from: usize = 0;
    assert(s@.skip(0) == s@);
    while from < n && is_white_space(chars[from])
        invariant
            n == chars@.len(),
            chars@ == s@,
            from <= n,
            trimmed_start(s@) == trimmed_start(s@.skip(from as int)),
        decreases n - from,
    {
        assert(s@.skip(from as int).drop_first() == s@.skip(from + 1));
        from = from + 1;
    }
    let ghost rest = s@.skip(from as int);
    assert(trimmed_start(s@) == rest);
    let mut to: usize = n;
    assert(s@.subrange(from as int, to as int) == rest);
    while from < to && is_white_space(chars[to - 1])
        invariant
            n == chars@.len(),
            chars@ == s@,
            from <= to <= n,
            trimmed_end(rest) == trimmed_end(s@.subrange(from as int, to as int)),
        decreases to,
    {
        assert(s@.subrange(from as int, to as int).drop_last() == s@.subrange(
            from as int,
            to - 1,
        ));
        to = to - 1;
    }
    s.substring_char(from, to)
}

/// Whether every character of `s` is white space.
pub open spec fn blank(s: Seq<char>) -> bool {
    forall|i: int| 0 <= i < s.len() ==> white_space(#[trigger] s[i])
}

/// A text is blank exactly when nothing of it is left after trimming.
pub proof fn law_blank_is_trimmed_empty(s: Seq<char>)
    ensures
        blank(s) <==> trimmed(s).len() == 0,
{
    lemma_trimmed_start(s);
    lemma_trimmed_end(trimmed_start(s));
    let t = trimmed_start(s);
    if blank(s) {
        if t.len() > 0 {
            assert(s[s.len() - t.len()] == t[0]);
        }
    }
    if trimmed(s).len() == 0 {
        if t.len() > 0 {
            assert(white_space(t[0]));
        }
        assert(t.len() == 0);
        assert forall|i: int| 0 <= i < s.len() implies white_space(#[trigger] s[i]) by {}
    }
}

/// What trimming at the start removes is white space, and what is left is a
/// suffix that does not start with white space.
proof fn lemma_trimmed_start(s: Seq<char>)
    ensures
        trimmed_start(s).len() <= s.len(),
        trimmed_start(s) == s.skip(s.len() - trimmed_start(s).len()),
        forall|i: int|
            0 <= i < s.len() - trimmed_start(s).len() ==> white_space(#[trigger] s[i]),
        trimmed_start(s).len() > 0 ==> !white_space(trimmed_start(s)[0]),
    decreases s.len(),
{
    if s.len() > 0 && white_space(s[0]) {
        let d = s.drop_first();
        lemma_trimmed_start(d);
        assert(d.skip(d.len() - trimmed_start(d).len()) == s.skip(
            s.len() - trimmed_start(s).len(),
        ));
        assert forall|i: int| 0 <= i < s.len() - trimmed_start(s).len() implies white_space(
            #[trigger] s[i],
        ) by {
            if i > 0 {
                assert(s[i] == d[i - 1]);
            }
        }
    } else {
        assert(s.skip(0) == s);
    }
}

/// What trimming at the end removes is white space, and what is left is a
/// prefix that does not end with white space.
proof fn lemma_trimmed_end(s: Seq<char>)
    ensures
        trimmed_end(s).len() <= s.len(),
        trimmed_end(s) == s.take(trimmed_end(s).len() as int),
        forall|i: int| trimmed_end(s).len() <= i < s.len() ==> white_space(#[trigger] s[i]),
        trimmed_end(s).len() > 0 ==> !white_space(trimmed_end(s).last()),
    decreases s.len(),
{
    if s.len() > 0 && white_space(s.last()) {
        let d = s.drop_last();
        lemma_trimmed_end(d);
        assert(d.take(trimmed_end(d).len() as int) == s.take(trimmed_end(s).len() as int));
        assert forall|i: int| trimmed_end(s).len() <= i < s.len() implies white_space(
            #[trigger] s[i],
        ) by {
            if i < d.len() {
                assert(s[i] == d[i]);
            }
        }
    } else {
        assert(s.take(s.len() as int) == s);
    }
}

/// A text is what trimming leaves of it, between the white space it takes away.
pub proof fn lemma_trimmed_parts(s: Seq<char>) -> (r: (Seq<char>, Seq<char>))
    ensures
        blank(r.0),
        blank(r.1),
        s == r.0 + trimmed(s) + r.1,
        trimmed(s).len() > 0 ==> !white_space(trimmed(s)[0]) && !white_space(trimmed(s).last()),
{
    lemma_trimmed_start(s);
    let rest = trimmed_start(s);
    lemma_trimmed_end(rest);
    let before = s.take(s.len() - rest.len());
    let after = rest.skip(trimmed(s).len() as int);
    assert(rest =~= trimmed(s) + after);
    assert(s =~= before + rest);
    assert(before + (trimmed(s) + after) =~= before + trimmed(s) + after);
    if trimmed(s).len() > 0 {
        assert(trimmed(s)[0] == rest[0]);
    }
    (before, after)
}

/// Trimming twice is trimming once.
pub proof fn law_trimmed_twice(s: Seq<char>)
    ensures
        trimmed(trimmed(s)) == trimmed(s),
{
    lemma_trimmed_start(s);
    lemma_trimmed_end(trimmed_start(s));
}

/// White space round a text does not show after trimming.
pub proof fn law_trimmed_padded(before: Seq<char>, s: Seq<char>, after: Seq<char>)
    requires
        blank(before),
        blank(after),
    ensures
        trimmed(before + s + after) == trimmed(s),
{
    lemma_pad_start(before, s + after);
    assert(before + s + after == before + (s + after));
    lemma_trimmed_start(s);
    if trimmed_start(s).len() == 0 {
        lemma_start_of_blank(s + after);
    } else {
        lemma_start_with_suffix(s, after);
        lemma_pad_end(trimmed_start(s), after);
    }
}

proof fn lemma_pad_start(before: Seq<char>, s: Seq<char>)
    requires
        blank(before),
    ensures
        trimmed_start(before + s) == trimmed_start(s),
    decreases before.len(),
{
    if before.len() == 0 {
        assert(before + s == s);
    } else {
        assert((before + s)[0] == before[0]);
        assert((before + s).drop_first() == before.drop_first() + s);
        assert(blank(before.drop_first())) by {
            assert forall|i: int| 0 <= i < before.drop_first().len() implies white_space(
                #[trigger] before.drop_first()[i],
            ) by {
                assert(before.drop_first()[i] == before[i + 1]);
            }
        }
        lemma_pad_start(before.drop_first(), s);
    }
}

proof fn lemma_pad_end(s: Seq<char>, after: Seq<char>)
    requires
        blank(after),
    ensures
        trimmed_end(s + after) == trimmed_end(s),
    decreases after.len(),
{
    if after.len() == 0 {
        assert(s + after == s);
    } else {
        assert((s + after).last() == after.last());
        assert((s + after).drop_last() == s + after.drop_last());
        lemma_pad_end(s, after.drop_last());
    }
}

proof fn lemma_start_of_blank(s: Seq<char>)
    requires
        blank(s),
    ensures
        trimmed_start(s).len() == 0,
{
    lemma_trimmed_start(s);
    if trimmed_start(s).len() > 0 {
        assert(s[s.len() - trimmed_start(s).len()] == trimmed_start(s)[0]);
    }
}

proof fn lemma_start_with_suffix(s: Seq<char>, after: Seq<char>)
    requires
        trimmed_start(s).len() > 0,
    ensures
        trimmed_start(s + after) == trimmed_start(s) + after,
    decreases s.len(),
{
    if s.len() > 0 && white_space(s[0]) {
        assert((s + after).drop_first() == s.drop_first() + after);
        lemma_start_with_suffix(s.drop_first(), after);
    }
}

/// Tells whether `s` holds nothing but white space.
pub fn is_blank(s: &str) -> (r: bool)
    ensures
        r == blank(s@),
{
    proof {
        law_blank_is_trimmed_empty(s@);
    }
    trim(s).is_empty()
}

/// `c`, or its lower-case letter where `c` is an upper-case ASCII letter.
pub open spec fn ascii_lower(c: char) -> char {
    if 'A' <= c <= 'Z' {
        (c as u32 + 32) as char
    } else {
        c
    }
}

/// Whether two texts are the same but for the case of ASCII letters.
pub open spec fn same_ignoring_ascii_case(a: Seq<char>, b: Seq<char>) -> bool {
    a.map_values(|c: char| ascii_lower(c)) == b.map_values(|c: char| ascii_lower(c))
}

/// Texts that are the same but for the case of ASCII letters stay so when both
/// are trimmed.
pub proof fn law_case_survives_trimming(a: Seq<char>, b: Seq<char>)
    requires
        same_ignoring_ascii_case(a, b),
    ensures
        same_ignoring_ascii_case(trimmed(a), trimmed(b)),
{
    lemma_trimmed_start_lower(a);
    lemma_trimmed_start_lower(b);
    lemma_trimmed_end_lower(trimmed_start(a));
    lemma_trimmed_end_lower(trimmed_start(b));
}

proof fn lemma_trimmed_start_lower(s: Seq<char>)
    ensures
        trimmed_start(s.map_values(|c: char| ascii_lower(c))) == trimmed_start(s).map_values(
            |c: char| ascii_lower(c),
        ),
    decreases s.len(),
{
    let low = |c: char| ascii_lower(c);
    if s.len() > 0 {
        assert(white_space(s[0]) == white_space(s.map_values(low)[0]));
        if white_space(s[0]) {
            assert(s.map_values(low).drop_first() == s.drop_first().map_values(low));
            lemma_trimmed_start_lower(s.drop_first());
        }
    }
}

proof fn lemma_trimmed_end_lower(s: Seq<char>)
    ensures
        trimmed_end(s.map_values(|c: char| ascii_lower(c))) == trimmed_end(s).map_values(
            |c: char| ascii_lower(c),
        ),
    decreases s.len(),
{
    let low = |c: char| ascii_lower(c);
    if s.len() > 0 {
        assert(white_space(s.last()) == white_space(s.map_values(low).last()));
        if white_space(s.last()) {
            assert(s.map_values(low).drop_last() == s.drop_last().map_values(low));
            lemma_trimmed_end_lower(s.drop_last());
        }
    }
}

/// The number of `c` after folding an ASCII letter to lower case.
fn folded(c: char) -> (r: u32)
    ensures
        r == ascii_lower(c) as u32,
{
    if 'A' <= c && c <= 'Z' {
        c as u32 + 32
    } else {
        c as u32
    }
}

/// Tells whether two texts are the same but for the case of ASCII letters.
pub fn eq_ignore_ascii_case(a: &str, b: &str) -> (r: bool)
    ensures
        r == same_ignoring_ascii_case(a@, b@),
{
    let x = chars_of(a);
    let y = chars_of(b);
    let ghost low = |c: char| ascii_lower(c);
    let ghost p = a@.map_values(low);
    let ghost q = b@.map_values(low);
    if x.len() != y.len() {
        assert(p.len() != q.len());
        return false;
    }
    let n: usize = x.len();
    let mut i: usize = 0;
    while i < n
        invariant
            n == x@.len(),
            n == y@.len(),
            x@ == a@,
            y@ == b@,
            i <= n,
            low == (|c: char| ascii_lower(c)),
            p == a@.map_values(low),
            q == b@.map_values(low),
            forall|j: int| 0 <= j < i ==> p[j] == q[j],
        decreases n - i,
    {
        if folded(x[i]) != folded(y[i]) {
            assert(p[i as int] != q[i as int]);
            return false;
        }
        i = i + 1;
    }
    assert(p == q);
    true
}

/// `s` without `p` at its start, however often `p` stands there.
pub open spec fn without_prefixes(s: Seq<char>, p: Seq<char>) -> Seq<char>
    decreases s.len(),
{
    if p.len() > 0 && p.is_prefix_of(s) {
        without_prefixes(s.skip(p.len() as int), p)
    } else {
        s
    }
}

/// Removes `p` from the start of `s` as often as it stands there.
pub fn trim_start_matches<'a>(s: &'a str, p: &str) -> (r: &'a str)
    ensures
        r@ == without_prefixes(s@, p@),
{
    let x = chars_of(s);
    let y = chars_of(p);
    let n: usize = x.len();
    let k: usize = y.len();
    let mut from: usize = 0;
    assert(s@.skip(0) == s@);
    while k > 0 && k <= n - from && stands_at(&x, from, &y)
        invariant
            n == x@.len(),
            k == y@.len(),
            x@ == s@,
            y@ == p@,
            from <= n,
            without_prefixes(s@, p@) == without_prefixes(s@.skip(from as int), p@),
        ensures
            from <= n,
            without_prefixes(s@, p@) == s@.skip(from as int),
        decreases n - from,
    {
        assert(s@.skip(from as int).skip(k as int) == s@.skip(from + k));
        from = from + k;
    }
    let r = s.substring_char(from, n);
    assert(r@ == s@.skip(from as int));
    r
}

/// Tells whether `y` stands in `x` at position `from`.
fn stands_at(x: &Vec<char>, from: usize, y: &Vec<char>) -> (r: bool)
    requires
        from + y@.len() <= x@.len(),
    ensures
        r == y@.is_prefix_of(x@.skip(from as int)),
{
    let n: usize = x.len();
    let k: usize = y.len();
    let mut i: usize = 0;
    while i < k
        invariant
            n == x@.len(),
            k == y@.len(),
            from + k <= n,
            i <= k,
            forall|j: int| 0 <= j < i ==> y@[j] == x@[from + j],
        decreases k - i,
    {
        if x[from + i] != y[i] {
            assert(x@.skip(from as int).take(k as int)[i as int] != y@[i as int]);
            return false;
        }
        i = i + 1;
    }
    assert(x@.skip(from as int).take(k as int) == y@);
    true
}

/// The position of the first `sep` in `s`, or the length of `s` where there is
/// none.
pub open spec fn position(s: Seq<char>, sep: char) -> int
    decreases s.len(),
{
    if s.len() == 0 || s[0] == sep {
        0
    } else {
        1 + position(s.drop_first(), sep)
    }
}

/// The pieces of `s` between one `sep` and the next. There is always at least
/// one piece.
pub open spec fn split_at_each(s: Seq<char>, sep: char) -> Seq<Seq<char>>
    decreases s.len(),
    via split_at_each_decreases
{
    let i = position(s, sep);
    if i == s.len() {
        seq![s]
    } else {
        seq![s.take(i)] + split_at_each(s.skip(i + 1), sep)
    }
}

#[via_fn]
proof fn split_at_each_decreases(s: Seq<char>, sep: char) {
    lemma_position(s, sep);
}

/// What the position of a separator means.
pub proof fn lemma_position(s: Seq<char>, sep: char)
    ensures
        0 <= position(s, sep) <= s.len(),
        forall|i: int| 0 <= i < position(s, sep) ==> #[trigger] s[i] != sep,
        position(s, sep) < s.len() ==> s[position(s, sep)] == sep,
    decreases s.len(),
{
    if s.len() > 0 && s[0] != sep {
        let d = s.drop_first();
        lemma_position(d, sep);
        assert forall|i: int| 0 <= i < position(s, sep) implies #[trigger] s[i] != sep by {
            if i > 0 {
                assert(s[i] == d[i - 1]);
            }
        }
    }
}

/// The first separator is the one with none before it.
pub proof fn lemma_position_is(s: Seq<char>, sep: char, i: int)
    requires
        0 <= i <= s.len(),
        forall|j: int| 0 <= j < i ==> #[trigger] s[j] != sep,
        i < s.len() ==> s[i] == sep,
    ensures
        position(s, sep) == i,
{
    lemma_position(s, sep);
    let p = position(s, sep);
    if p < i {
        assert(s[p] != sep);
    }
}

/// A text without the separator is one piece.
pub proof fn lemma_split_whole(s: Seq<char>, sep: char)
    requires
        forall|i: int| 0 <= i < s.len() ==> #[trigger] s[i] != sep,
    ensures
        split_at_each(s, sep) == seq![s],
{
    lemma_position_is(s, sep, s.len() as int);
}

/// The pieces of two texts with a separator between them are the pieces of the
/// one and then those of the other.
pub proof fn law_split_at_separator(a: Seq<char>, sep: char, b: Seq<char>)
    ensures
        split_at_each(a + seq![sep] + b, sep) == split_at_each(a, sep) + split_at_each(b, sep),
    decreases a.len(),
{
    let s = a + seq![sep] + b;
    let i = position(a, sep);
    lemma_position(a, sep);
    if i == a.len() {
        assert forall|j: int| 0 <= j < i implies #[trigger] s[j] != sep by {
            assert(s[j] == a[j]);
        }
        lemma_position_is(s, sep, i);
        assert(s.take(i) == a);
        assert(s.skip(i + 1) == b);
    } else {
        assert forall|j: int| 0 <= j < i implies #[trigger] s[j] != sep by {
            assert(s[j] == a[j]);
        }
        assert(s[i] == a[i]);
        lemma_position_is(s, sep, i);
        assert(s.take(i) == a.take(i));
        assert(s.skip(i + 1) == a.skip(i + 1) + seq![sep] + b);
        law_split_at_separator(a.skip(i + 1), sep, b);
        assert(seq![a.take(i)] + (split_at_each(a.skip(i + 1), sep) + split_at_each(b, sep))
            == seq![a.take(i)] + split_at_each(a.skip(i + 1), sep) + split_at_each(b, sep));
    }
}

/// Splits `s` at each `sep`.
pub fn split(s: &str, sep: char) -> (r: Vec<String>)
    ensures
        r.deep_view() == split_at_each(s@, sep),
{
    let x = chars_of(s);
    let n: usize = x.len();
    let mut pieces: Vec<String> = Vec::new();
    let mut from: usize = 0;
    let mut to: usize = 0;
    assert(s@.skip(0) == s@);
    assert(pieces.deep_view() + split_at_each(s@, sep) == split_at_each(s@, sep));
    while to < n
        invariant
            n == x@.len(),
            x@ == s@,
            from <= to <= n,
            forall|j: int| from <= j < to ==> #[trigger] s@[j] != sep,
            split_at_each(s@, sep) == pieces.deep_view() + split_at_each(
                s@.skip(from as int),
                sep,
            ),
        decreases n - to,
    {
        if x[to] == sep {
            let ghost rest = s@.skip(from as int);
            let ghost before = pieces.deep_view();
            proof {
                assert forall|j: int| 0 <= j < to - from implies #[trigger] rest[j] != sep by {
                    assert(rest[j] == s@[from + j]);
                }
                assert(rest[to - from] == s@[to as int]);
                lemma_position_is(rest, sep, to - from);
                assert(rest.take(to - from) == s@.subrange(from as int, to as int));
                assert(rest.skip(to - from + 1) == s@.skip(to + 1));
            }
            pieces.push(s.substring_char(from, to).to_string());
            assert(pieces.deep_view() == before.push(s@.subrange(from as int, to as int)));
            assert(pieces.deep_view() + split_at_each(s@.skip(to + 1), sep) == before + (seq![
                s@.subrange(from as int, to as int),
            ] + split_at_each(s@.skip(to + 1), sep)));
            to = to + 1;
            from = to;
        } else {
            to = to + 1;
        }
    }
    let ghost rest = s@.skip(from as int);
    let ghost before = pieces.deep_view();
    proof {
        assert forall|j: int| 0 <= j < rest.len() implies #[trigger] rest[j] != sep by {
            assert(rest[j] == s@[from + j]);
        }
        lemma_position_is(rest, sep, rest.len() as int);
        assert(rest == s@.subrange(from as int, n as int));
    }
    pieces.push(s.substring_char(from, n).to_string());
    assert(pieces.deep_view() == before + seq![rest]);
    pieces
}

/// Whether `word` stands somewhere in `s`.
pub open spec fn occurs(word: Seq<char>, s: Seq<char>) -> bool {
    exists|i: int| #[trigger] occurs_at(word, s, i)
}

/// Whether `word` stands in `s` from place `i` on.
pub open spec fn occurs_at(word: Seq<char>, s: Seq<char>, i: int) -> bool {
    0 <= i <= s.len() - word.len() && s.subrange(i, i + word.len()) == word
}

/// A word that stands in a text stands in every longer text too.
pub proof fn lemma_occurs_within(word: Seq<char>, before: Seq<char>, s: Seq<char>, after: Seq<char>)
    requires
        occurs(word, s),
    ensures
        occurs(word, before + s + after),
{
    let i = choose|i: int| #[trigger] occurs_at(word, s, i);
    let whole = before + s + after;
    let n = before.len() as int;
    assert(whole.subrange(n + i, n + i + word.len()) =~= s.subrange(i, i + word.len()));
    assert(occurs_at(word, whole, n + i));
}

/// What stands in a word that stands in a text stands in that text.
pub proof fn lemma_occurs_inside(inner: Seq<char>, word: Seq<char>, s: Seq<char>)
    requires
        occurs(inner, word),
        occurs(word, s),
    ensures
        occurs(inner, s),
{
    let i = choose|i: int| #[trigger] occurs_at(word, s, i);
    let before = s.take(i);
    let after = s.skip(i + word.len());
    assert(before + word + after =~= s) by {
        assert forall|k: int| 0 <= k < s.len() implies (before + word + after)[k] == s[k] by {
            if i <= k < i + word.len() {
                assert(word[k - i] == s.subrange(i, i + word.len())[k - i]);
            }
        }
    }
    lemma_occurs_within(inner, before, word, after);
}

/// A word stands in no text that lacks one of its characters.
pub proof fn lemma_absent(word: Seq<char>, s: Seq<char>, c: char)
    requires
        word.contains(c),
        !s.contains(c),
    ensures
        !occurs(word, s),
{
    if occurs(word, s) {
        let i = choose|i: int| #[trigger] occurs_at(word, s, i);
        let k = choose|k: int| 0 <= k < word.len() && word[k] == c;
        assert(s.subrange(i, i + word.len())[k] == s[i + k]);
        assert(s.contains(c));
    }
}

/// A word that stands in neither of two texts does not stand across the border
/// between them either, where one of the characters at the border is not in the
/// word.
pub proof fn lemma_absent_across(word: Seq<char>, a: Seq<char>, b: Seq<char>)
    requires
        !occurs(word, a),
        !occurs(word, b),
        a.len() == 0 || b.len() == 0 || !word.contains(a.last()) || !word.contains(b[0]),
    ensures
        !occurs(word, a + b),
{
    let s = a + b;
    if occurs(word, s) {
        let i = choose|i: int| #[trigger] occurs_at(word, s, i);
        let found = s.subrange(i, i + word.len());
        let n = a.len() as int;
        if i + word.len() <= n {
            assert(a.subrange(i, i + word.len()) =~= found);
            assert(occurs_at(word, a, i));
        } else if i >= n {
            assert(b.subrange(i - n, i - n + word.len()) =~= found);
            assert(occurs_at(word, b, i - n));
        } else {
            assert(found[n - 1 - i] == a.last());
            assert(found[n - i] == b[0]);
            assert(word.contains(a.last()));
            assert(word.contains(b[0]));
        }
    }
}

} // verus!
