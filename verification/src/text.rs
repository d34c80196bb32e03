//! Character-level helpers on strings: conversion to and from character
//! vectors, trimming, splitting and decimal rendering.

use vstd::prelude::*;

verus! {

// ---------------------------------------------------------------------------
// Specifications
// ---------------------------------------------------------------------------

/// Unicode `White_Space`, the set that `char::is_whitespace` and `str::trim`
/// use: U+0009..U+000D, U+0020, U+0085, U+00A0, U+1680, U+2000..U+200A,
/// U+2028, U+2029, U+202F, U+205F and U+3000.
pub open spec fn is_white_space(c: char) -> bool {
    let n = c as u32;
    ||| 0x09 <= n <= 0x0d
    ||| n == 0x20
    ||| n == 0x85
    ||| n == 0xa0
    ||| n == 0x1680
    ||| 0x2000 <= n <= 0x200a
    ||| n == 0x2028
    ||| n == 0x2029
    ||| n == 0x202f
    ||| n == 0x205f
    ||| n == 0x3000
}

/// `s` without the longest prefix of characters that satisfy `p`.
pub open spec fn drop_leading(s: Seq<char>, p: spec_fn(char) -> bool) -> Seq<char>
    decreases s.len(),
{
    if s.len() > 0 && p(s[0]) {
        drop_leading(s.drop_first(), p)
    } else {
        s
    }
}

/// `s` without the longest suffix of characters that satisfy `p`.
pub open spec fn drop_trailing(s: Seq<char>, p: spec_fn(char) -> bool) -> Seq<char>
    decreases s.len(),
{
    if s.len() > 0 && p(s.last()) {
        drop_trailing(s.drop_last(), p)
    } else {
        s
    }
}

/// The predicate "is `c`".
pub open spec fn is_char(c: char) -> spec_fn(char) -> bool {
    |x: char| x == c
}

/// The predicate "is white space".
pub open spec fn white_space() -> spec_fn(char) -> bool {
    |x: char| is_white_space(x)
}

/// What `str::trim` gives: leading and trailing white space removed.
pub open spec fn trimmed(s: Seq<char>) -> Seq<char> {
    drop_trailing(drop_leading(s, white_space()), white_space())
}

/// The pieces of `s` between occurrences of `sep`, as `str::split` yields
/// them: one more piece than `s` holds separators, empty pieces included.
pub open spec fn split_on(s: Seq<char>, sep: char) -> Seq<Seq<char>>
    decreases s.len(),
{
    if s.len() == 0 {
        seq![Seq::<char>::empty()]
    } else {
        let init = split_on(s.drop_last(), sep);
        if s.last() == sep {
            init.push(Seq::<char>::empty())
        } else {
            init.update(init.len() - 1, init.last().push(s.last()))
        }
    }
}

/// The pieces joined again, with `sep` between consecutive ones.
pub open spec fn join_with(parts: Seq<Seq<char>>, sep: char) -> Seq<char>
    decreases parts.len(),
{
    if parts.len() == 0 {
        Seq::<char>::empty()
    } else if parts.len() == 1 {
        parts[0]
    } else {
        join_with(parts.drop_last(), sep).push(sep) + parts.last()
    }
}

/// The decimal digit character for `d < 10`.
pub open spec fn digit_char(d: nat) -> char {
    if d == 0 {
        '0'
    } else if d == 1 {
        '1'
    } else if d == 2 {
        '2'
    } else if d == 3 {
        '3'
    } else if d == 4 {
        '4'
    } else if d == 5 {
        '5'
    } else if d == 6 {
        '6'
    } else if d == 7 {
        '7'
    } else if d == 8 {
        '8'
    } else {
        '9'
    }
}

/// The decimal rendering of `n`, without leading zeros.
pub open spec fn decimal(n: nat) -> Seq<char>
    decreases n,
{
    if n < 10 {
        seq![digit_char(n)]
    } else {
        decimal(n / 10).push(digit_char(n % 10))
    }
}

// ---------------------------------------------------------------------------
// Lemmas
// ---------------------------------------------------------------------------

/// Dropping a leading run can start from any point inside that run.
proof fn lemma_drop_leading_skip(s: Seq<char>, p: spec_fn(char) -> bool, i: int)
    requires
        0 <= i < s.len(),
        p(s[i]),
    ensures
        drop_leading(s.skip(i), p) == drop_leading(s.skip(i + 1), p),
{
    assert(s.skip(i).drop_first() =~= s.skip(i + 1));
}

/// Dropping a trailing run can stop at any point inside that run.
proof fn lemma_drop_trailing_take(s: Seq<char>, p: spec_fn(char) -> bool, j: int)
    requires
        0 < j <= s.len(),
        p(s[j - 1]),
    ensures
        drop_trailing(s.take(j), p) == drop_trailing(s.take(j - 1), p),
{
    assert(s.take(j).drop_last() =~= s.take(j - 1));
}

/// After a trailing run is dropped, the text no longer ends with such a
/// character, and dropping again changes nothing.
pub proof fn lemma_drop_trailing_done(s: Seq<char>, p: spec_fn(char) -> bool)
    ensures
        drop_trailing(s, p).len() == 0 || !p(drop_trailing(s, p).last()),
        drop_trailing(drop_trailing(s, p), p) == drop_trailing(s, p),
    decreases s.len(),
{
    if s.len() > 0 && p(s.last()) {
        lemma_drop_trailing_done(s.drop_last(), p);
    }
}

/// What dropping a trailing run leaves: a prefix of the text, after which
/// every character satisfies `p`, and which does not itself end with such a
/// character.
pub proof fn lemma_drop_trailing_shape(s: Seq<char>, p: spec_fn(char) -> bool)
    ensures
        drop_trailing(s, p).len() <= s.len(),
        drop_trailing(s, p) == s.take(drop_trailing(s, p).len() as int),
        forall|i: int| drop_trailing(s, p).len() <= i < s.len() ==> p(#[trigger] s[i]),
        drop_trailing(s, p).len() == 0 || !p(drop_trailing(s, p).last()),
    decreases s.len(),
{
    lemma_drop_trailing_done(s, p);
    if s.len() > 0 && p(s.last()) {
        let init = s.drop_last();
        lemma_drop_trailing_shape(init, p);
        let d = drop_trailing(init, p);
        assert(s.take(d.len() as int) =~= init.take(d.len() as int));
        assert forall|i: int| d.len() <= i < s.len() implies p(#[trigger] s[i]) by {
            if i < init.len() {
                assert(s[i] == init[i]);
            }
        }
    } else {
        assert(s.take(s.len() as int) =~= s);
    }
}

/// After a leading run is dropped, the text no longer starts with such a
/// character, and dropping again changes nothing.
pub proof fn lemma_drop_leading_done(s: Seq<char>, p: spec_fn(char) -> bool)
    ensures
        drop_leading(s, p).len() == 0 || !p(drop_leading(s, p)[0]),
        drop_leading(drop_leading(s, p), p) == drop_leading(s, p),
    decreases s.len(),
{
    if s.len() > 0 && p(s[0]) {
        lemma_drop_leading_done(s.drop_first(), p);
    }
}

/// There is always at least one piece.
pub proof fn lemma_split_on_nonempty(s: Seq<char>, sep: char)
    ensures
        split_on(s, sep).len() >= 1,
    decreases s.len(),
{
    if s.len() > 0 {
        lemma_split_on_nonempty(s.drop_last(), sep);
    }
}

/// Joining the pieces gives the text back.
pub proof fn lemma_join_split(s: Seq<char>, sep: char)
    ensures
        join_with(split_on(s, sep), sep) == s,
    decreases s.len(),
{
    if s.len() > 0 {
        let init = split_on(s.drop_last(), sep);
        lemma_split_on_nonempty(s.drop_last(), sep);
        lemma_join_split(s.drop_last(), sep);
        if s.last() == sep {
            let parts = init.push(Seq::<char>::empty());
            assert(parts.drop_last() =~= init);
            assert(s =~= s.drop_last().push(sep) + Seq::<char>::empty());
        } else {
            let parts = init.update(init.len() - 1, init.last().push(s.last()));
            if init.len() == 1 {
                assert(s =~= s.drop_last().push(s.last()));
            } else {
                assert(parts.drop_last() =~= init.drop_last());
                assert(s =~= s.drop_last().push(s.last()));
                assert(join_with(init, sep) == join_with(init.drop_last(), sep).push(sep)
                    + init.last());
                assert(join_with(parts, sep) == join_with(init.drop_last(), sep).push(sep)
                    + init.last().push(s.last()));
                assert(join_with(init.drop_last(), sep).push(sep) + init.last().push(s.last())
                    =~= (join_with(init.drop_last(), sep).push(sep) + init.last()).push(s.last()));
            }
        }
    }
}

/// No piece holds the separator.
pub proof fn lemma_split_pieces_free_of_sep(s: Seq<char>, sep: char)
    ensures
        forall|k: int, m: int|
            0 <= k < split_on(s, sep).len() && 0 <= m < split_on(s, sep)[k].len()
                ==> split_on(s, sep)[k][m] != sep,
    decreases s.len(),
{
    if s.len() > 0 {
        lemma_split_on_nonempty(s.drop_last(), sep);
        lemma_split_pieces_free_of_sep(s.drop_last(), sep);
    }
}

// ---------------------------------------------------------------------------
// Executable helpers
// ---------------------------------------------------------------------------

/// `String::push`. Claims: afterwards the string is its old characters
/// followed by `c`.
#[verifier::external_body]
fn push_char(s: &mut String, c: char)
    ensures
        final(s)@ == old(s)@.push(c),
{
    s.push(c);
}

/// The characters of a string slice, in order.
pub fn chars_of(s: &str) -> (r: Vec<char>)
    ensures
        r@ == s@,
{
    let mut r: Vec<char> = Vec::new();
    for c in it: s.chars()
        invariant
            r@ == it.seq().take(it.index() as int),
    {
        r.push(c);
    }
    r
}

/// The string made of `cs[from..to]`.
pub fn string_of_range(cs: &[char], from: usize, to: usize) -> (r: String)
    requires
        from <= to <= cs@.len(),
    ensures
        r@ == cs@.subrange(from as int, to as int),
{
    let mut r = String::new();
    let mut i: usize = from;
    while i < to
        invariant
            from <= i <= to <= cs@.len(),
            r@ == cs@.subrange(from as int, i as int),
        decreases to - i,
    {
        push_char(&mut r, cs[i]);
        assert(cs@.subrange(from as int, i + 1) =~= cs@.subrange(from as int, i as int).push(
            cs@[i as int],
        ));
        i = i + 1;
    }
    r
}

/// Appends `t` to `s`.
pub fn append_str(s: &mut String, t: &str)
    ensures
        final(s)@ == old(s)@ + t@,
{
    s.append(t);
}

/// Whether `c` is white space in the sense of `char::is_whitespace`.
pub fn is_white_space_char(c: char) -> (b: bool)
    ensures
        b == is_white_space(c),
{
    let n = c as u32;
    (0x09 <= n && n <= 0x0d) || n == 0x20 || n == 0x85 || n == 0xa0 || n == 0x1680 || (0x2000
        <= n && n <= 0x200a) || n == 0x2028 || n == 0x2029 || n == 0x202f || n == 0x205f || n
        == 0x3000
}

/// `s` with leading and trailing white space removed, as `str::trim` does.
pub fn trim_white_space(s: &str) -> (r: String)
    ensures
        r@ == trimmed(s@),
{
    let cs = chars_of(s);
    let n = cs.len();
    let ghost p = white_space();
    let mut i: usize = 0;
    assert(cs@.skip(0) =~= cs@);
    while i < n && is_white_space_char(cs[i])
        invariant
            i <= n == cs@.len(),
            p == white_space(),
            drop_leading(cs@, p) == drop_leading(cs@.skip(i as int), p),
        decreases n - i,
    {
        proof {
            lemma_drop_leading_skip(cs@, p, i as int);
        }
        i = i + 1;
    }
    let ghost lead = cs@.skip(i as int);
    assert(drop_leading(cs@, p) == lead) by {
        if i == n {
            assert(lead.len() == 0);
        }
    }
    let mut j: usize = n;
    assert(lead.take(n - i) =~= lead);
    while j > i && is_white_space_char(cs[j - 1])
        invariant
            i <= j <= n == cs@.len(),
            p == white_space(),
            lead == cs@.skip(i as int),
            drop_trailing(lead, p) == drop_trailing(lead.take(j - i), p),
        decreases j,
    {
        proof {
            assert(lead[j - i - 1] == cs@[j - 1]);
            lemma_drop_trailing_take(lead, p, j - i);
        }
        j = j - 1;
    }
    assert(drop_trailing(lead.take(j - i), p) == lead.take(j - i)) by {
        if j == i {
            assert(lead.take(0).len() == 0);
        } else {
            assert(lead.take(j - i).last() == cs@[j - 1]);
        }
    }
    assert(lead.take(j - i) =~= cs@.subrange(i as int, j as int));
    string_of_range(&cs, i, j)
}

/// `s` without its trailing occurrences of `c` (`str::trim_end_matches`
/// with a character pattern).
pub fn trim_end_char(s: &str, c: char) -> (r: String)
    ensures
        r@ == drop_trailing(s@, is_char(c)),
{
    let cs = chars_of(s);
    let n = cs.len();
    let ghost p = is_char(c);
    let mut j: usize = n;
    assert(cs@.take(n as int) =~= cs@);
    while j > 0 && cs[j - 1] == c
        invariant
            j <= n == cs@.len(),
            p == is_char(c),
            drop_trailing(cs@, p) == drop_trailing(cs@.take(j as int), p),
        decreases j,
    {
        proof {
            lemma_drop_trailing_take(cs@, p, j as int);
        }
        j = j - 1;
    }
    assert(drop_trailing(cs@.take(j as int), p) == cs@.take(j as int)) by {
        if j == 0 {
            assert(cs@.take(0).len() == 0);
        }
    }
    assert(cs@.take(j as int) =~= cs@.subrange(0, j as int));
    string_of_range(&cs, 0, j)
}

/// `s` without its leading occurrences of `c` (`str::trim_start_matches`
/// with a character pattern).
pub fn trim_start_char(s: &str, c: char) -> (r: String)
    ensures
        r@ == drop_leading(s@, is_char(c)),
{
    let cs = chars_of(s);
    let n = cs.len();
    let ghost p = is_char(c);
    let mut i: usize = 0;
    assert(cs@.skip(0) =~= cs@);
    while i < n && cs[i] == c
        invariant
            i <= n == cs@.len(),
            p == is_char(c),
            drop_leading(cs@, p) == drop_leading(cs@.skip(i as int), p),
        decreases n - i,
    {
        proof {
            lemma_drop_leading_skip(cs@, p, i as int);
        }
        i = i + 1;
    }
    assert(drop_leading(cs@.skip(i as int), p) == cs@.skip(i as int)) by {
        if i == n {
            assert(cs@.skip(i as int).len() == 0);
        }
    }
    assert(cs@.skip(i as int) =~= cs@.subrange(i as int, n as int));
    string_of_range(&cs, i, n)
}

/// The pieces of `s` between occurrences of `sep` (`str::split` with a
/// character pattern).
pub fn split_char(s: &str, sep: char) -> (r: Vec<String>)
    ensures
        r@.map_values(|p: String| p@) == split_on(s@, sep),
{
    let cs = chars_of(s);
    let n = cs.len();
    let mut parts: Vec<String> = Vec::new();
    let mut start: usize = 0;
    let mut i: usize = 0;
    assert(cs@.take(0) =~= Seq::<char>::empty());
    while i < n
        invariant
            start <= i <= n == cs@.len(),
            split_on(cs@.take(i as int), sep) == parts@.map_values(|p: String| p@).push(
                cs@.subrange(start as int, i as int),
            ),
        decreases n - i,
    {
        let ghost before = parts@.map_values(|p: String| p@);
        assert(cs@.take(i + 1).drop_last() =~= cs@.take(i as int));
        assert(cs@.take(i + 1).last() == cs@[i as int]);
        if cs[i] == sep {
            let piece = string_of_range(&cs, start, i);
            parts.push(piece);
            assert(parts@.map_values(|p: String| p@) =~= before.push(
                cs@.subrange(start as int, i as int),
            ));
            start = i + 1;
            assert(cs@.subrange(start as int, i + 1) =~= Seq::<char>::empty());
        } else {
            assert(cs@.subrange(start as int, i + 1) =~= cs@.subrange(start as int, i as int).push(
                cs@[i as int],
            ));
            assert(before.push(cs@.subrange(start as int, i as int)).update(
                before.len() as int,
                cs@.subrange(start as int, i + 1),
            ) =~= before.push(cs@.subrange(start as int, i + 1)));
        }
        i = i + 1;
    }
    let last = string_of_range(&cs, start, n);
    let ghost before = parts@.map_values(|p: String| p@);
    parts.push(last);
    assert(parts@.map_values(|p: String| p@) =~= before.push(cs@.subrange(start as int, n as int)));
    assert(cs@.take(n as int) =~= cs@);
    parts
}

/// The decimal rendering of `n`, as `u64`'s `Display` writes it.
pub fn decimal_string(n: u64) -> (r: String)
    ensures
        r@ == decimal(n as nat),
    decreases n,
{
    let d = digit_of(n % 10);
    if n < 10 {
        let mut r = String::new();
        push_char(&mut r, d);
        assert(r@ =~= seq![digit_char(n as nat)]);
        r
    } else {
        let mut r = decimal_string(n / 10);
        push_char(&mut r, d);
        r
    }
}

/// The digit character of `d < 10`.
fn digit_of(d: u64) -> (c: char)
    requires
        d < 10,
    ensures
        c == digit_char(d as nat),
{
    if d == 0 {
        '0'
    } else if d == 1 {
        '1'
    } else if d == 2 {
        '2'
    } else if d == 3 {
        '3'
    } else if d == 4 {
        '4'
    } else if d == 5 {
        '5'
    } else if d == 6 {
        '6'
    } else if d == 7 {
        '7'
    } else if d == 8 {
        '8'
    } else {
        '9'
    }
}

/// Whether two texts are equal.
pub fn same_text(a: &str, b: &str) -> (r: bool)
    ensures
        r == (a@ == b@),
{
    a.to_owned() == b.to_owned()
}

} // verus!
