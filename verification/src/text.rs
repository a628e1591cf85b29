//! Text as sequences of characters: white space, trimming, searching, lines.

use vstd::prelude::*;

verus! {

/// The characters of an optional string.
pub open spec fn text_of(s: Option<String>) -> Option<Seq<char>> {
    match s {
        Some(t) => Some(t@),
        None => None,
    }
}

/// Whether `c` is white space: the code points that Unicode gives the
/// property `White_Space`.
pub open spec fn is_whitespace(c: char) -> bool {
    let n = c as u32;
    ||| 0x09 <= n <= 0x0D
    ||| n == 0x20
    ||| n == 0x85
    ||| n == 0xA0
    ||| n == 0x1680
    ||| 0x2000 <= n <= 0x200A
    ||| n == 0x2028
    ||| n == 0x2029
    ||| n == 0x202F
    ||| n == 0x205F
    ||| n == 0x3000
}

/// `s` without its leading white space.
pub open spec fn trim_start(s: Seq<char>) -> Seq<char>
    decreases s.len(),
{
    if s.len() > 0 && is_whitespace(s[0]) {
        trim_start(s.drop_first())
    } else {
        s
    }
}

/// `s` without its trailing white space.
pub open spec fn trim_end(s: Seq<char>) -> Seq<char>
    decreases s.len(),
{
    if s.len() > 0 && is_whitespace(s.last()) {
        trim_end(s.drop_last())
    } else {
        s
    }
}

/// `s` without leading and trailing white space.
pub open spec fn trimmed(s: Seq<char>) -> Seq<char> {
    trim_end(trim_start(s))
}

/// The longest prefix of `s` that holds no white space.
pub open spec fn leading_word(s: Seq<char>) -> Seq<char>
    decreases s.len(),
{
    if s.len() > 0 && !is_whitespace(s[0]) {
        seq![s[0]].add(leading_word(s.drop_first()))
    } else {
        Seq::empty()
    }
}

/// Whether `a` stands at index `i` of `s`, directly followed by `b`.
pub open spec fn pair_at(s: Seq<char>, i: int, a: char, b: char) -> bool {
    0 <= i && i + 1 < s.len() && s[i] == a && s[i + 1] == b
}

/// The least index at or after `from` where `a` stands directly followed by
/// `b`, if there is one.
pub open spec fn first_pair_from(s: Seq<char>, a: char, b: char, from: int) -> Option<int>
    decreases s.len() - from,
{
    if from < 0 || from + 1 >= s.len() {
        None
    } else if s[from] == a && s[from + 1] == b {
        Some(from)
    } else {
        first_pair_from(s, a, b, from + 1)
    }
}

/// The least index of `s` where `a` stands directly followed by `b`.
pub open spec fn first_pair(s: Seq<char>, a: char, b: char) -> Option<int> {
    first_pair_from(s, a, b, 0)
}

/// The index of the first `c` at or after `from`; the length of `s` where
/// there is none.
pub open spec fn index_from(s: Seq<char>, c: char, from: int) -> int
    decreases s.len() - from,
{
    if from < 0 || from >= s.len() {
        s.len() as int
    } else if s[from] == c {
        from
    } else {
        index_from(s, c, from + 1)
    }
}

/// `s` with its line ends in one form: each carriage return that stands
/// directly before a line feed is left out, so that a line ends with the line
/// feed alone. Every other character stays, in its place.
pub open spec fn plain_line_ends(s: Seq<char>) -> Seq<char>
    decreases s.len(),
{
    if s.len() == 0 {
        s
    } else if s[0] == '\r' && s.len() > 1 && s[1] == '\n' {
        plain_line_ends(s.drop_first())
    } else {
        seq![s[0]].add(plain_line_ends(s.drop_first()))
    }
}

/// The search ends no earlier than it begins and no later than the text, at
/// a `c` unless the text ends first, and no `c` stands before its end.
pub proof fn lemma_index_from_bounds(s: Seq<char>, c: char, from: int)
    requires
        0 <= from <= s.len(),
    ensures
        from <= index_from(s, c, from) <= s.len(),
        index_from(s, c, from) < s.len() ==> s[index_from(s, c, from)] == c,
        forall|k: int| from <= k < index_from(s, c, from) ==> s[k] != c,
    decreases s.len() - from,
{
    if from < s.len() && s[from] != c {
        lemma_index_from_bounds(s, c, from + 1);
    }
}

/// Whether `c` is white space.
pub fn char_is_whitespace(c: char) -> (b: bool)
    ensures
        b == is_whitespace(c),
{
    let n: u32 = c as u32;
    (0x09 <= n && n <= 0x0D) || n == 0x20 || n == 0x85 || n == 0xA0 || n == 0x1680 || (0x2000 <= n
        && n <= 0x200A) || n == 0x2028 || n == 0x2029 || n == 0x202F || n == 0x205F || n == 0x3000
}

/// The characters of `s`.
pub fn chars_of(s: &str) -> (chars: Vec<char>)
    ensures
        chars@ == s@,
{
    let mut chars: Vec<char> = Vec::new();
    for c in it: s.chars()
        invariant
            chars@ == it.seq().take(it.index() as int),
            it.seq() == s@,
    {
        chars.push(c);
    }
    assert(chars@ =~= s@);
    chars
}

/// Appends one character to a string with `String::push`, which adds it at
/// the end and leaves what was there as it was.
#[verifier::external_body]
fn push_char(s: &mut String, c: char)
    ensures
        final(s)@ == old(s)@.push(c),
{
    s.push(c);
}

/// The string that holds the characters of `chars` from index `from` up to,
/// not including, index `to`.
pub fn string_of(chars: &Vec<char>, from: usize, to: usize) -> (s: String)
    requires
        from <= to <= chars.len(),
    ensures
        s@ == chars@.subrange(from as int, to as int),
{
    let mut s = String::new();
    let mut i: usize = from;
    while i < to
        invariant
            from <= i <= to <= chars.len(),
            s@ == chars@.subrange(from as int, i as int),
        decreases to - i,
    {
        push_char(&mut s, chars[i]);
        i += 1;
        assert(s@ =~= chars@.subrange(from as int, i as int));
    }
    s
}

/// Appends to `dst` the characters of `src` from index `from` up to, not
/// including, index `to`, with their line ends in one form.
pub fn append_plain_line_ends(dst: &mut Vec<char>, src: &Vec<char>, from: usize, to: usize)
    requires
        from <= to <= src.len(),
    ensures
        final(dst)@ == old(dst)@ + plain_line_ends(src@.subrange(from as int, to as int)),
{
    let ghost piece = src@.subrange(from as int, to as int);
    let mut i: usize = from;
    assert(piece.skip(0) =~= piece);
    assert(dst@ + plain_line_ends(piece) =~= old(dst)@ + plain_line_ends(piece));
    while i < to
        invariant
            from <= i <= to <= src.len(),
            piece == src@.subrange(from as int, to as int),
            old(dst)@ + plain_line_ends(piece) == dst@ + plain_line_ends(piece.skip(i - from)),
        decreases to - i,
    {
        let ghost rest = piece.skip(i - from);
        let ghost held = dst@;
        assert(rest.len() == to - i && rest[0] == src@[i as int]);
        assert(rest.drop_first() =~= piece.skip(i - from + 1));
        if src[i] == '\r' && to - i > 1 && src[i + 1] == '\n' {
            assert(rest[1] == src@[i as int + 1]);
        } else {
            dst.push(src[i]);
            assert(held + (seq![rest[0]] + plain_line_ends(rest.drop_first())) =~= held.push(
                rest[0],
            ) + plain_line_ends(rest.drop_first()));
        }
        i += 1;
    }
    assert(plain_line_ends(piece.skip(to - from)) =~= Seq::<char>::empty());
    assert(dst@ + Seq::<char>::empty() =~= dst@);
}

/// The least index at or after `from` where `a` stands directly followed by
/// `b`.
pub fn find_pair(s: &Vec<char>, a: char, b: char, from: usize) -> (found: Option<usize>)
    ensures
        match found {
            Some(i) => from <= i && pair_at(s@, i as int, a, b) && first_pair_from(
                s@,
                a,
                b,
                from as int,
            ) == Some(i as int),
            None => first_pair_from(s@, a, b, from as int) is None,
        },
{
    let mut i: usize = from;
    while i < s.len() && s.len() - i >= 2
        invariant
            from <= i,
            first_pair_from(s@, a, b, from as int) == first_pair_from(s@, a, b, i as int),
        decreases s.len() - i,
    {
        if s[i] == a && s[i + 1] == b {
            return Some(i);
        }
        i += 1;
    }
    None
}

/// The index of the first `c` at or after `from`; the length of `s` where
/// there is none.
pub fn find_char(s: &Vec<char>, c: char, from: usize) -> (end: usize)
    requires
        from <= s.len(),
    ensures
        end == index_from(s@, c, from as int),
        from <= end <= s.len(),
{
    let mut end: usize = from;
    while end < s.len() && s[end] != c
        invariant
            from <= end <= s.len(),
            index_from(s@, c, from as int) == index_from(s@, c, end as int),
        decreases s.len() - end,
    {
        end += 1;
    }
    end
}

/// The bounds of the first word of `s`: where its leading white space ends,
/// and where the run of other characters that begins there ends.
pub fn first_word_range(s: &Vec<char>) -> (bounds: (usize, usize))
    ensures
        bounds.0 <= bounds.1 <= s.len(),
        s@.subrange(bounds.0 as int, bounds.1 as int) == leading_word(trim_start(s@)),
{
    let mut start: usize = 0;
    assert(s@.skip(0) =~= s@);
    while start < s.len() && char_is_whitespace(s[start])
        invariant
            start <= s.len(),
            trim_start(s@) == trim_start(s@.skip(start as int)),
        decreases s.len() - start,
    {
        assert(s@.skip(start as int).drop_first() =~= s@.skip(start as int + 1));
        start += 1;
    }
    assert(trim_start(s@.skip(start as int)) == s@.skip(start as int));
    let mut end: usize = start;
    assert(s@.subrange(start as int, end as int) =~= Seq::<char>::empty());
    while end < s.len() && !char_is_whitespace(s[end])
        invariant
            start <= end <= s.len(),
            leading_word(s@.skip(start as int)) == s@.subrange(start as int, end as int)
                + leading_word(s@.skip(end as int)),
        decreases s.len() - end,
    {
        assert(s@.skip(end as int).drop_first() =~= s@.skip(end as int + 1));
        assert(s@.subrange(start as int, end as int) + seq![s@[end as int]] =~= s@.subrange(
            start as int,
            end as int + 1,
        ));
        assert(s@.subrange(start as int, end as int) + (seq![s@[end as int]] + leading_word(
            s@.skip(end as int + 1),
        )) =~= s@.subrange(start as int, end as int + 1) + leading_word(s@.skip(end as int + 1)));
        end += 1;
    }
    assert(leading_word(s@.skip(end as int)) =~= Seq::<char>::empty());
    assert(s@.subrange(start as int, end as int) + Seq::<char>::empty() =~= s@.subrange(
        start as int,
        end as int,
    ));
    (start, end)
}

/// The bounds of `s[from..to]` without its leading and trailing white space:
/// the indices where what is left begins and ends.
pub fn trim_range(s: &Vec<char>, from: usize, to: usize) -> (bounds: (usize, usize))
    requires
        from <= to <= s.len(),
    ensures
        from <= bounds.0 <= bounds.1 <= to,
        s@.subrange(bounds.0 as int, bounds.1 as int) == trimmed(s@.subrange(from as int, to as int)),
{
    let mut start: usize = from;
    while start < to && char_is_whitespace(s[start])
        invariant
            from <= start <= to <= s.len(),
            trim_start(s@.subrange(from as int, to as int)) == trim_start(
                s@.subrange(start as int, to as int),
            ),
        decreases to - start,
    {
        assert(s@.subrange(start as int, to as int).drop_first() =~= s@.subrange(
            start as int + 1,
            to as int,
        ));
        start += 1;
    }
    assert(trim_start(s@.subrange(start as int, to as int)) == s@.subrange(start as int, to as int));
    let mut end: usize = to;
    while start < end && char_is_whitespace(s[end - 1])
        invariant
            start <= end <= to <= s.len(),
            trim_end(s@.subrange(start as int, to as int)) == trim_end(
                s@.subrange(start as int, end as int),
            ),
        decreases end - start,
    {
        assert(s@.subrange(start as int, end as int).drop_last() =~= s@.subrange(
            start as int,
            end as int - 1,
        ));
        end -= 1;
    }
    assert(trim_end(s@.subrange(start as int, end as int)) == s@.subrange(start as int, end as int));
    (start, end)
}

/// The string that holds `s` without its leading and trailing white space.
pub fn trimmed_string(s: &Vec<char>) -> (t: String)
    ensures
        t@ == trimmed(s@),
{
    let (start, end) = trim_range(s, 0, s.len());
    assert(s@.subrange(0, s.len() as int) =~= s@);
    string_of(s, start, end)
}

/// What the search for a pair finds is the least index at or after `from`
/// where the pair stands; it finds nothing only where the pair stands
/// nowhere from there on.
pub proof fn lemma_first_pair_from(s: Seq<char>, a: char, b: char, from: int)
    requires
        0 <= from,
    ensures
        match first_pair_from(s, a, b, from) {
            Some(k) => from <= k && pair_at(s, k, a, b) && forall|j: int|
                from <= j < k ==> !pair_at(s, j, a, b),
            None => forall|j: int| from <= j ==> !pair_at(s, j, a, b),
        },
    decreases s.len() - from,
{
    if from + 1 < s.len() && !(s[from] == a && s[from + 1] == b) {
        lemma_first_pair_from(s, a, b, from + 1);
    }
}

/// The converse: where the pair stands at `k`, and nowhere from `from` up to
/// `k`, the search from `from` finds `k`.
pub proof fn lemma_first_pair_is(s: Seq<char>, a: char, b: char, from: int, k: int)
    requires
        0 <= from <= k,
        pair_at(s, k, a, b),
        forall|j: int| from <= j < k ==> !pair_at(s, j, a, b),
    ensures
        first_pair_from(s, a, b, from) == Some(k),
{
    lemma_first_pair_from(s, a, b, from);
}

/// A text without carriage returns has its line ends in one form already.
pub proof fn lemma_plain_line_ends_without_cr(s: Seq<char>)
    requires
        forall|k: int| 0 <= k < s.len() ==> s[k] != '\r',
    ensures
        plain_line_ends(s) == s,
    decreases s.len(),
{
    if s.len() > 0 {
        let rest = s.drop_first();
        assert forall|k: int| 0 <= k < rest.len() implies rest[k] != '\r' by {
            assert(rest[k] == s[k + 1]);
        }
        lemma_plain_line_ends_without_cr(rest);
        assert(seq![s[0]] + rest =~= s);
    }
}

} // verus!
