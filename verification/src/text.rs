//! Text as sequences of characters: searching, trimming and splitting.

use vstd::prelude::*;
use vstd::utf8::{char_is_scalar, encode_scalar};

verus! {

/// `needle` stands in `hay` at index `i`.
pub open spec fn occurs_at(hay: Seq<char>, needle: Seq<char>, i: int) -> bool {
    0 <= i && i + needle.len() <= hay.len() && hay.subrange(i, i + needle.len()) == needle
}

/// `needle` stands somewhere in `hay`.
pub open spec fn contains_text(hay: Seq<char>, needle: Seq<char>) -> bool {
    exists|i: int| occurs_at(hay, needle, i)
}

/// `hay` begins with `needle`.
pub open spec fn starts_with_text(hay: Seq<char>, needle: Seq<char>) -> bool {
    occurs_at(hay, needle, 0)
}

/// `hay` ends with `needle`.
pub open spec fn ends_with_text(hay: Seq<char>, needle: Seq<char>) -> bool {
    occurs_at(hay, needle, hay.len() - needle.len())
}

/// `i` is the first index at which `needle` stands in `hay`.
pub open spec fn first_occurrence(hay: Seq<char>, needle: Seq<char>, i: int) -> bool {
    occurs_at(hay, needle, i) && forall|j: int| 0 <= j < i ==> !occurs_at(hay, needle, j)
}

/// The first index at which `needle` stands in `hay`, where it stands in
/// it at all.
pub open spec fn first_index(hay: Seq<char>, needle: Seq<char>) -> int {
    choose|i: int| first_occurrence(hay, needle, i)
}

/// There is one first occurrence at most.
pub proof fn lemma_first_index(hay: Seq<char>, needle: Seq<char>, i: int)
    requires
        first_occurrence(hay, needle, i),
    ensures
        i == first_index(hay, needle),
        contains_text(hay, needle),
{
}

/// The contents of a sequence of character vectors.
pub open spec fn rows(v: Seq<Vec<char>>) -> Seq<Seq<char>> {
    Seq::new(v.len(), |i: int| v[i]@)
}

/// Appending a vector appends its contents.
pub proof fn lemma_rows_push(v: Seq<Vec<char>>, x: Vec<char>)
    ensures
        rows(v.push(x)) == rows(v).push(x@),
{
}

/// The characters of a string, in order.
pub fn chars_of(s: &str) -> (r: Vec<char>)
    ensures
        r@ == s@,
{
    let mut v: Vec<char> = Vec::new();
    for c in it: s.chars()
        invariant
            it.seq() == s@,
            v@ == it.seq().take(it.index()),
    {
        v.push(c);
    }
    v
}

/// `String::from_iter` over characters: the string that holds exactly
/// the given characters, in their order.
#[verifier::external_body]
pub(crate) fn string_of(chars: &Vec<char>) -> (r: String)
    ensures
        r@ == chars@,
{
    String::from_iter(chars)
}

/// The upper-case form of a text, as Unicode defines it.
pub uninterp spec fn uppercase(s: Seq<char>) -> Seq<char>;

/// `str::to_uppercase`: the upper-case equivalent of the text, a function
/// of the text alone.
#[verifier::external_body]
pub(crate) fn to_uppercase(s: &str) -> (r: String)
    ensures
        r@ == uppercase(s@),
{
    s.to_uppercase()
}

/// A copy of the characters from index `from` up to, not including, `to`.
pub fn slice_of(chars: &Vec<char>, from: usize, to: usize) -> (r: Vec<char>)
    requires
        from <= to <= chars.len(),
    ensures
        r@ == chars@.subrange(from as int, to as int),
{
    let mut out: Vec<char> = Vec::new();
    let mut i: usize = from;
    while i < to
        invariant
            from <= i <= to <= chars.len(),
            out@ == chars@.subrange(from as int, i as int),
        decreases to - i,
    {
        out.push(chars[i]);
        i += 1;
    }
    out
}

/// Whether `needle` stands in `hay` at index `i`.
pub fn matches_at(hay: &Vec<char>, needle: &Vec<char>, i: usize) -> (r: bool)
    ensures
        r == occurs_at(hay@, needle@, i as int),
{
    if needle.len() > hay.len() || i > hay.len() - needle.len() {
        return false;
    }
    let mut j: usize = 0;
    while j < needle.len()
        invariant
            j <= needle.len(),
            i + needle.len() <= hay.len(),
            forall|k: int| 0 <= k < j ==> hay@[i + k] == needle@[k],
        decreases needle.len() - j,
    {
        if hay[i + j] != needle[j] {
            return false;
        }
        j += 1;
    }
    assert(hay@.subrange(i as int, i + needle@.len()) =~= needle@);
    true
}

/// The first index at which `needle` stands in `hay`.
pub fn find_text(hay: &Vec<char>, needle: &Vec<char>) -> (r: Option<usize>)
    ensures
        match r {
            Some(i) => first_occurrence(hay@, needle@, i as int) && i == first_index(
                hay@,
                needle@,
            ),
            None => !contains_text(hay@, needle@),
        },
{
    if needle.len() > hay.len() {
        return None;
    }
    let last: usize = hay.len() - needle.len();
    let mut i: usize = 0;
    loop
        invariant
            i <= last,
            last == hay.len() - needle.len(),
            forall|j: int| 0 <= j < i ==> !occurs_at(hay@, needle@, j),
        decreases last - i,
    {
        if matches_at(hay, needle, i) {
            proof {
                lemma_first_index(hay@, needle@, i as int);
            }
            return Some(i);
        }
        if i == last {
            return None;
        }
        i += 1;
    }
}

/// Whether `needle` stands somewhere in `hay`.
pub fn contains(hay: &Vec<char>, needle: &str) -> (r: bool)
    ensures
        r == contains_text(hay@, needle@),
{
    let n = chars_of(needle);
    find_text(hay, &n).is_some()
}

/// Whether `hay` begins with `needle`.
pub fn starts_with(hay: &Vec<char>, needle: &str) -> (r: bool)
    ensures
        r == starts_with_text(hay@, needle@),
{
    let n = chars_of(needle);
    matches_at(hay, &n, 0)
}

/// Whether `hay` ends with `needle`.
pub fn ends_with(hay: &Vec<char>, needle: &str) -> (r: bool)
    ensures
        r == ends_with_text(hay@, needle@),
{
    let n = chars_of(needle);
    if n.len() > hay.len() {
        return false;
    }
    matches_at(hay, &n, hay.len() - n.len())
}

/// The characters that are cut from the two ends of a text.
#[derive(Debug, Clone, Copy, PartialEq, Eq, Structural)]
pub enum Trim {
    /// Double quote, single quote and backtick.
    Quotes,
    /// Unicode white space.
    Whitespace,
}

/// A quote character of script source text.
pub open spec fn is_quote(c: char) -> bool {
    c == '"' || c == '\'' || c == '`'
}

/// A character with the Unicode property White_Space.
pub open spec fn is_space(c: char) -> bool {
    let u = c as u32;
    ||| 0x09 <= u <= 0x0D
    ||| u == 0x20
    ||| u == 0x85
    ||| u == 0xA0
    ||| u == 0x1680
    ||| 0x2000 <= u <= 0x200A
    ||| u == 0x2028
    ||| u == 0x2029
    ||| u == 0x202F
    ||| u == 0x205F
    ||| u == 0x3000
}

impl Trim {
    /// Whether `c` is among the characters that are cut.
    pub open spec fn cuts(self, c: char) -> bool {
        match self {
            Trim::Quotes => is_quote(c),
            Trim::Whitespace => is_space(c),
        }
    }

    /// Whether `c` is among the characters that are cut.
    pub fn cuts_char(self, c: char) -> (r: bool)
        ensures
            r == self.cuts(c),
    {
        match self {
            Trim::Quotes => c == '"' || c == '\'' || c == '`',
            Trim::Whitespace => {
                let u: u32 = c as u32;
                (0x09 <= u && u <= 0x0D) || u == 0x20 || u == 0x85 || u == 0xA0 || u == 0x1680 || (
                0x2000 <= u && u <= 0x200A) || u == 0x2028 || u == 0x2029 || u == 0x202F || u
                    == 0x205F || u == 0x3000
            },
        }
    }
}

/// How many characters at the start of `s` are cut.
pub open spec fn leading(s: Seq<char>, t: Trim) -> nat
    decreases s.len(),
{
    if s.len() > 0 && t.cuts(s[0]) {
        1 + leading(s.drop_first(), t)
    } else {
        0
    }
}

/// How many characters at the end of `s` are cut.
pub open spec fn trailing(s: Seq<char>, t: Trim) -> nat
    decreases s.len(),
{
    if s.len() > 0 && t.cuts(s.last()) {
        1 + trailing(s.drop_last(), t)
    } else {
        0
    }
}

/// `s` without the characters that `t` cuts from its two ends.
pub open spec fn trimmed(s: Seq<char>, t: Trim) -> Seq<char> {
    let rest = s.skip(leading(s, t) as int);
    rest.take(rest.len() - trailing(rest, t))
}

/// `s` without the characters that `t` cuts from its two ends.
pub fn trim(s: &Vec<char>, t: Trim) -> (r: Vec<char>)
    ensures
        r@ == trimmed(s@, t),
{
    let n = s.len();
    let mut a: usize = 0;
    assert(s@.skip(0) == s@);
    while a < n && t.cuts_char(s[a])
        invariant
            a <= n == s.len(),
            leading(s@, t) == a + leading(s@.skip(a as int), t),
        decreases n - a,
    {
        assert(s@.skip(a as int).drop_first() == s@.skip(a + 1));
        a += 1;
    }
    let ghost rest = s@.skip(a as int);
    let mut b: usize = n;
    while b > a && t.cuts_char(s[b - 1])
        invariant
            a <= b <= n == s.len(),
            rest == s@.skip(a as int),
            trailing(rest, t) == (n - b) + trailing(s@.subrange(a as int, b as int), t),
        decreases b,
    {
        assert(s@.subrange(a as int, b as int).drop_last() == s@.subrange(a as int, b - 1));
        b -= 1;
    }
    slice_of(s, a, b)
}

/// The index of the first `c` in `s`, or the length of `s` where there
/// is none.
pub open spec fn index_of(s: Seq<char>, c: char) -> nat
    decreases s.len(),
{
    if s.len() == 0 || s[0] == c {
        0
    } else {
        1 + index_of(s.drop_first(), c)
    }
}

/// An index with no `c` before it, and with `c` at it unless it is the
/// length, is the one `index_of` finds.
pub proof fn lemma_index_of_is(s: Seq<char>, c: char, n: int)
    requires
        0 <= n <= s.len(),
        forall|k: int| 0 <= k < n ==> s[k] != c,
        n < s.len() ==> s[n] == c,
    ensures
        index_of(s, c) == n,
    decreases s.len(),
{
    if s.len() > 0 && s[0] != c {
        let rest = s.drop_first();
        assert forall|k: int| 0 <= k < n - 1 implies rest[k] != c by {}
        lemma_index_of_is(rest, c, n - 1);
    }
}

/// The pieces of `s` between occurrences of `sep`; a text without `sep`
/// is one piece.
pub open spec fn split(s: Seq<char>, sep: char) -> Seq<Seq<char>>
    decreases s.len(),
{
    let i = index_of(s, sep);
    if i >= s.len() {
        seq![s]
    } else {
        seq![s.take(i as int)] + split(s.skip(i as int + 1), sep)
    }
}

/// `line` without a carriage return at its end.
pub open spec fn without_cr(line: Seq<char>) -> Seq<char> {
    if line.len() > 0 && line.last() == '\r' {
        line.drop_last()
    } else {
        line
    }
}

/// The lines of `s`: it is cut after each line feed, and a line that a
/// line feed ends loses the line feed and a carriage return before it.
/// A text that ends in a line feed has no empty line after it.
pub open spec fn lines(s: Seq<char>) -> Seq<Seq<char>>
    decreases s.len(),
{
    if s.len() == 0 {
        seq![]
    } else {
        let i = index_of(s, '\n');
        if i >= s.len() {
            seq![s]
        } else {
            seq![without_cr(s.take(i as int))] + lines(s.skip(i as int + 1))
        }
    }
}

/// The index of the first `c` at or after `from`, or the length.
pub fn next_index_of(s: &Vec<char>, c: char, from: usize) -> (r: usize)
    requires
        from <= s.len(),
    ensures
        from <= r <= s.len(),
        r - from == index_of(s@.skip(from as int), c),
{
    let mut j: usize = from;
    while j < s.len() && s[j] != c
        invariant
            from <= j <= s.len(),
            forall|k: int| from <= k < j ==> s@[k] != c,
        decreases s.len() - j,
    {
        j += 1;
    }
    proof {
        lemma_index_of_is(s@.skip(from as int), c, j - from);
    }
    j
}

/// The pieces of `s` between occurrences of `sep`.
pub fn split_on(s: &Vec<char>, sep: char) -> (r: Vec<Vec<char>>)
    ensures
        rows(r@) == split(s@, sep),
{
    let mut out: Vec<Vec<char>> = Vec::new();
    let mut start: usize = 0;
    assert(s@.skip(0) == s@);
    loop
        invariant
            start <= s.len(),
            split(s@, sep) == rows(out@) + split(s@.skip(start as int), sep),
        decreases s.len() - start,
    {
        let j = next_index_of(s, sep, start);
        let ghost before = rows(out@);
        let ghost rest = s@.skip(start as int);
        let piece = slice_of(s, start, j);
        proof {
            lemma_rows_push(out@, piece);
        }
        out.push(piece);
        if j == s.len() {
            return out;
        }
        proof {
            assert(rest.take(j - start) == piece@);
            assert(rest.skip(j - start + 1) == s@.skip(j + 1));
            assert(before + (seq![piece@] + split(s@.skip(j + 1), sep)) == before.push(piece@)
                + split(s@.skip(j + 1), sep));
        }
        start = j + 1;
    }
}

/// The lines of `s`.
pub fn lines_of(s: &Vec<char>) -> (r: Vec<Vec<char>>)
    ensures
        rows(r@) == lines(s@),
{
    let mut out: Vec<Vec<char>> = Vec::new();
    let mut start: usize = 0;
    assert(s@.skip(0) == s@);
    while start < s.len()
        invariant
            start <= s.len(),
            lines(s@) == rows(out@) + lines(s@.skip(start as int)),
        decreases s.len() - start,
    {
        let j = next_index_of(s, '\n', start);
        let ghost before = rows(out@);
        let ghost rest = s@.skip(start as int);
        if j == s.len() {
            let piece = slice_of(s, start, j);
            proof {
                lemma_rows_push(out@, piece);
            }
            out.push(piece);
            start = j;
        } else {
            let end: usize = if j > start && s[j - 1] == '\r' {
                j - 1
            } else {
                j
            };
            let piece = slice_of(s, start, end);
            proof {
                lemma_rows_push(out@, piece);
            }
            out.push(piece);
            proof {
                assert(without_cr(rest.take(j - start)) == piece@);
                assert(rest.skip(j - start + 1) == s@.skip(j + 1));
                assert(before + (seq![piece@] + lines(s@.skip(j + 1))) == before.push(piece@)
                    + lines(s@.skip(j + 1)));
            }
            start = j + 1;
        }
    }
    out
}

/// The number of bytes that encode `c` in UTF-8.
pub open spec fn width(c: char) -> nat {
    encode_scalar(c as u32).len()
}

/// How many characters of `s` begin before byte offset `b` of its UTF-8
/// encoding.
pub open spec fn chars_before(s: Seq<char>, b: int) -> nat
    decreases s.len(),
{
    if s.len() == 0 || b <= 0 {
        0
    } else {
        1 + chars_before(s.drop_first(), b - width(s[0]))
    }
}

/// No more characters begin before an offset than the text has.
pub proof fn lemma_chars_before_bound(s: Seq<char>, b: int)
    ensures
        chars_before(s, b) <= s.len(),
    decreases s.len(),
{
    if s.len() > 0 && b > 0 {
        lemma_chars_before_bound(s.drop_first(), b - width(s[0]));
    }
}

/// The number of bytes that encode `c` in UTF-8.
pub fn width_of(c: char) -> (r: usize)
    ensures
        r == width(c),
        1 <= r <= 4,
{
    proof {
        char_is_scalar(c);
    }
    let u: u32 = c as u32;
    if u < 0x80 {
        1
    } else if u < 0x800 {
        2
    } else if u < 0x10000 {
        3
    } else {
        4
    }
}

/// The byte offset at which character `i` of `s` begins in the UTF-8
/// encoding of `s`.
pub open spec fn byte_offset(s: Seq<char>, i: int) -> nat
    decreases i,
{
    if i <= 0 {
        0
    } else {
        byte_offset(s, i - 1) + width(s[i - 1])
    }
}

/// The characters before one that begins at or before byte offset `b`
/// all begin before `b`.
pub proof fn lemma_chars_before_from(s: Seq<char>, b: int, i: int)
    requires
        0 <= i <= s.len(),
        byte_offset(s, i) <= b,
    ensures
        chars_before(s, b) == i + chars_before(s.skip(i), b - byte_offset(s, i)),
    decreases i,
{
    if i == 0 {
        assert(s.skip(0) == s);
    } else {
        lemma_chars_before_from(s, b, i - 1);
        let rest = s.skip(i - 1);
        assert(rest.drop_first() == s.skip(i));
        vstd::utf8::char_is_scalar(s[i - 1]);
    }
}

/// Where a search for a byte offset has got to: a character and the byte
/// offset at which it begins.
#[derive(Debug, Clone, Copy)]
pub struct Cursor {
    pub index: usize,
    pub offset: usize,
}

impl Cursor {
    /// The cursor stands at a character of `s`, or at its end, with the
    /// byte offset of that place.
    pub open spec fn within(self, s: Seq<char>) -> bool {
        self.index <= s.len() && self.offset == byte_offset(s, self.index as int)
    }

    /// The cursor at the start of every text.
    pub fn start() -> (r: Self)
        ensures
            r.index == 0,
            r.offset == 0,
    {
        Cursor { index: 0, offset: 0 }
    }
}

/// How many characters of `s` begin before byte offset `b`, found by
/// going on from a cursor that stands at or before `b`; and the cursor
/// at which the search ended, which stands at or before `b` too.
pub fn seek(s: &Vec<char>, from: Cursor, b: usize) -> (r: (usize, Cursor))
    requires
        from.within(s@),
        from.offset <= b,
    ensures
        r.0 == chars_before(s@, b as int),
        r.0 <= s.len(),
        r.1.within(s@),
        from.offset <= r.1.offset <= b,
{
    let mut i: usize = from.index;
    let mut off: usize = from.offset;
    proof {
        lemma_chars_before_from(s@, b as int, i as int);
        lemma_chars_before_bound(s@, b as int);
    }
    while i < s.len() && off < b
        invariant
            i <= s.len(),
            off == byte_offset(s@, i as int),
            from.offset <= off <= b,
            chars_before(s@, b as int) == i + chars_before(s@.skip(i as int), b - off),
            chars_before(s@, b as int) <= s.len(),
        decreases s.len() - i,
    {
        let w = width_of(s[i]);
        proof {
            let rest = s@.skip(i as int);
            assert(rest.drop_first() == s@.skip(i + 1));
        }
        if w > b - off {
            assert(chars_before(s@.skip(i + 1), b - off - w) == 0);
            return (i + 1, Cursor { index: i, offset: off });
        }
        off += w;
        i += 1;
    }
    (i, Cursor { index: i, offset: off })
}

/// How many characters of `s` begin before byte offset `b`.
pub fn char_index(s: &Vec<char>, b: usize) -> (r: usize)
    ensures
        r == chars_before(s@, b as int),
        r <= s.len(),
{
    seek(s, Cursor::start(), b).0
}

/// How two texts stand to each other in dictionary order.
#[derive(Debug, Clone, Copy, PartialEq, Eq, Structural)]
pub enum Rank {
    Before,
    Same,
    After,
}

/// `a` comes before `b` in dictionary order by code point.
pub open spec fn lex_lt(a: Seq<char>, b: Seq<char>) -> bool
    decreases a.len(),
{
    if b.len() == 0 {
        false
    } else if a.len() == 0 {
        true
    } else if a[0] == b[0] {
        lex_lt(a.drop_first(), b.drop_first())
    } else {
        (a[0] as u32) < (b[0] as u32)
    }
}

/// Each text comes before all that follow it.
pub open spec fn strictly_sorted(s: Seq<Seq<char>>) -> bool {
    forall|i: int, j: int| 0 <= i < j < s.len() ==> lex_lt(s[i], s[j])
}

/// No text comes before itself.
pub proof fn lemma_lex_irreflexive(a: Seq<char>)
    ensures
        !lex_lt(a, a),
    decreases a.len(),
{
    if a.len() > 0 {
        lemma_lex_irreflexive(a.drop_first());
    }
}

/// Dictionary order is transitive.
pub proof fn lemma_lex_transitive(a: Seq<char>, b: Seq<char>, c: Seq<char>)
    requires
        lex_lt(a, b),
        lex_lt(b, c),
    ensures
        lex_lt(a, c),
    decreases a.len(),
{
    if a.len() > 0 && a[0] == b[0] && b[0] == c[0] {
        lemma_lex_transitive(a.drop_first(), b.drop_first(), c.drop_first());
    }
}

/// How `a` stands to `b` in dictionary order.
pub fn rank(a: &Vec<char>, b: &Vec<char>) -> (r: Rank)
    ensures
        r == Rank::Before <==> lex_lt(a@, b@),
        r == Rank::Same <==> a@ == b@,
        r == Rank::After <==> lex_lt(b@, a@),
{
    let mut i: usize = 0;
    assert(a@.skip(0) == a@ && b@.skip(0) == b@);
    while i < a.len() && i < b.len() && a[i] == b[i]
        invariant
            i <= a.len(),
            i <= b.len(),
            a@.take(i as int) == b@.take(i as int),
            lex_lt(a@, b@) == lex_lt(a@.skip(i as int), b@.skip(i as int)),
            lex_lt(b@, a@) == lex_lt(b@.skip(i as int), a@.skip(i as int)),
        decreases a.len() - i,
    {
        proof {
            assert(a@.skip(i as int).drop_first() == a@.skip(i + 1));
            assert(b@.skip(i as int).drop_first() == b@.skip(i + 1));
        }
        i += 1;
    }
    proof {
        if i == a.len() && i == b.len() {
            lemma_lex_irreflexive(a@);
        } else if i < a.len() && i < b.len() {
            if (a@[i as int] as u32) == (b@[i as int] as u32) {
                vstd::utf8::char_u32_cast(a@[i as int], a@[i as int] as u32);
                vstd::utf8::char_u32_cast(b@[i as int], b@[i as int] as u32);
            }
        }
    }
    if i == a.len() {
        if i == b.len() {
            Rank::Same
        } else {
            Rank::Before
        }
    } else if i == b.len() {
        Rank::After
    } else if (a[i] as u32) < (b[i] as u32) {
        Rank::Before
    } else {
        Rank::After
    }
}

/// Inserting a vector inserts its contents.
pub proof fn lemma_rows_insert(v: Seq<Vec<char>>, p: int, x: Vec<char>)
    requires
        0 <= p <= v.len(),
    ensures
        rows(v.insert(p, x)) == rows(v).insert(p, x@),
{
}

/// Puts `item` at its place in a sorted list of distinct texts, unless
/// the list holds it already.
pub fn insert_sorted(out: &mut Vec<Vec<char>>, item: Vec<char>)
    requires
        strictly_sorted(rows(old(out)@)),
    ensures
        strictly_sorted(rows(final(out)@)),
        forall|u: Seq<char>|
            rows(final(out)@).contains(u) <==> (rows(old(out)@).contains(u) || u == item@),
{
    let ghost before = rows(out@);
    let mut p: usize = 0;
    let mut found: bool = false;
    while p < out.len() && !found
        invariant
            p <= out.len(),
            *out == *old(out),
            before == rows(out@),
            strictly_sorted(before),
            forall|j: int| 0 <= j < p ==> lex_lt(before[j], item@),
            found ==> p < out.len() && lex_lt(item@, before[p as int]),
        decreases out.len() - p + (if found { 0int } else { 1int }),
    {
        match rank(&out[p], &item) {
            Rank::Before => {
                p += 1;
            },
            Rank::Same => {
                assert(before[p as int] == item@);
                return ;
            },
            Rank::After => {
                found = true;
            },
        }
    }
    proof {
        lemma_rows_insert(out@, p as int, item);
    }
    out.insert(p, item);
    proof {
        let after = rows(out@);
        assert forall|i: int, j: int| 0 <= i < j < after.len() implies lex_lt(
            after[i],
            after[j],
        ) by {
            if i == p && j - 1 > p {
                lemma_lex_transitive(item@, before[p as int], before[j - 1]);
            }
        }
        assert forall|u: Seq<char>| after.contains(u) <==> (before.contains(u) || u == item@) by {
            if before.contains(u) {
                let k = choose|k: int| 0 <= k < before.len() && before[k] == u;
                if k < p {
                    assert(after[k] == u);
                } else {
                    assert(after[k + 1] == u);
                }
            }
            if u == item@ {
                assert(after[p as int] == u);
            }
        }
    }
}

/// Every member of a sorted list but the first comes after the first.
proof fn lemma_tail_members(a: Seq<Seq<char>>, u: Seq<char>)
    requires
        strictly_sorted(a),
        a.len() > 0,
    ensures
        a.drop_first().contains(u) <==> (a.contains(u) && u != a[0]),
        strictly_sorted(a.drop_first()),
{
    let tail = a.drop_first();
    if tail.contains(u) {
        let k = choose|k: int| 0 <= k < tail.len() && tail[k] == u;
        assert(a[k + 1] == u);
        assert(lex_lt(a[0], a[k + 1]));
        lemma_lex_irreflexive(a[0]);
    }
    if a.contains(u) && u != a[0] {
        let k = choose|k: int| 0 <= k < a.len() && a[k] == u;
        assert(tail[k - 1] == u);
    }
    assert forall|i: int, j: int| 0 <= i < j < tail.len() implies lex_lt(tail[i], tail[j]) by {
        assert(tail[i] == a[i + 1] && tail[j] == a[j + 1]);
    }
}

/// Two sorted lists of distinct texts with the same members are the same
/// list.
pub proof fn lemma_sorted_unique(a: Seq<Seq<char>>, b: Seq<Seq<char>>)
    requires
        strictly_sorted(a),
        strictly_sorted(b),
        forall|u: Seq<char>| a.contains(u) <==> b.contains(u),
    ensures
        a == b,
    decreases a.len(),
{
    if a.len() == 0 {
        if b.len() > 0 {
            assert(b.contains(b[0]));
        }
    } else if b.len() == 0 {
        assert(a.contains(a[0]));
    } else {
        assert(a.contains(a[0]) && b.contains(b[0]));
        let j = choose|j: int| 0 <= j < b.len() && b[j] == a[0];
        let i = choose|i: int| 0 <= i < a.len() && a[i] == b[0];
        if j > 0 {
            if i > 0 {
                lemma_lex_transitive(a[0], b[0], a[0]);
            }
            lemma_lex_irreflexive(a[0]);
        }
        assert forall|u: Seq<char>| a.drop_first().contains(u) <==> b.drop_first().contains(
            u,
        ) by {
            lemma_tail_members(a, u);
            lemma_tail_members(b, u);
        }
        lemma_tail_members(a, a[0]);
        lemma_tail_members(b, b[0]);
        lemma_sorted_unique(a.drop_first(), b.drop_first());
        assert(a =~= seq![a[0]] + a.drop_first());
    }
}

/// Where a character is not cut, the cutting from either end stops.
pub proof fn lemma_cut_stops(s: Seq<char>, t: Trim, k: int)
    requires
        0 <= k < s.len(),
        !t.cuts(s[k]),
    ensures
        leading(s, t) <= k,
        trailing(s, t) <= s.len() - 1 - k,
    decreases s.len(),
{
    if k > 0 && t.cuts(s[0]) {
        lemma_cut_stops(s.drop_first(), t, k - 1);
    }
    if k < s.len() - 1 && t.cuts(s.last()) {
        lemma_cut_stops(s.drop_last(), t, k);
    }
}

/// A text that holds a character that is not cut does not trim to
/// nothing.
pub proof fn lemma_trimmed_nonempty(s: Seq<char>, t: Trim, k: int)
    requires
        0 <= k < s.len(),
        !t.cuts(s[k]),
    ensures
        trimmed(s, t).len() > 0,
{
    lemma_cut_stops(s, t, k);
    let a = leading(s, t) as int;
    let rest = s.skip(a);
    lemma_cut_stops(rest, t, k - a);
}

} // verus!
