//! Character sequences: conversions between strings and `Vec<char>`, and the
//! searching, trimming and splitting that the rest of the crate is written
//! with. Every operation is stated over `Seq<char>`.

use vstd::prelude::*;
use vstd::utf8::{
    decode_utf8, encode_utf8, encode_utf8_decode_utf8, encode_utf8_valid_utf8, is_char_boundary,
};

verus! {

/// `String::push` of std: the character is added at the end.
pub assume_specification[ String::push ](s: &mut String, c: char)
    ensures
        final(s)@ == old(s)@.push(c),
;

/// Whether `c` is a number by its Unicode general category.
pub uninterp spec fn numeric(c: char) -> bool;

/// Whether `c` is a letter or a number by its Unicode properties.
pub uninterp spec fn alphanumeric(c: char) -> bool;

/// `char::is_numeric` of std: whether the character has one of the general
/// categories for numbers.
pub assume_specification[ char::is_numeric ](c: char) -> (r: bool)
    ensures
        r == numeric(c),
;

/// `char::is_alphanumeric` of std: whether the character is alphabetic or
/// numeric.
pub assume_specification[ char::is_alphanumeric ](c: char) -> (r: bool)
    ensures
        r == alphanumeric(c),
;

/// `s` in lower case, by the Unicode rules for lower case.
pub uninterp spec fn lowercase(s: Seq<char>) -> Seq<char>;

/// `str::to_lowercase` of std: the lower case equivalent of the string.
pub assume_specification[ str::to_lowercase ](s: &str) -> (r: String)
    ensures
        r@ == lowercase(s@),
;

/// The code of `c`, or of the small letter for a capital letter of ASCII.
pub open spec fn ascii_lower(c: char) -> u32 {
    if 'A' <= c <= 'Z' {
        (c as u32 + 32) as u32
    } else {
        c as u32
    }
}

/// Whether `a` and `b` are the same but for the case of their ASCII letters.
pub open spec fn same_ignoring_ascii_case(a: Seq<char>, b: Seq<char>) -> bool {
    a.len() == b.len() && forall|i: int| 0 <= i < a.len() ==> ascii_lower(a[i]) == ascii_lower(b[i])
}

/// Whether `c` has the Unicode property `White_Space`.
pub open spec fn is_white(c: char) -> bool {
    let n = c as u32;
    ||| 0x09 <= n <= 0x0D
    ||| n == 0x20
    ||| n == 0x85
    ||| n == 0xA0
    ||| n == 0x1680
    ||| 0x2000 <= n <= 0x200A
    ||| n == 0x2028
    ||| n == 0x2029
    ||| n == 0x202F
    ||| n == 0x205F
    ||| n == 0x3000
}

/// How many characters of white space `s` begins with.
pub open spec fn leading_white(s: Seq<char>) -> nat
    decreases s.len(),
{
    if s.len() > 0 && is_white(s[0]) {
        1 + leading_white(s.drop_first())
    } else {
        0
    }
}

/// How many characters of white space `s` ends with.
pub open spec fn trailing_white(s: Seq<char>) -> nat
    decreases s.len(),
{
    if s.len() > 0 && is_white(s.last()) {
        1 + trailing_white(s.drop_last())
    } else {
        0
    }
}

/// `s` without the white space it begins with.
pub open spec fn trimmed_start(s: Seq<char>) -> Seq<char> {
    s.skip(leading_white(s) as int)
}

/// `s` without the white space it ends with.
pub open spec fn trimmed_end(s: Seq<char>) -> Seq<char> {
    s.take(s.len() - trailing_white(s))
}

/// `s` without the white space at either end.
pub open spec fn trimmed(s: Seq<char>) -> Seq<char> {
    trimmed_end(trimmed_start(s))
}

/// How many times in a row `c` stands at the end of `s`.
pub open spec fn trailing_run(s: Seq<char>, c: char) -> nat
    decreases s.len(),
{
    if s.len() > 0 && s.last() == c {
        1 + trailing_run(s.drop_last(), c)
    } else {
        0
    }
}

/// Whether `p` stands in `s` at position `at`.
pub open spec fn occurs_at(s: Seq<char>, p: Seq<char>, at: int) -> bool {
    0 <= at && at + p.len() <= s.len() && s.subrange(at, at + p.len()) == p
}

/// The first position from `from` on at which `p` stands in `s`.
pub open spec fn first_occurrence(s: Seq<char>, p: Seq<char>, from: int) -> Option<int>
    decreases s.len() - from,
{
    if from < 0 || from + p.len() > s.len() {
        None
    } else if occurs_at(s, p, from) {
        Some(from)
    } else if from >= s.len() {
        None
    } else {
        first_occurrence(s, p, from + 1)
    }
}

/// The first position at which `p` stands in `s`.
pub open spec fn found(s: Seq<char>, p: Seq<char>) -> Option<int> {
    first_occurrence(s, p, 0)
}

/// `s` after `p` was taken off its front as often as it stands there.
pub open spec fn without_leading(s: Seq<char>, p: Seq<char>) -> Seq<char>
    decreases s.len(),
{
    if p.len() > 0 && p.is_prefix_of(s) {
        without_leading(s.skip(p.len() as int), p)
    } else {
        s
    }
}

/// The position of the first line feed of `s`, or the length of `s`.
pub open spec fn line_end(s: Seq<char>) -> nat
    decreases s.len(),
{
    if s.len() == 0 || s[0] == '\n' {
        0
    } else {
        1 + line_end(s.drop_first())
    }
}

/// A line without the carriage return that stood before its line feed.
pub open spec fn without_return(line: Seq<char>) -> Seq<char> {
    if line.len() > 0 && line.last() == '\r' {
        line.drop_last()
    } else {
        line
    }
}

/// The lines of `s`: it is cut after each line feed, and each line comes
/// without its line feed and without a carriage return before that. What
/// follows the last line feed is a line if it is not empty.
pub open spec fn split_lines(s: Seq<char>) -> Seq<Seq<char>>
    decreases s.len(),
{
    if s.len() == 0 {
        Seq::empty()
    } else {
        let end = line_end(s);
        if end >= s.len() {
            seq![s]
        } else {
            seq![without_return(s.take(end as int))] + split_lines(s.skip(end as int + 1))
        }
    }
}

/// The parts in order, with `separator` between each two.
pub open spec fn joined(parts: Seq<Seq<char>>, separator: Seq<char>) -> Seq<char>
    decreases parts.len(),
{
    if parts.len() == 0 {
        Seq::empty()
    } else if parts.len() == 1 {
        parts[0]
    } else {
        joined(parts.drop_last(), separator) + separator + parts.last()
    }
}

/// The decimal digit that stands for `d`.
pub open spec fn digit(d: nat) -> char {
    if d == 0 {
        '0'
    } else if d == 1 {
        '1'
    } else if d == 2 {
        '2'
    } else if d == 3 {
        '3'
    } else if d == 4 {
        '4'
    } else if d == 5 {
        '5'
    } else if d == 6 {
        '6'
    } else if d == 7 {
        '7'
    } else if d == 8 {
        '8'
    } else {
        '9'
    }
}

/// `n` written in decimal.
pub open spec fn decimal(n: nat) -> Seq<char>
    decreases n,
{
    if n < 10 {
        seq![digit(n)]
    } else {
        decimal(n / 10).push(digit(n % 10))
    }
}

/// `s` up to its first `stop`, or all of it.
pub open spec fn up_to(s: Seq<char>, stop: char) -> Seq<char>
    decreases s.len(),
{
    if s.len() == 0 || s[0] == stop {
        Seq::empty()
    } else {
        seq![s[0]] + up_to(s.drop_first(), stop)
    }
}

/// `text` from byte `at` of its UTF-8 encoding on, where a character begins
/// or the text ends there; else nothing.
pub open spec fn from_byte(text: Seq<char>, at: int) -> Seq<char> {
    let bytes = encode_utf8(text);
    if 0 <= at <= bytes.len() && is_char_boundary(bytes, at) {
        decode_utf8(bytes.subrange(at, bytes.len() as int))
    } else {
        Seq::empty()
    }
}

/// `text` up to byte `at` of its UTF-8 encoding, where a character begins or
/// the text ends there; else all of it.
pub open spec fn up_to_byte(text: Seq<char>, at: int) -> Seq<char> {
    let bytes = encode_utf8(text);
    if 0 <= at <= bytes.len() && is_char_boundary(bytes, at) {
        decode_utf8(bytes.subrange(0, at))
    } else {
        text
    }
}

/// The bytes from `start` up to `end` of the UTF-8 encoding of `text`, as
/// text.
pub open spec fn byte_range(text: Seq<char>, start: int, end: int) -> Seq<char> {
    up_to_byte(from_byte(text, start), end - start)
}

/// `text` from byte `at` on.
pub fn tail_from<'a>(text: &'a str, at: usize) -> (tail: &'a str)
    ensures
        tail@ == from_byte(text@, at as int),
{
    proof {
        encode_utf8_valid_utf8(text@);
    }
    if text.is_char_boundary(at) {
        let (_, tail) = text.split_at(at);
        proof {
            let bytes = encode_utf8(text@);
            encode_utf8_decode_utf8(tail@);
        }
        tail
    } else {
        proof {
            reveal_strlit("");
        }
        ""
    }
}

/// `text` up to byte `at`.
pub fn head_to<'a>(text: &'a str, at: usize) -> (head: &'a str)
    ensures
        head@ == up_to_byte(text@, at as int),
{
    proof {
        encode_utf8_valid_utf8(text@);
    }
    if text.is_char_boundary(at) {
        let (head, _) = text.split_at(at);
        proof {
            let bytes = encode_utf8(text@);
            encode_utf8_decode_utf8(head@);
        }
        head
    } else {
        text
    }
}

/// The bytes of `text` from `start` up to `end`, as text.
pub fn byte_slice<'a>(text: &'a str, start: usize, end: usize) -> (part: &'a str)
    ensures
        part@ == byte_range(text@, start as int, end as int),
{
    let tail = tail_from(text, start);
    if end >= start {
        head_to(tail, end - start)
    } else {
        tail
    }
}

/// The characters of `s`, in order.
pub fn to_chars(s: &str) -> (v: Vec<char>)
    ensures
        v@ == s@,
{
    let mut v: Vec<char> = Vec::new();
    for c in it: s.chars()
        invariant
            v@ == it.seq().take(it.index() as int),
            it.seq() == s@,
    {
        v.push(c);
    }
    v
}

/// The string made of the characters of `v`, in order.
pub fn to_string(v: &Vec<char>) -> (s: String)
    ensures
        s@ == v@,
{
    let mut s = String::new();
    let mut i: usize = 0;
    while i < v.len()
        invariant
            i <= v.len(),
            s@ == v@.take(i as int),
        decreases v.len() - i,
    {
        s.push(v[i]);
        i += 1;
    }
    s
}

pub fn is_whitespace(c: char) -> (white: bool)
    ensures
        white == is_white(c),
{
    let n: u32 = c as u32;
    (0x09 <= n && n <= 0x0D) || n == 0x20 || n == 0x85 || n == 0xA0 || n == 0x1680 || (0x2000 <= n
        && n <= 0x200A) || n == 0x2028 || n == 0x2029 || n == 0x202F || n == 0x205F || n
        == 0x3000
}

/// The code of `c`, or of the small letter for a capital letter of ASCII.
pub fn to_ascii_lower(c: char) -> (code: u32)
    ensures
        code == ascii_lower(c),
{
    let n: u32 = c as u32;
    if 'A' <= c && c <= 'Z' {
        n + 32
    } else {
        n
    }
}

/// Whether `a` and `b` are the same but for the case of their ASCII letters.
pub fn eq_ignore_ascii_case(a: &Vec<char>, b: &Vec<char>) -> (same: bool)
    ensures
        same == same_ignoring_ascii_case(a@, b@),
{
    if a.len() != b.len() {
        return false;
    }
    let mut i: usize = 0;
    while i < a.len()
        invariant
            i <= a.len(),
            a.len() == b.len(),
            forall|j: int| 0 <= j < i ==> ascii_lower(a@[j]) == ascii_lower(b@[j]),
        decreases a.len() - i,
    {
        if to_ascii_lower(a[i]) != to_ascii_lower(b[i]) {
            return false;
        }
        i += 1;
    }
    true
}

/// The part of `v` from `from` up to `to`.
pub fn slice(v: &Vec<char>, from: usize, to: usize) -> (part: Vec<char>)
    requires
        from <= to <= v.len(),
    ensures
        part@ == v@.subrange(from as int, to as int),
{
    let mut part: Vec<char> = Vec::new();
    let mut i: usize = from;
    while i < to
        invariant
            from <= i <= to <= v.len(),
            part@ == v@.subrange(from as int, i as int),
        decreases to - i,
    {
        part.push(v[i]);
        i += 1;
    }
    part
}

/// Adds the characters of `tail` at the end of `v`.
pub fn append(v: &mut Vec<char>, tail: &Vec<char>)
    ensures
        final(v)@ == old(v)@ + tail@,
{
    let mut i: usize = 0;
    while i < tail.len()
        invariant
            i <= tail.len(),
            v@ == old(v)@ + tail@.take(i as int),
        decreases tail.len() - i,
    {
        v.push(tail[i]);
        i += 1;
    }
}

/// Adds the characters of the string `tail` at the end of `v`.
pub fn append_str(v: &mut Vec<char>, tail: &str)
    ensures
        final(v)@ == old(v)@ + tail@,
{
    let chars = to_chars(tail);
    append(v, &chars);
}

proof fn lemma_leading_white(s: Seq<char>, n: int)
    requires
        0 <= n <= s.len(),
        forall|j: int| 0 <= j < n ==> is_white(s[j]),
        n == s.len() || !is_white(s[n]),
    ensures
        leading_white(s) == n,
    decreases n,
{
    if n > 0 {
        lemma_leading_white(s.drop_first(), n - 1);
    }
}

proof fn lemma_trailing_white(s: Seq<char>, n: int)
    requires
        0 <= n <= s.len(),
        forall|j: int| s.len() - n <= j < s.len() ==> is_white(s[j]),
        n == s.len() || !is_white(s[s.len() - n - 1]),
    ensures
        trailing_white(s) == n,
    decreases n,
{
    if n > 0 {
        lemma_trailing_white(s.drop_last(), n - 1);
    }
}

/// The position at which `v` stops beginning with white space.
pub fn trim_start_index(v: &Vec<char>) -> (at: usize)
    ensures
        at == leading_white(v@),
        at <= v.len(),
{
    let mut i: usize = 0;
    while i < v.len() && is_whitespace(v[i])
        invariant
            i <= v.len(),
            forall|j: int| 0 <= j < i ==> is_white(v@[j]),
        decreases v.len() - i,
    {
        i += 1;
    }
    proof {
        lemma_leading_white(v@, i as int);
    }
    i
}

proof fn lemma_trailing_run(s: Seq<char>, c: char, n: int)
    requires
        0 <= n <= s.len(),
        forall|j: int| s.len() - n <= j < s.len() ==> s[j] == c,
        n == s.len() || s[s.len() - n - 1] != c,
    ensures
        trailing_run(s, c) == n,
    decreases n,
{
    if n > 0 {
        lemma_trailing_run(s.drop_last(), c, n - 1);
    }
}

/// The length of the first `len` characters of `v` without the white space
/// they end with.
pub fn trim_end_index(v: &Vec<char>, len: usize) -> (at: usize)
    requires
        len <= v.len(),
    ensures
        at == len - trailing_white(v@.take(len as int)),
        at <= len,
{
    let mut i: usize = len;
    while i > 0 && is_whitespace(v[i - 1])
        invariant
            i <= len <= v.len(),
            forall|j: int| i <= j < len ==> is_white(v@[j]),
        decreases i,
    {
        i -= 1;
    }
    proof {
        lemma_trailing_white(v@.take(len as int), len - i);
    }
    i
}

/// The length of the first `len` characters of `v` without the run of `c`
/// that they end with.
pub fn trim_end_run_index(v: &Vec<char>, len: usize, c: char) -> (at: usize)
    requires
        len <= v.len(),
    ensures
        at == len - trailing_run(v@.take(len as int), c),
        at <= len,
{
    let mut i: usize = len;
    while i > 0 && v[i - 1] == c
        invariant
            i <= len <= v.len(),
            forall|j: int| i <= j < len ==> v@[j] == c,
        decreases i,
    {
        i -= 1;
    }
    proof {
        lemma_trailing_run(v@.take(len as int), c, len - i);
    }
    i
}

pub fn trim_start(v: &Vec<char>) -> (r: Vec<char>)
    ensures
        r@ == trimmed_start(v@),
{
    let at = trim_start_index(v);
    slice(v, at, v.len())
}

pub fn trim_end(v: &Vec<char>) -> (r: Vec<char>)
    ensures
        r@ == trimmed_end(v@),
{
    assert(v@.take(v.len() as int) =~= v@);
    let at = trim_end_index(v, v.len());
    slice(v, 0, at)
}

pub fn trim(v: &Vec<char>) -> (r: Vec<char>)
    ensures
        r@ == trimmed(v@),
{
    let front = trim_start(v);
    trim_end(&front)
}

/// Whether `p` stands in `v` at position `at`.
pub fn matches_at(v: &Vec<char>, p: &Vec<char>, at: usize) -> (matches: bool)
    ensures
        matches == occurs_at(v@, p@, at as int),
{
    if at > v.len() || p.len() > v.len() - at {
        return false;
    }
    let mut i: usize = 0;
    while i < p.len()
        invariant
            i <= p.len(),
            at + p.len() <= v.len(),
            forall|j: int| 0 <= j < i ==> v@[at + j] == p@[j],
        decreases p.len() - i,
    {
        if v[at + i] != p[i] {
            return false;
        }
        i += 1;
    }
    assert(v@.subrange(at as int, at + p.len()) =~= p@);
    true
}

pub fn starts_with(v: &Vec<char>, p: &Vec<char>) -> (r: bool)
    ensures
        r == p@.is_prefix_of(v@),
{
    matches_at(v, p, 0)
}

pub fn ends_with(v: &Vec<char>, p: &Vec<char>) -> (r: bool)
    ensures
        r == p@.is_suffix_of(v@),
{
    if p.len() > v.len() {
        return false;
    }
    matches_at(v, p, v.len() - p.len())
}

/// The first position at which `p` stands in `v`.
pub fn find(v: &Vec<char>, p: &Vec<char>) -> (at: Option<usize>)
    ensures
        match at {
            Some(i) => {
                &&& found(v@, p@) == Some(i as int)
                &&& occurs_at(v@, p@, i as int)
                &&& i + p.len() <= v.len()
            },
            None => found(v@, p@) is None,
        },
{
    if p.len() > v.len() {
        return None;
    }
    let last: usize = v.len() - p.len();
    let mut i: usize = 0;
    loop
        invariant
            i <= last,
            last == v.len() - p.len(),
            found(v@, p@) == first_occurrence(v@, p@, i as int),
        decreases last - i,
    {
        if matches_at(v, p, i) {
            return Some(i);
        }
        if i == last {
            assert(first_occurrence(v@, p@, i + 1) is None);
            return None;
        }
        i += 1;
    }
}

/// `v` after `p` was taken off its front as often as it stands there.
pub fn trim_start_matches(v: &Vec<char>, p: &Vec<char>) -> (r: Vec<char>)
    ensures
        r@ == without_leading(v@, p@),
{
    if p.len() == 0 {
        return slice(v, 0, v.len());
    }
    let mut at: usize = 0;
    assert(v@.skip(0) =~= v@);
    while matches_at(v, p, at)
        invariant
            at <= v.len(),
            p.len() > 0,
            without_leading(v@, p@) == without_leading(v@.skip(at as int), p@),
        decreases v.len() - at,
    {
        proof {
            let rest = v@.skip(at as int);
            assert(rest.skip(p.len() as int) =~= v@.skip(at + p.len()));
        }
        at += p.len();
    }
    proof {
        let rest = v@.skip(at as int);
        if p@.is_prefix_of(rest) {
            assert(rest.subrange(0, p.len() as int) =~= v@.subrange(at as int, at + p.len()));
        }
    }
    slice(v, at, v.len())
}

proof fn lemma_line_end_is(s: Seq<char>, n: int)
    requires
        0 <= n <= s.len(),
        forall|j: int| 0 <= j < n ==> s[j] != '\n',
        n == s.len() || s[n] == '\n',
    ensures
        line_end(s) == n,
    decreases n,
{
    if n > 0 {
        lemma_line_end_is(s.drop_first(), n - 1);
    }
}

/// The lines of `v`.
pub fn lines(v: &Vec<char>) -> (r: Vec<Vec<char>>)
    ensures
        r@.len() == split_lines(v@).len(),
        forall|i: int| 0 <= i < r@.len() ==> (#[trigger] r@[i])@ == split_lines(v@)[i],
{
    let mut r: Vec<Vec<char>> = Vec::new();
    let mut from: usize = 0;
    assert(v@.skip(0) =~= v@);
    while from < v.len()
        invariant
            from <= v.len(),
            split_lines(v@) =~= Seq::new(r@.len(), |i: int| r@[i]@) + split_lines(
                v@.skip(from as int),
            ),
        decreases v.len() - from,
    {
        let mut to: usize = from;
        while to < v.len() && v[to] != '\n'
            invariant
                from <= to <= v.len(),
                forall|j: int| from <= j < to ==> v@[j] != '\n',
            decreases v.len() - to,
        {
            to += 1;
        }
        let ghost rest = v@.skip(from as int);
        proof {
            lemma_line_end_is(rest, to - from);
        }
        if to == v.len() {
            let line = slice(v, from, to);
            r.push(line);
            from = to;
        } else {
            let stop: usize = if to > from && v[to - 1] == '\r' {
                to - 1
            } else {
                to
            };
            let line = slice(v, from, stop);
            proof {
                assert(line@ =~= without_return(rest.take(to - from)));
                assert(rest.skip(to - from + 1) =~= v@.skip(to + 1));
            }
            r.push(line);
            from = to + 1;
        }
    }
    r
}

/// The parts in order, with `separator` between each two.
pub fn join(parts: &Vec<Vec<char>>, separator: &Vec<char>) -> (r: Vec<char>)
    ensures
        r@ == joined(Seq::new(parts@.len(), |i: int| parts@[i]@), separator@),
{
    let ghost all = Seq::new(parts@.len(), |i: int| parts@[i]@);
    let mut r: Vec<char> = Vec::new();
    let mut i: usize = 0;
    while i < parts.len()
        invariant
            i <= parts.len(),
            all == Seq::new(parts@.len(), |i: int| parts@[i]@),
            r@ == joined(all.take(i as int), separator@),
        decreases parts.len() - i,
    {
        proof {
            assert(all.take(i + 1).drop_last() =~= all.take(i as int));
        }
        if i > 0 {
            append(&mut r, separator);
        }
        append(&mut r, &parts[i]);
        i += 1;
    }
    assert(all.take(parts.len() as int) =~= all);
    r
}

/// `n` written in decimal.
pub fn to_decimal(n: u128) -> (r: Vec<char>)
    ensures
        r@ == decimal(n as nat),
    decreases n,
{
    let last: char = match n % 10 {
        0 => '0',
        1 => '1',
        2 => '2',
        3 => '3',
        4 => '4',
        5 => '5',
        6 => '6',
        7 => '7',
        8 => '8',
        _ => '9',
    };
    if n < 10 {
        let mut r: Vec<char> = Vec::new();
        r.push(last);
        r
    } else {
        let mut r = to_decimal(n / 10);
        r.push(last);
        r
    }
}

/// `v` up to its first `stop`, or all of it.
pub fn take_up_to(v: &Vec<char>, stop: char) -> (r: Vec<char>)
    ensures
        r@ == up_to(v@, stop),
{
    let mut i: usize = 0;
    assert(v@.skip(0) =~= v@);
    while i < v.len() && v[i] != stop
        invariant
            i <= v.len(),
            up_to(v@, stop) == v@.take(i as int) + up_to(v@.skip(i as int), stop),
        decreases v.len() - i,
    {
        proof {
            let rest = v@.skip(i as int);
            assert(rest.drop_first() =~= v@.skip(i + 1));
        }
        i += 1;
    }
    slice(v, 0, i)
}

/// The set of a sequence with one more element has that element too.
pub proof fn lemma_push_to_set<A>(s: Seq<A>, x: A)
    ensures
        s.push(x).to_set() == s.to_set().insert(x),
{
    assert forall|a: A| s.push(x).to_set().contains(a) <==> s.to_set().insert(x).contains(
        a,
    ) by {
        if s.contains(a) {
            let i = choose|i: int| 0 <= i < s.len() && s[i] == a;
            assert(s.push(x)[i] == a);
        }
        assert(s.push(x)[s.len() as int] == x);
    }
}

} // verus!
