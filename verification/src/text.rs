//! Text as sequences of characters: comparing, cutting, scanning, reading
//! numbers.
//!
//! The specifications are over `Seq<char>`. The executable functions work
//! on `&str` where a string comes in and on slices of characters in
//! between.

use vstd::prelude::*;
use vstd::string::StringSliceAdditionalSpecFns;
use vstd::utf8::encode_utf8_decode_utf8;

verus! {

/// `String::push` appends one character to the end of the string.
pub assume_specification[ String::push ](s: &mut String, c: char)
    ensures
        final(s)@ == old(s)@.push(c),
;

/// What `str::to_lowercase` makes of a text: its lowercase form by the
/// rules of Unicode.
pub uninterp spec fn lowercase_of(s: Seq<char>) -> Seq<char>;

/// `str::to_lowercase` returns the lowercase form of the text, a function of
/// its characters alone.
#[verifier::external_body]
pub(crate) fn lowercase(s: &str) -> (r: String)
    ensures
        r@ == lowercase_of(s@),
{
    s.to_lowercase()
}

/// Whether two string slices hold the same characters.
pub fn same_text(a: &str, b: &str) -> (r: bool)
    ensures
        r == (a@ == b@),
{
    let x = a.as_bytes();
    let y = b.as_bytes();
    proof {
        // Two texts with the same encoding decode to the same characters.
        encode_utf8_decode_utf8(a@);
        encode_utf8_decode_utf8(b@);
    }
    if x.len() != y.len() {
        return false;
    }
    let mut i: usize = 0;
    while i < x.len()
        invariant
            x.len() == y.len(),
            x@ == a.spec_bytes(),
            y@ == b.spec_bytes(),
            i <= x.len(),
            forall|j: int| 0 <= j < i ==> x@[j] == y@[j],
        decreases x.len() - i,
    {
        if x[i] != y[i] {
            return false;
        }
        i += 1;
    }
    assert(x@ =~= y@);
    true
}

/// The characters of a string.
pub fn chars_of(s: &str) -> (r: Vec<char>)
    ensures
        r@ == s@,
{
    let mut v: Vec<char> = Vec::new();
    for c in it: s.chars()
        invariant
            it.seq() == s@,
            v@ == s@.take(it.index() as int),
    {
        v.push(c);
        assert(s@.take(it.index() + 1) =~= s@.take(it.index() as int).push(c));
    }
    assert(s@.take(s@.len() as int) =~= s@);
    v
}

/// Appends characters to a string.
pub fn push_chars(out: &mut String, chars: &[char])
    ensures
        final(out)@ == old(out)@ + chars@,
{
    let n: usize = chars.len();
    let mut i: usize = 0;
    while i < n
        invariant
            i <= n,
            n == chars@.len(),
            out@ == old(out)@ + chars@.take(i as int),
        decreases n - i,
    {
        out.push(chars[i]);
        assert(chars@.take(i + 1) =~= chars@.take(i as int).push(chars@[i as int]));
        i += 1;
    }
    assert(chars@.take(n as int) =~= chars@);
}

/// The string of a sequence of characters.
pub fn string_of(chars: &[char]) -> (r: String)
    ensures
        r@ == chars@,
{
    let mut out = String::new();
    push_chars(&mut out, chars);
    out
}

/// The characters from `from` up to, not including, `to`.
pub fn slice_of(chars: &[char], from: usize, to: usize) -> (r: Vec<char>)
    requires
        from <= to <= chars@.len(),
    ensures
        r@ == chars@.subrange(from as int, to as int),
{
    let mut v: Vec<char> = Vec::new();
    let mut i: usize = from;
    while i < to
        invariant
            from <= i <= to <= chars@.len(),
            v@ == chars@.subrange(from as int, i as int),
        decreases to - i,
    {
        v.push(chars[i]);
        assert(chars@.subrange(from as int, i + 1) =~= chars@.subrange(
            from as int,
            i as int,
        ).push(chars@[i as int]));
        i += 1;
    }
    v
}

/// `pattern` occurs in `s` at position `at`.
pub open spec fn occurs_at(s: Seq<char>, pattern: Seq<char>, at: int) -> bool {
    0 <= at && at + pattern.len() <= s.len() && s.subrange(at, at + pattern.len()) == pattern
}

pub open spec fn starts_with_spec(s: Seq<char>, prefix: Seq<char>) -> bool {
    occurs_at(s, prefix, 0)
}

pub open spec fn ends_with_spec(s: Seq<char>, suffix: Seq<char>) -> bool {
    occurs_at(s, suffix, s.len() - suffix.len())
}

/// Whether `pattern` occurs in `s` at position `at`.
pub fn found_at(s: &[char], pattern: &[char], at: usize) -> (r: bool)
    ensures
        r == occurs_at(s@, pattern@, at as int),
{
    let n: usize = pattern.len();
    let len: usize = s.len();
    if at > len || n > len - at {
        return false;
    }
    let mut i: usize = 0;
    while i < n
        invariant
            i <= n,
            n == pattern@.len(),
            len == s@.len(),
            at + n <= len,
            forall|j: int| 0 <= j < i ==> s@[at + j] == pattern@[j],
        decreases n - i,
    {
        if s[at + i] != pattern[i] {
            assert(s@.subrange(at as int, at + n)[i as int] != pattern@[i as int]);
            return false;
        }
        i += 1;
    }
    assert(s@.subrange(at as int, at + n) =~= pattern@);
    true
}

pub fn starts_with(s: &[char], prefix: &[char]) -> (r: bool)
    ensures
        r == starts_with_spec(s@, prefix@),
{
    found_at(s, prefix, 0)
}

pub fn ends_with(s: &[char], suffix: &[char]) -> (r: bool)
    ensures
        r == ends_with_spec(s@, suffix@),
{
    if suffix.len() > s.len() {
        return false;
    }
    found_at(s, suffix, s.len() - suffix.len())
}

/// The lines of a text. A line ends with a line feed, or with a carriage
/// return and a line feed; neither is part of the line. What follows the
/// last line feed is a line too, unless it is empty.
pub open spec fn lines_spec(s: Seq<char>) -> Seq<Seq<char>> {
    lines_scan(s, 0, 0)
}

/// The lines of `s` from the line that starts at `start`, scanned up to
/// `pos`.
pub open spec fn lines_scan(s: Seq<char>, start: int, pos: int) -> Seq<Seq<char>>
    decreases s.len() - pos,
{
    if pos >= s.len() {
        if start < s.len() {
            seq![s.subrange(start, s.len() as int)]
        } else {
            Seq::empty()
        }
    } else if s[pos] == '\n' {
        seq![without_return(s.subrange(start, pos))] + lines_scan(s, pos + 1, pos + 1)
    } else {
        lines_scan(s, start, pos + 1)
    }
}

/// A line without the carriage return at its end, if it has one.
pub open spec fn without_return(line: Seq<char>) -> Seq<char> {
    if line.len() > 0 && line.last() == '\r' {
        line.drop_last()
    } else {
        line
    }
}

/// Splits a text into its lines.
pub fn lines(s: &[char]) -> (r: Vec<Vec<char>>)
    ensures
        views(r@) == lines_spec(s@),
{
    let n: usize = s.len();
    let mut out: Vec<Vec<char>> = Vec::new();
    let mut start: usize = 0;
    let mut pos: usize = 0;
    assert(views(out@) =~= Seq::<Seq<char>>::empty());
    while pos < n
        invariant
            start <= pos <= n,
            n == s@.len(),
            views(out@) + lines_scan(s@, start as int, pos as int) == lines_spec(s@),
        decreases n - pos,
    {
        if s[pos] == '\n' {
            let end: usize = if pos > start && s[pos - 1] == '\r' {
                pos - 1
            } else {
                pos
            };
            let line: Vec<char> = slice_of(s, start, end);
            assert(line@ =~= without_return(s@.subrange(start as int, pos as int)));
            let ghost before = views(out@);
            out.push(line);
            assert(views(out@) =~= before + seq![line@]);
            assert(views(out@) + lines_scan(s@, pos + 1, pos + 1) =~= before + lines_scan(
                s@,
                start as int,
                pos as int,
            ));
            start = pos + 1;
        }
        pos += 1;
    }
    if start < n {
        let line: Vec<char> = slice_of(s, start, n);
        let ghost before = views(out@);
        out.push(line);
        assert(views(out@) =~= before + seq![line@]);
    }
    assert(views(out@) =~= lines_spec(s@));
    out
}

/// The texts that a sequence of character vectors holds.
pub open spec fn views(v: Seq<Vec<char>>) -> Seq<Seq<char>> {
    Seq::new(v.len(), |i: int| chars_at(v, i))
}

/// The text of the `i`-th vector.
pub open spec fn chars_at(v: Seq<Vec<char>>, i: int) -> Seq<char> {
    v[i]@
}

/// The first of the lines from `from` on that starts with `prefix`.
pub open spec fn first_with_prefix(lines: Seq<Seq<char>>, prefix: Seq<char>, from: int) -> Option<
    Seq<char>,
>
    decreases lines.len() - from,
{
    if from >= lines.len() {
        None
    } else if starts_with_spec(lines[from], prefix) {
        Some(lines[from])
    } else {
        first_with_prefix(lines, prefix, from + 1)
    }
}

/// Finds the first line that starts with a prefix.
pub fn find_with_prefix(lines: &Vec<Vec<char>>, prefix: &[char]) -> (r: Option<usize>)
    ensures
        match r {
            Some(i) => i < lines@.len() && first_with_prefix(views(lines@), prefix@, 0) == Some(
                lines@[i as int]@,
            ),
            None => first_with_prefix(views(lines@), prefix@, 0) is None,
        },
{
    let n: usize = lines.len();
    let mut i: usize = 0;
    while i < n
        invariant
            i <= n,
            n == lines@.len(),
            first_with_prefix(views(lines@), prefix@, i as int) == first_with_prefix(
                views(lines@),
                prefix@,
                0,
            ),
        decreases n - i,
    {
        assert(views(lines@)[i as int] == lines@[i as int]@);
        if starts_with(lines[i].as_slice(), prefix) {
            return Some(i);
        }
        i += 1;
    }
    None
}

/// The position after the last occurrence of `c` in `s` before `pos`, or
/// zero if there is none.
pub open spec fn tail_start(s: Seq<char>, c: char, pos: int) -> int
    decreases pos,
{
    if pos <= 0 {
        0
    } else if s[pos - 1] == c {
        pos
    } else {
        tail_start(s, c, pos - 1)
    }
}

/// What follows the last occurrence of `c` in a text: the whole text if
/// there is none.
pub open spec fn after_last_spec(s: Seq<char>, c: char) -> Seq<char> {
    s.skip(tail_start(s, c, s.len() as int))
}

/// Cuts a text down to what follows the last occurrence of a character.
pub fn after_last(s: &[char], c: char) -> (r: Vec<char>)
    ensures
        r@ == after_last_spec(s@, c),
{
    let n: usize = s.len();
    let mut pos: usize = n;
    while pos > 0 && s[pos - 1] != c
        invariant
            pos <= n,
            n == s@.len(),
            tail_start(s@, c, pos as int) == tail_start(s@, c, n as int),
        decreases pos,
    {
        pos -= 1;
    }
    slice_of(s, pos, n)
}

/// The pieces of a text between occurrences of a separator. There is
/// always at least one piece; two separators in a row have an empty piece
/// between them.
pub open spec fn split_spec(s: Seq<char>, sep: char) -> Seq<Seq<char>> {
    split_scan(s, sep, 0, 0)
}

/// The pieces of `s` from the piece that starts at `start`, scanned up to
/// `pos`.
pub open spec fn split_scan(s: Seq<char>, sep: char, start: int, pos: int) -> Seq<Seq<char>>
    decreases s.len() - pos,
{
    if pos >= s.len() {
        seq![s.subrange(start, s.len() as int)]
    } else if s[pos] == sep {
        seq![s.subrange(start, pos)] + split_scan(s, sep, pos + 1, pos + 1)
    } else {
        split_scan(s, sep, start, pos + 1)
    }
}

/// Splits a text at every occurrence of a separator.
pub fn split(s: &[char], sep: char) -> (r: Vec<Vec<char>>)
    ensures
        views(r@) == split_spec(s@, sep),
        r@.len() >= 1,
{
    let n: usize = s.len();
    let mut out: Vec<Vec<char>> = Vec::new();
    let mut start: usize = 0;
    let mut pos: usize = 0;
    assert(views(out@) =~= Seq::<Seq<char>>::empty());
    while pos < n
        invariant
            start <= pos <= n,
            n == s@.len(),
            views(out@) + split_scan(s@, sep, start as int, pos as int) == split_spec(s@, sep),
        decreases n - pos,
    {
        if s[pos] == sep {
            let piece: Vec<char> = slice_of(s, start, pos);
            let ghost before = views(out@);
            out.push(piece);
            assert(views(out@) =~= before + seq![piece@]);
            assert(views(out@) + split_scan(s@, sep, pos + 1, pos + 1) =~= before + split_scan(
                s@,
                sep,
                start as int,
                pos as int,
            ));
            start = pos + 1;
        }
        pos += 1;
    }
    let piece: Vec<char> = slice_of(s, start, n);
    let ghost before = views(out@);
    out.push(piece);
    assert(views(out@) =~= before + seq![piece@]);
    out
}

/// The position of the first occurrence of `c` in `s` at or after `from`,
/// or the length of `s` if there is none.
pub open spec fn position_of(s: Seq<char>, c: char, from: int) -> int
    decreases s.len() - from,
{
    if from >= s.len() {
        s.len() as int
    } else if s[from] == c {
        from
    } else {
        position_of(s, c, from + 1)
    }
}

/// Finds the first occurrence of a character.
pub fn find(s: &[char], c: char, from: usize) -> (r: usize)
    requires
        from <= s@.len(),
    ensures
        r == position_of(s@, c, from as int),
        from <= r <= s@.len(),
        r < s@.len() ==> s@[r as int] == c,
        forall|i: int| from <= i < r ==> s@[i] != c,
{
    let n: usize = s.len();
    let mut i: usize = from;
    while i < n && s[i] != c
        invariant
            from <= i <= n,
            n == s@.len(),
            position_of(s@, c, i as int) == position_of(s@, c, from as int),
            forall|j: int| from <= j < i ==> s@[j] != c,
        decreases n - i,
    {
        i += 1;
    }
    i
}

/// A text with every occurrence of `pattern` replaced by `with`, found
/// from left to right without overlap. An empty pattern occurs nowhere.
pub open spec fn replaced_spec(s: Seq<char>, pattern: Seq<char>, with: Seq<char>) -> Seq<char> {
    replaced_scan(s, pattern, with, 0)
}

/// The replaced form of `s` from position `pos` on.
pub open spec fn replaced_scan(s: Seq<char>, pattern: Seq<char>, with: Seq<char>, pos: int) -> Seq<
    char,
>
    decreases s.len() - pos,
{
    if pos >= s.len() || pos < 0 {
        Seq::empty()
    } else if pattern.len() > 0 && occurs_at(s, pattern, pos) {
        with + replaced_scan(s, pattern, with, pos + pattern.len())
    } else {
        seq![s[pos]] + replaced_scan(s, pattern, with, pos + 1)
    }
}

/// Replaces every occurrence of a pattern.
pub fn replaced(s: &[char], pattern: &[char], with: &[char]) -> (r: Vec<char>)
    ensures
        r@ == replaced_spec(s@, pattern@, with@),
{
    let n: usize = s.len();
    let p: usize = pattern.len();
    let mut out: Vec<char> = Vec::new();
    let mut pos: usize = 0;
    while pos < n
        invariant
            pos <= n,
            n == s@.len(),
            p == pattern@.len(),
            out@ + replaced_scan(s@, pattern@, with@, pos as int) == replaced_spec(
                s@,
                pattern@,
                with@,
            ),
        decreases n - pos,
    {
        let ghost before = out@;
        if p > 0 && found_at(s, pattern, pos) {
            let m: usize = with.len();
            let mut k: usize = 0;
            while k < m
                invariant
                    k <= m,
                    m == with@.len(),
                    out@ == before + with@.take(k as int),
                decreases m - k,
            {
                out.push(with[k]);
                assert(with@.take(k + 1) =~= with@.take(k as int).push(with@[k as int]));
                k += 1;
            }
            assert(with@.take(m as int) =~= with@);
            assert(out@ + replaced_scan(s@, pattern@, with@, pos + p) =~= before + replaced_scan(
                s@,
                pattern@,
                with@,
                pos as int,
            ));
            pos += p;
        } else {
            out.push(s[pos]);
            assert(out@ + replaced_scan(s@, pattern@, with@, pos + 1) =~= before + replaced_scan(
                s@,
                pattern@,
                with@,
                pos as int,
            ));
            pos += 1;
        }
    }
    assert(out@ =~= out@ + replaced_scan(s@, pattern@, with@, pos as int));
    out
}

/// The position at which `s` goes on after every copy of `pattern` that
/// follows, one after the other, from `pos`. An empty pattern occurs
/// nowhere.
pub open spec fn leading_end(s: Seq<char>, pattern: Seq<char>, pos: int) -> int
    decreases s.len() - pos,
{
    if pattern.len() > 0 && occurs_at(s, pattern, pos) {
        leading_end(s, pattern, pos + pattern.len())
    } else {
        pos
    }
}

/// A text without the copies of `pattern` that it starts with.
pub open spec fn without_leading_spec(s: Seq<char>, pattern: Seq<char>) -> Seq<char> {
    s.skip(leading_end(s, pattern, 0))
}

/// Removes every copy of `pattern` that the text starts with.
pub fn without_leading(s: &[char], pattern: &[char]) -> (r: Vec<char>)
    ensures
        r@ == without_leading_spec(s@, pattern@),
{
    let n: usize = s.len();
    let p: usize = pattern.len();
    let mut pos: usize = 0;
    while p > 0 && found_at(s, pattern, pos)
        invariant
            pos <= n,
            n == s@.len(),
            p == pattern@.len(),
            leading_end(s@, pattern@, pos as int) == leading_end(s@, pattern@, 0),
        decreases n - pos,
    {
        pos += p;
    }
    slice_of(s, pos, n)
}

/// The first position at or after `pos` at which `s` does not hold `c`,
/// or the length of `s`.
pub open spec fn run_start(s: Seq<char>, c: char, pos: int) -> int
    decreases s.len() - pos,
{
    if pos >= s.len() || s[pos] != c {
        pos
    } else {
        run_start(s, c, pos + 1)
    }
}

/// The last position at or before `pos` before which `s` does not hold
/// `c`, or zero.
pub open spec fn run_end(s: Seq<char>, c: char, pos: int) -> int
    decreases pos,
{
    if pos <= 0 || s[pos - 1] != c {
        pos
    } else {
        run_end(s, c, pos - 1)
    }
}

/// A text without the run of `c` at its start and the run of `c` at its
/// end.
pub open spec fn without_surrounding_spec(s: Seq<char>, c: char) -> Seq<char> {
    let from = run_start(s, c, 0);
    let to = run_end(s, c, s.len() as int);
    if from >= to {
        Seq::empty()
    } else {
        s.subrange(from, to)
    }
}

/// Removes the characters `c` that the text starts and ends with.
pub fn without_surrounding(s: &[char], c: char) -> (r: Vec<char>)
    ensures
        r@ == without_surrounding_spec(s@, c),
{
    let n: usize = s.len();
    let mut from: usize = 0;
    while from < n && s[from] == c
        invariant
            from <= n,
            n == s@.len(),
            run_start(s@, c, from as int) == run_start(s@, c, 0),
        decreases n - from,
    {
        from += 1;
    }
    let mut to: usize = n;
    while to > 0 && s[to - 1] == c
        invariant
            to <= n,
            n == s@.len(),
            run_end(s@, c, to as int) == run_end(s@, c, n as int),
        decreases to,
    {
        to -= 1;
    }
    if from >= to {
        Vec::new()
    } else {
        slice_of(s, from, to)
    }
}

/// The value that the first of the pairs from `from` on gives to a key, if
/// one does.
pub open spec fn lookup(pairs: Seq<(String, String)>, key: Seq<char>, from: int) -> Option<
    Seq<char>,
>
    decreases pairs.len() - from,
{
    if from >= pairs.len() {
        None
    } else if pairs[from].0@ == key {
        Some(pairs[from].1@)
    } else {
        lookup(pairs, key, from + 1)
    }
}

/// White space as Unicode defines it: the characters with the property
/// `White_Space`.
pub open spec fn is_white_space(c: char) -> bool {
    let u = c as u32;
    ||| 0x9 <= u <= 0xd
    ||| u == 0x20
    ||| u == 0x85
    ||| u == 0xa0
    ||| u == 0x1680
    ||| 0x2000 <= u <= 0x200a
    ||| u == 0x2028
    ||| u == 0x2029
    ||| u == 0x202f
    ||| u == 0x205f
    ||| u == 0x3000
}

#[verifier::when_used_as_spec(is_white_space)]
pub fn white_space(c: char) -> (r: bool)
    ensures
        r == is_white_space(c),
{
    let u: u32 = c as u32;
    (0x9 <= u && u <= 0xd) || u == 0x20 || u == 0x85 || u == 0xa0 || u == 0x1680 || (0x2000 <= u
        && u <= 0x200a) || u == 0x2028 || u == 0x2029 || u == 0x202f || u == 0x205f || u == 0x3000
}

/// The first position at or after `pos` at which `s` holds no white
/// space, or the length of `s`.
pub open spec fn text_start(s: Seq<char>, pos: int) -> int
    decreases s.len() - pos,
{
    if pos >= s.len() || !is_white_space(s[pos]) {
        pos
    } else {
        text_start(s, pos + 1)
    }
}

/// The last position at or before `pos` before which `s` holds no white
/// space, or zero.
pub open spec fn text_end(s: Seq<char>, pos: int) -> int
    decreases pos,
{
    if pos <= 0 || !is_white_space(s[pos - 1]) {
        pos
    } else {
        text_end(s, pos - 1)
    }
}

/// A text without the white space at its start and at its end.
pub open spec fn trimmed_spec(s: Seq<char>) -> Seq<char> {
    let from = text_start(s, 0);
    let to = text_end(s, s.len() as int);
    if from >= to {
        Seq::empty()
    } else {
        s.subrange(from, to)
    }
}

/// Removes the white space that a text starts and ends with.
pub fn trimmed(s: &[char]) -> (r: Vec<char>)
    ensures
        r@ == trimmed_spec(s@),
{
    let n: usize = s.len();
    let mut from: usize = 0;
    while from < n && white_space(s[from])
        invariant
            from <= n,
            n == s@.len(),
            text_start(s@, from as int) == text_start(s@, 0),
        decreases n - from,
    {
        from += 1;
    }
    let mut to: usize = n;
    while to > 0 && white_space(s[to - 1])
        invariant
            to <= n,
            n == s@.len(),
            text_end(s@, to as int) == text_end(s@, n as int),
        decreases to,
    {
        to -= 1;
    }
    if from >= to {
        Vec::new()
    } else {
        slice_of(s, from, to)
    }
}

/// Finds the value of a key among pairs.
pub fn value_of(pairs: &Vec<(String, String)>, key: &str) -> (r: Option<String>)
    ensures
        match r {
            Some(value) => lookup(pairs@, key@, 0) == Some(value@),
            None => lookup(pairs@, key@, 0) is None,
        },
{
    let n: usize = pairs.len();
    let mut i: usize = 0;
    while i < n
        invariant
            i <= n,
            n == pairs@.len(),
            lookup(pairs@, key@, i as int) == lookup(pairs@, key@, 0),
        decreases n - i,
    {
        if same_text(pairs[i].0.as_str(), key) {
            let value: String = pairs[i].1.clone();
            assert(lookup(pairs@, key@, i as int) == Some(value@));
            return Some(value);
        }
        i += 1;
    }
    None
}

/// No key occurs in two of the pairs.
pub open spec fn distinct_keys(pairs: Seq<(String, String)>) -> bool {
    forall|i: int, j: int|
        0 <= i < j < pairs.len() ==> (#[trigger] pairs[i]).0@ != (#[trigger] pairs[j]).0@
}

/// The pairs as a map from keys to values: each key has the value of the
/// first pair that holds it.
pub open spec fn map_of(pairs: Seq<(String, String)>) -> Map<Seq<char>, Seq<char>> {
    Map::new(|k: Seq<char>| lookup(pairs, k, 0) is Some, |k: Seq<char>| lookup(pairs, k, 0)->0)
}

/// A key is found exactly if some pair holds it, and then with the value
/// of the first such pair.
pub proof fn lemma_lookup(pairs: Seq<(String, String)>, key: Seq<char>, from: int)
    requires
        0 <= from,
    ensures
        lookup(pairs, key, from) is None <==> forall|i: int|
            from <= i < pairs.len() ==> (#[trigger] pairs[i]).0@ != key,
        lookup(pairs, key, from) matches Some(v) ==> exists|i: int|
            from <= i < pairs.len() && (#[trigger] pairs[i]).0@ == key && pairs[i].1@ == v
                && forall|j: int| from <= j < i ==> (#[trigger] pairs[j]).0@ != key,
    decreases pairs.len() - from,
{
    if from < pairs.len() {
        if pairs[from].0@ == key {
            assert(pairs[from].0@ == key && pairs[from].1@ == lookup(pairs, key, from)->0);
        } else {
            lemma_lookup(pairs, key, from + 1);
            if lookup(pairs, key, from + 1) is None {
                assert forall|i: int| from <= i < pairs.len() implies (#[trigger] pairs[i]).0@
                    != key by {
                    if i > from {
                    }
                }
            } else {
                let i = choose|i: int|
                    from + 1 <= i < pairs.len() && (#[trigger] pairs[i]).0@ == key && pairs[i].1@
                        == lookup(pairs, key, from + 1)->0 && forall|j: int|
                        from + 1 <= j < i ==> (#[trigger] pairs[j]).0@ != key;
                assert(from <= i < pairs.len() && pairs[i].0@ == key && pairs[i].1@ == lookup(
                    pairs,
                    key,
                    from,
                )->0);
                assert forall|j: int| from <= j < i implies (#[trigger] pairs[j]).0@ != key by {
                    if j > from {
                    }
                }
            }
        }
    }
}

/// Among pairs with distinct keys, each pair's key is found with that
/// pair's value.
pub proof fn lemma_lookup_distinct(pairs: Seq<(String, String)>, i: int)
    requires
        distinct_keys(pairs),
        0 <= i < pairs.len(),
    ensures
        lookup(pairs, pairs[i].0@, 0) == Some(pairs[i].1@),
{
    lemma_lookup(pairs, pairs[i].0@, 0);
    let key = pairs[i].0@;
    if lookup(pairs, key, 0) is None {
        assert(pairs[i].0@ != key);
    } else {
        let j = choose|j: int|
            0 <= j < pairs.len() && (#[trigger] pairs[j]).0@ == key && pairs[j].1@ == lookup(
                pairs,
                key,
                0,
            )->0 && forall|k: int| 0 <= k < j ==> (#[trigger] pairs[k]).0@ != key;
        if j < i {
            assert(pairs[j].0@ != pairs[i].0@);
        } else if i < j {
            assert(pairs[i].0@ != pairs[j].0@);
        }
    }
}

pub open spec fn is_digit(c: char) -> bool {
    '0' <= c <= '9'
}

pub open spec fn all_digits(s: Seq<char>) -> bool {
    forall|i: int| 0 <= i < s.len() ==> is_digit(#[trigger] s[i])
}

/// The number that a run of decimal digits denotes.
pub open spec fn digits_value(s: Seq<char>) -> nat
    decreases s.len(),
{
    if s.len() == 0 {
        0
    } else {
        digits_value(s.drop_last()) * 10 + (s.last() as u32 - 48) as nat
    }
}

/// A 64-bit number in decimal: an optional `+`, then at least one digit,
/// leading zeros allowed, and a value that fits.
pub open spec fn parse_u64_spec(s: Seq<char>) -> Option<u64> {
    let body = if s.len() > 0 && s[0] == '+' {
        s.skip(1)
    } else {
        s
    };
    if body.len() > 0 && all_digits(body) && digits_value(body) <= u64::MAX {
        Some(digits_value(body) as u64)
    } else {
        None
    }
}

/// The value of a run of digits only grows as digits are added.
proof fn lemma_digits_value_grows(s: Seq<char>, k: int)
    requires
        0 <= k <= s.len(),
        all_digits(s),
    ensures
        digits_value(s.take(k)) <= digits_value(s),
    decreases s.len() - k,
{
    if k < s.len() {
        lemma_digits_value_grows(s, k + 1);
        assert(s.take(k + 1).drop_last() =~= s.take(k));
        assert(is_digit(s[k]));
    } else {
        assert(s.take(k) =~= s);
    }
}

/// Reads a 64-bit number in decimal.
pub fn parse_u64(s: &[char]) -> (r: Option<u64>)
    ensures
        r == parse_u64_spec(s@),
{
    let n: usize = s.len();
    let start: usize = if n > 0 && s[0] == '+' {
        1
    } else {
        0
    };
    let ghost body = s@.subrange(start as int, n as int);
    assert(body =~= if s@.len() > 0 && s@[0] == '+' {
        s@.skip(1)
    } else {
        s@
    });
    if start == n {
        return None;
    }
    let mut value: u64 = 0;
    let mut i: usize = start;
    while i < n
        invariant
            start <= i <= n,
            n == s@.len(),
            body == s@.subrange(start as int, n as int),
            body == if s@.len() > 0 && s@[0] == '+' {
                s@.skip(1)
            } else {
                s@
            },
            all_digits(body.take(i - start)),
            value == digits_value(body.take(i - start)),
        decreases n - i,
    {
        let c: char = s[i];
        let ghost k: int = i - start;
        assert(body[k] == c);
        if c < '0' || c > '9' {
            assert(!is_digit(body[k]));
            return None;
        }
        assert(body.take(k + 1).drop_last() =~= body.take(k));
        assert(all_digits(body.take(k + 1))) by {
            assert forall|j: int| 0 <= j < k + 1 implies is_digit(
                #[trigger] body.take(k + 1)[j],
            ) by {
                if j < k {
                    assert(body.take(k)[j] == body.take(k + 1)[j]);
                }
            }
        }
        let d: u64 = (c as u32 - 48) as u64;
        if value > (u64::MAX - d) / 10 {
            proof {
                if all_digits(body) {
                    lemma_digits_value_grows(body, k + 1);
                }
            }
            return None;
        }
        value = value * 10 + d;
        i += 1;
    }
    assert(body.take(i - start) =~= body);
    Some(value)
}

} // verus!
