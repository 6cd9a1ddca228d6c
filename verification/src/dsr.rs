//! The cursor-position query: collecting and reading the terminal's answer.
//!
//! The terminal answers a Device Status Report request with
//! `ESC [ row ; col R`, row and column in decimal. The answer arrives byte by
//! byte and may never be complete; a [`ResponseReader`] decides when to stop
//! reading, and [`parse_cursor_row`] reads the row out of what arrived, or
//! nothing when the bytes are not such an answer.

use vstd::prelude::*;

verus! {

/// The longest answer that is read, in bytes.
pub const RESPONSE_LIMIT: usize = 32;

pub const ESCAPE: u8 = 0x1b;

pub const BRACKET: u8 = 0x5b;

pub const SEMICOLON: u8 = 0x3b;

/// The byte `R`, which ends the answer.
pub const TERMINATOR: u8 = 0x52;

pub open spec fn is_digit(b: u8) -> bool {
    0x30 <= b <= 0x39
}

pub open spec fn all_digits(s: Seq<u8>) -> bool {
    forall|i: int| 0 <= i < s.len() ==> is_digit(#[trigger] s[i])
}

/// A number in decimal: digits, at least one, and nothing else.
pub open spec fn is_number(s: Seq<u8>) -> bool {
    s.len() > 0 && all_digits(s)
}

/// The number that a run of decimal digits denotes.
pub open spec fn digits_value(s: Seq<u8>) -> nat
    decreases s.len(),
{
    if s.len() == 0 {
        0
    } else {
        digits_value(s.drop_last()) * 10 + (s.last() - 0x30) as nat
    }
}

/// A 16-bit number in decimal: a number, leading zeros allowed, with a
/// value of at most 65535.
pub open spec fn parse_u16_spec(s: Seq<u8>) -> Option<u16> {
    if is_number(s) && digits_value(s) <= u16::MAX {
        Some(digits_value(s) as u16)
    } else {
        None
    }
}

/// The position of the first semicolon of `s` at or after `from` and before
/// `to`, or `to` if there is none.
pub open spec fn field_end(s: Seq<u8>, from: int, to: int) -> int
    decreases to - from,
{
    if from >= to || s[from] == SEMICOLON {
        from
    } else {
        field_end(s, from + 1, to)
    }
}

/// The bytes have the frame of an answer: they start with `ESC [` and end
/// with `R`.
pub open spec fn is_framed(bytes: Seq<u8>) -> bool {
    &&& bytes.len() >= 3
    &&& bytes[0] == ESCAPE
    &&& bytes[1] == BRACKET
    &&& bytes.last() == TERMINATOR
}

/// Where the semicolon of an answer stands: the first one between `ESC [`
/// and the final `R`, or the place of the `R` where there is none.
pub open spec fn separator(bytes: Seq<u8>) -> int {
    field_end(bytes, 2, bytes.len() - 1)
}

/// The bytes are an answer: `ESC [`, the row, one semicolon, the column,
/// `R`, and nothing before, between or after. The row is a 16-bit number in
/// decimal; the column is a number in decimal of any size, since only its
/// form matters to the row.
pub open spec fn is_answer(bytes: Seq<u8>) -> bool {
    &&& is_framed(bytes)
    &&& separator(bytes) < bytes.len() - 1
    &&& parse_u16_spec(bytes.subrange(2, separator(bytes))) is Some
    &&& is_number(bytes.subrange(separator(bytes) + 1, bytes.len() - 1))
}

/// The row that an answer reports, and `None` for bytes that are not an
/// answer.
pub open spec fn cursor_row_spec(bytes: Seq<u8>) -> Option<u16> {
    if is_answer(bytes) {
        parse_u16_spec(bytes.subrange(2, separator(bytes)))
    } else {
        None
    }
}

/// The value of a run of digits only grows as digits are added.
proof fn lemma_digits_value_grows(s: Seq<u8>, k: int)
    requires
        0 <= k <= s.len(),
        all_digits(s),
    ensures
        digits_value(s.take(k)) <= digits_value(s),
    decreases s.len() - k,
{
    if k < s.len() {
        lemma_digits_value_grows(s, k + 1);
        assert(s.take(k + 1).drop_last() =~= s.take(k));
        assert(is_digit(s[k]));
    } else {
        assert(s.take(k) =~= s);
    }
}

/// An answer holds one semicolon and no more, and each of its bytes is one
/// of `ESC`, `[`, `;`, `R` and the ten digits.
pub proof fn lemma_answer_shape(bytes: Seq<u8>, i: int)
    requires
        is_answer(bytes),
        0 <= i < bytes.len(),
    ensures
        2 <= separator(bytes) < bytes.len() - 1,
        bytes[separator(bytes)] == SEMICOLON,
        i != separator(bytes) ==> bytes[i] != SEMICOLON,
        2 <= i < bytes.len() - 1 && i != separator(bytes) ==> is_digit(bytes[i]),
{
    let end = bytes.len() - 1;
    let at = separator(bytes);
    lemma_field_end(bytes, 2, end);
    let row = bytes.subrange(2, at);
    let col = bytes.subrange(at + 1, end);
    if 2 <= i < at {
        assert(row[i - 2] == bytes[i]);
    } else if at < i < end {
        assert(col[i - at - 1] == bytes[i]);
    }
}

/// The first semicolon of a field stands inside it where there is one, and
/// nothing before it is a semicolon.
pub proof fn lemma_field_end(s: Seq<u8>, from: int, to: int)
    requires
        0 <= from <= to <= s.len(),
    ensures
        from <= field_end(s, from, to) <= to,
        field_end(s, from, to) < to ==> s[field_end(s, from, to)] == SEMICOLON,
        forall|j: int| from <= j < field_end(s, from, to) ==> s[j] != SEMICOLON,
    decreases to - from,
{
    if from < to && s[from] != SEMICOLON {
        lemma_field_end(s, from + 1, to);
    }
}

/// Whether `bytes[from..to]` is a number in decimal.
fn digits_only(bytes: &[u8], from: usize, to: usize) -> (r: bool)
    requires
        from <= to <= bytes@.len(),
    ensures
        r == is_number(bytes@.subrange(from as int, to as int)),
{
    let ghost field = bytes@.subrange(from as int, to as int);
    if from == to {
        return false;
    }
    let mut i: usize = from;
    while i < to
        invariant
            from <= i <= to <= bytes@.len(),
            field == bytes@.subrange(from as int, to as int),
            forall|j: int| 0 <= j < i - from ==> is_digit(#[trigger] field[j]),
        decreases to - i,
    {
        let b: u8 = bytes[i];
        assert(field[i - from] == b);
        if b < 0x30 || b > 0x39 {
            return false;
        }
        i += 1;
    }
    true
}

/// Reads a 16-bit decimal number from `bytes[from..to]`.
fn parse_u16(bytes: &[u8], from: usize, to: usize) -> (r: Option<u16>)
    requires
        from <= to <= bytes@.len(),
    ensures
        r == parse_u16_spec(bytes@.subrange(from as int, to as int)),
{
    let ghost field = bytes@.subrange(from as int, to as int);
    if from == to {
        return None;
    }
    let mut i: usize = from;
    let mut value: u32 = 0;
    while i < to
        invariant
            from <= i <= to <= bytes@.len(),
            field == bytes@.subrange(from as int, to as int),
            all_digits(field.take(i - from)),
            value == digits_value(field.take(i - from)),
            value <= u16::MAX,
        decreases to - i,
    {
        let b: u8 = bytes[i];
        let ghost k: int = i - from;
        assert(field[k] == b);
        if b < 0x30 || b > 0x39 {
            assert(!is_digit(field[k]));
            return None;
        }
        assert(field.take(k + 1).drop_last() =~= field.take(k));
        assert(all_digits(field.take(k + 1))) by {
            assert forall|j: int| 0 <= j < k + 1 implies is_digit(
                #[trigger] field.take(k + 1)[j],
            ) by {
                if j < k {
                    assert(field.take(k)[j] == field.take(k + 1)[j]);
                }
            }
        }
        let next: u32 = value * 10 + (b - 0x30) as u32;
        if next > 0xFFFF {
            proof {
                if all_digits(field) {
                    lemma_digits_value_grows(field, k + 1);
                }
            }
            return None;
        }
        value = next;
        i += 1;
    }
    assert(field.take(i - from) =~= field);
    Some(value as u16)
}

/// Reads the cursor row out of the terminal's answer to a cursor-position
/// query. Bytes that are not an answer, and an answer that is cut short,
/// give no row.
pub fn parse_cursor_row(bytes: &[u8]) -> (r: Option<u16>)
    ensures
        r == cursor_row_spec(bytes@),
        r is Some <==> is_answer(bytes@),
        bytes@.len() == 0 || bytes@.last() != TERMINATOR ==> r is None,
{
    let n: usize = bytes.len();
    if n < 3 || bytes[0] != ESCAPE || bytes[1] != BRACKET || bytes[n - 1] != TERMINATOR {
        return None;
    }
    let mut at: usize = 2;
    while at < n - 1 && bytes[at] != SEMICOLON
        invariant
            2 <= at <= n - 1,
            n == bytes@.len(),
            field_end(bytes@, at as int, n - 1) == field_end(bytes@, 2, n - 1),
        decreases n - at,
    {
        at += 1;
    }
    if at == n - 1 {
        return None;
    }
    if !digits_only(bytes, at + 1, n - 1) {
        return None;
    }
    parse_u16(bytes, 2, at)
}

/// The bytes of an answer as they arrive.
pub struct ResponseReader {
    pub bytes: Vec<u8>,
}

impl ResponseReader {
    /// Nothing more is read: the terminator has arrived or the limit is
    /// reached.
    pub open spec fn is_complete_spec(&self) -> bool {
        self.bytes@.len() >= RESPONSE_LIMIT || (self.bytes@.len() > 0 && self.bytes@.last()
            == TERMINATOR)
    }

    pub fn new() -> (r: ResponseReader)
        ensures
            r.bytes@.len() == 0,
            !r.is_complete_spec(),
    {
        ResponseReader { bytes: Vec::new() }
    }

    #[verifier::when_used_as_spec(is_complete_spec)]
    pub fn is_complete(&self) -> (r: bool)
        ensures
            r == self.is_complete_spec(),
    {
        let n: usize = self.bytes.len();
        n >= RESPONSE_LIMIT || (n > 0 && self.bytes[n - 1] == TERMINATOR)
    }

    /// Takes the next byte that the terminal sent and says whether to read
    /// on. A byte that arrives after the answer is complete is dropped.
    pub fn accept(&mut self, byte: u8) -> (more: bool)
        ensures
            final(self).bytes@ == if old(self).is_complete() {
                old(self).bytes@
            } else {
                old(self).bytes@.push(byte)
            },
            more == !final(self).is_complete(),
    {
        if !self.is_complete() {
            self.bytes.push(byte);
        }
        !self.is_complete()
    }

    /// The cursor row that the bytes read so far report, if they are a
    /// complete answer.
    pub fn cursor_row(&self) -> (r: Option<u16>)
        ensures
            r == cursor_row_spec(self.bytes@),
    {
        parse_cursor_row(self.bytes.as_slice())
    }
}

} // verus!
