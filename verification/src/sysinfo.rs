//! Reading what the system says of itself.
//!
//! The texts come from files that the system keeps, such as
//! `/etc/os-release` and `/proc/meminfo`; getting hold of them is left to
//! the caller.

use vstd::prelude::*;
use vstd::string::StringExecFns;

use crate::ansi::{decimal, push_number};
use crate::text::{
    after_last, after_last_spec, chars_of, find, find_with_prefix, first_with_prefix, lines,
    lines_spec, parse_u64, parse_u64_spec, position_of, slice_of, string_of, trimmed,
    trimmed_spec, without_surrounding, without_surrounding_spec,
};

verus! {

/// Kibibytes in a mebibyte.
pub const KIB_PER_MIB: u64 = 1024;

pub const SECONDS_PER_MINUTE: u64 = 60;

pub const SECONDS_PER_HOUR: u64 = 3_600;

pub const SECONDS_PER_DAY: u64 = 86_400;

/// The value that a text of lines gives to a key: on the first line that
/// starts with the key, what follows the first separator, without the
/// white space and then the quotation marks around it. Empty where no line
/// starts with the key or that line has no separator.
pub open spec fn keyed_value_spec(text: Seq<char>, key: Seq<char>, separator: char) -> Seq<char> {
    match first_with_prefix(lines_spec(text), key, 0) {
        Some(line) => {
            let at = position_of(line, separator, 0);
            if at < line.len() {
                without_surrounding_spec(trimmed_spec(line.skip(at + 1)), '"')
            } else {
                Seq::empty()
            }
        },
        None => Seq::empty(),
    }
}

/// Reads the value of a key out of a text of lines.
pub fn keyed_value(text: &str, key: &str, separator: char) -> (r: String)
    ensures
        r@ == keyed_value_spec(text@, key@, separator),
{
    let chars: Vec<char> = chars_of(text);
    let all: Vec<Vec<char>> = lines(chars.as_slice());
    let prefix: Vec<char> = chars_of(key);
    match find_with_prefix(&all, prefix.as_slice()) {
        Some(i) => {
            let line: &Vec<char> = &all[i];
            let at: usize = find(line.as_slice(), separator, 0);
            if at < line.len() {
                let rest: Vec<char> = slice_of(line.as_slice(), at + 1, line.len());
                assert(rest@ =~= line@.skip(at + 1));
                let bare: Vec<char> = trimmed(rest.as_slice());
                let value: Vec<char> = without_surrounding(bare.as_slice(), '"');
                string_of(value.as_slice())
            } else {
                String::new()
            }
        },
        None => String::new(),
    }
}

/// The name of a system as its `os-release` file states it for display.
pub fn pretty_name(os_release: &str) -> (r: String)
    ensures
        r@ == keyed_value_spec(os_release@, "PRETTY_NAME="@, '='),
{
    keyed_value(os_release, "PRETTY_NAME=", '=')
}

/// The model of the processor as `/proc/cpuinfo` states it.
pub fn cpu_model(cpuinfo: &str) -> (r: String)
    ensures
        r@ == keyed_value_spec(cpuinfo@, "model name"@, ':'),
{
    keyed_value(cpuinfo, "model name", ':')
}

/// The number that a text starts with, up to the first `stop`: zero where
/// there is no number there.
pub open spec fn leading_number_spec(text: Seq<char>, stop: char) -> u64 {
    match parse_u64_spec(text.take(position_of(text, stop, 0))) {
        Some(n) => n,
        None => 0,
    }
}

/// Reads the number that a text starts with.
pub fn leading_number(text: &str, stop: char) -> (r: u64)
    ensures
        r == leading_number_spec(text@, stop),
{
    let chars: Vec<char> = chars_of(text);
    let at: usize = find(chars.as_slice(), stop, 0);
    let head: Vec<char> = slice_of(chars.as_slice(), 0, at);
    assert(head@ =~= text@.take(at as int));
    match parse_u64(head.as_slice()) {
        Some(n) => n,
        None => 0,
    }
}

/// Whole seconds that the system is up, as `/proc/uptime` states them
/// before the decimal point.
pub fn uptime_seconds(proc_uptime: &str) -> (r: u64)
    ensures
        r == leading_number_spec(proc_uptime@, '.'),
{
    leading_number(proc_uptime, '.')
}

/// An amount of memory in kibibytes as `/proc/meminfo` states it under a
/// key, zero where it states none.
pub fn meminfo_kib(meminfo: &str, key: &str) -> (r: u64)
    ensures
        r == leading_number_spec(keyed_value_spec(meminfo@, key@, ':'), ' '),
{
    let value: String = keyed_value(meminfo, key, ':');
    leading_number(value.as_str(), ' ')
}

/// A time in seconds as days, hours and minutes: the days and hours only
/// where there are any, and nothing at all for no time.
pub open spec fn uptime_text_spec(seconds: u64) -> Seq<char> {
    let days = (seconds / SECONDS_PER_DAY) as nat;
    let hours = (seconds % SECONDS_PER_DAY / SECONDS_PER_HOUR) as nat;
    let minutes = (seconds % SECONDS_PER_HOUR / SECONDS_PER_MINUTE) as nat;
    if seconds == 0 {
        Seq::empty()
    } else if days > 0 {
        decimal(days) + "d "@ + decimal(hours) + "h "@ + decimal(minutes) + "m"@
    } else if hours > 0 {
        decimal(hours) + "h "@ + decimal(minutes) + "m"@
    } else {
        decimal(minutes) + "m"@
    }
}

pub fn uptime_text(seconds: u64) -> (r: String)
    ensures
        r@ == uptime_text_spec(seconds),
{
    let mut out = String::new();
    if seconds == 0 {
        return out;
    }
    let days: u64 = seconds / SECONDS_PER_DAY;
    let hours: u64 = seconds % SECONDS_PER_DAY / SECONDS_PER_HOUR;
    let minutes: u64 = seconds % SECONDS_PER_HOUR / SECONDS_PER_MINUTE;
    if days > 0 {
        push_number(&mut out, days);
        out.append("d ");
    }
    if days > 0 || hours > 0 {
        push_number(&mut out, hours);
        out.append("h ");
    }
    push_number(&mut out, minutes);
    out.append("m");
    assert(out@ =~= uptime_text_spec(seconds));
    out
}

/// The memory in use out of the memory there is, in mebibytes; nothing
/// where the total is not known.
pub open spec fn memory_text_spec(total_kib: u64, available_kib: u64) -> Seq<char> {
    let used: int = if total_kib >= available_kib {
        total_kib - available_kib
    } else {
        0
    };
    if total_kib == 0 {
        Seq::empty()
    } else {
        decimal((used / KIB_PER_MIB as int) as nat) + " MiB / "@ + decimal(
            (total_kib / KIB_PER_MIB) as nat,
        ) + " MiB"@
    }
}

pub fn memory_text(total_kib: u64, available_kib: u64) -> (r: String)
    ensures
        r@ == memory_text_spec(total_kib, available_kib),
{
    let mut out = String::new();
    if total_kib == 0 {
        return out;
    }
    let used: u64 = if total_kib >= available_kib {
        total_kib - available_kib
    } else {
        0
    };
    push_number(&mut out, used / KIB_PER_MIB);
    out.append(" MiB / ");
    push_number(&mut out, total_kib / KIB_PER_MIB);
    out.append(" MiB");
    assert(out@ =~= memory_text_spec(total_kib, available_kib));
    out
}

/// The name of a shell: what follows the last `/` of its path.
pub fn shell_name(path: &str) -> (r: String)
    ensures
        r@ == after_last_spec(path@, '/'),
{
    let chars: Vec<char> = chars_of(path);
    let name: Vec<char> = after_last(chars.as_slice(), '/');
    string_of(name.as_slice())
}

/// The title of the display: the user at the host.
pub fn title(user: &str, host: &str) -> (r: String)
    ensures
        r@ == user@ + "@"@ + host@,
{
    let mut out: String = String::from_str(user);
    out.append("@");
    out.append(host);
    out
}

/// The digit of a value below sixteen in hexadecimal, in lowercase.
pub open spec fn hex_digit(v: int) -> char {
    if v < 10 {
        ((48 + v) as u8) as char
    } else {
        ((87 + v) as u8) as char
    }
}

/// A character as it stands inside a JSON string: quotation mark and
/// backslash after a backslash, line feed, carriage return and tab by
/// their letters, every other control character by its number, and all
/// others as they are.
pub open spec fn json_char(c: char) -> Seq<char> {
    if c == '"' {
        "\\\""@
    } else if c == '\\' {
        "\\\\"@
    } else if c == '\n' {
        "\\n"@
    } else if c == '\r' {
        "\\r"@
    } else if c == '\t' {
        "\\t"@
    } else if (c as u32) < 0x20 {
        "\\u00"@.push(hex_digit((c as u32 / 16) as int)).push(hex_digit((c as u32 % 16) as int))
    } else {
        seq![c]
    }
}

/// The characters of the first `n` characters of a text as they stand
/// inside a JSON string.
pub open spec fn json_chars(text: Seq<char>, n: int) -> Seq<char>
    decreases n,
{
    if n <= 0 {
        Seq::empty()
    } else {
        json_chars(text, n - 1) + json_char(text[n - 1])
    }
}

/// A text as a JSON string.
pub open spec fn json_string_spec(text: Seq<char>) -> Seq<char> {
    "\""@ + json_chars(text, text.len() as int) + "\""@
}

fn hex(v: u32) -> (c: char)
    requires
        v < 16,
    ensures
        c == hex_digit(v as int),
{
    if v < 10 {
        (48 + v as u8) as char
    } else {
        (87 + v as u8) as char
    }
}

/// Appends a text as a JSON string.
pub fn push_json_string(out: &mut String, text: &str)
    ensures
        final(out)@ == old(out)@ + json_string_spec(text@),
{
    out.append("\"");
    let ghost start = out@;
    for c in it: text.chars()
        invariant
            it.seq() == text@,
            out@ == start + json_chars(text@, it.index() as int),
    {
        let ghost before = out@;
        if c == '"' {
            out.append("\\\"");
        } else if c == '\\' {
            out.append("\\\\");
        } else if c == '\n' {
            out.append("\\n");
        } else if c == '\r' {
            out.append("\\r");
        } else if c == '\t' {
            out.append("\\t");
        } else if (c as u32) < 0x20 {
            out.append("\\u00");
            out.push(hex(c as u32 / 16));
            out.push(hex(c as u32 % 16));
        } else {
            out.push(c);
        }
        assert(out@ =~= before + json_char(c));
        assert(out@ =~= start + json_chars(text@, it.index() + 1));
    }
    out.append("\"");
    assert(out@ =~= old(out)@ + json_string_spec(text@));
}

/// The members of a JSON object for the first `n` pairs, each after a
/// comma.
pub open spec fn json_members(pairs: Seq<(String, String)>, n: int) -> Seq<char>
    decreases n,
{
    if n <= 0 {
        Seq::empty()
    } else {
        json_members(pairs, n - 1) + ","@ + json_string_spec(pairs[n - 1].0@) + ":"@
            + json_string_spec(pairs[n - 1].1@)
    }
}

/// What is known of the system as a JSON object: the title, then the
/// fields in order.
pub open spec fn json_spec(title: Seq<char>, fields: Seq<(String, String)>) -> Seq<char> {
    "{"@ + json_string_spec("title"@) + ":"@ + json_string_spec(title) + json_members(
        fields,
        fields.len() as int,
    ) + "}"@
}

pub fn to_json(title: &str, fields: &Vec<(String, String)>) -> (r: String)
    ensures
        r@ == json_spec(title@, fields@),
{
    let mut out: String = String::from_str("{");
    push_json_string(&mut out, "title");
    out.append(":");
    push_json_string(&mut out, title);
    let ghost head = out@;
    let n: usize = fields.len();
    let mut i: usize = 0;
    while i < n
        invariant
            i <= n,
            n == fields@.len(),
            out@ == head + json_members(fields@, i as int),
        decreases n - i,
    {
        out.append(",");
        push_json_string(&mut out, fields[i].0.as_str());
        out.append(":");
        push_json_string(&mut out, fields[i].1.as_str());
        assert(out@ =~= head + json_members(fields@, i + 1));
        i += 1;
    }
    out.append("}");
    assert(out@ =~= json_spec(title@, fields@));
    out
}

} // verus!
