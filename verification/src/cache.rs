//! A cache of values that are slow to find out, kept until the next boot.
//!
//! The cache is a list of keys and values. Its file holds one `key=value`
//! per line, line feeds within values written as `\n`, and the time of the
//! boot during which it was written under the key `boot_time`. A file from
//! another boot counts as empty.

use vstd::prelude::*;
use vstd::string::StringExecFns;

use crate::ansi::{decimal, push_number};
use crate::text::{
    chars_of, distinct_keys, find, lemma_lookup, lemma_lookup_distinct, lines, lines_spec,
    lookup, map_of, parse_u64, parse_u64_spec, position_of, push_chars, replaced, replaced_spec,
    same_text, slice_of, starts_with, starts_with_spec, string_of, trimmed, trimmed_spec, views,
};

verus! {

/// Key of the line that holds the boot time.
pub const BOOT_TIME_KEY: &'static str = "boot_time";

/// Start of the line of `/proc/stat` that holds the boot time.
pub const BTIME_PREFIX: &'static str = "btime ";

/// Values that are slow to find out, kept from one run to the next for as
/// long as the system is not booted again. No key occurs twice.
pub struct Cache {
    /// Time of the current boot, in seconds since the epoch.
    pub boot_time: u64,
    pub entries: Vec<(String, String)>,
    /// Something was added since the cache was loaded.
    pub dirty: bool,
}

/// A value as it stands in the file: line feeds written as a backslash
/// and an `n`.
pub open spec fn escaped(value: Seq<char>) -> Seq<char> {
    replaced_spec(value, "\n"@, "\\n"@)
}

/// A value as it is read from the file: every backslash followed by `n` is
/// a line feed.
pub open spec fn unescaped(value: Seq<char>) -> Seq<char> {
    replaced_spec(value, "\\n"@, "\n"@)
}

/// What the lines of a cache file hold: the entries, and the boot time
/// that the last `boot_time` line states, if that line states a number.
/// A line without `=` holds nothing; a key that comes again replaces the
/// value it had.
pub open spec fn read_lines(lines: Seq<Seq<char>>) -> (Map<Seq<char>, Seq<char>>, Option<u64>)
    decreases lines.len(),
{
    if lines.len() == 0 {
        (Map::empty(), None)
    } else {
        let before = read_lines(lines.drop_last());
        let line = lines.last();
        let eq = position_of(line, '=', 0);
        if eq >= line.len() {
            before
        } else if line.take(eq) == BOOT_TIME_KEY@ {
            (before.0, parse_u64_spec(line.skip(eq + 1)))
        } else {
            (before.0.insert(line.take(eq), unescaped(line.skip(eq + 1))), before.1)
        }
    }
}

/// The entries that a cache file holds for the boot at `boot_time`: those
/// it lists if it was written during that boot, else none. A file that is
/// not there holds none.
pub open spec fn cached_entries(content: Option<Seq<char>>, boot_time: u64) -> Map<
    Seq<char>,
    Seq<char>,
> {
    match content {
        Some(text) => {
            let read = read_lines(lines_spec(text));
            if read.1 == Some(boot_time) {
                read.0
            } else {
                Map::empty()
            }
        },
        None => Map::empty(),
    }
}

/// The text of the cache file for a boot time and entries.
pub open spec fn file_text(boot_time: u64, entries: Seq<(String, String)>) -> Seq<char> {
    BOOT_TIME_KEY@ + "="@ + decimal(boot_time as nat) + "\n"@ + entry_lines(entries)
}

/// The lines of the entries, in order.
pub open spec fn entry_lines(entries: Seq<(String, String)>) -> Seq<char>
    decreases entries.len(),
{
    if entries.len() == 0 {
        Seq::empty()
    } else {
        entry_lines(entries.drop_last()) + entries.last().0@ + "="@ + escaped(entries.last().1@)
            + "\n"@
    }
}

/// The boot time that the text of `/proc/stat` states: the number on the
/// first of the lines from `from` on that starts with `btime ` and goes on
/// with a number, white space around it aside. Zero where there is no
/// such line.
pub open spec fn btime_in(lines: Seq<Seq<char>>, from: int) -> u64
    decreases lines.len() - from,
{
    if from >= lines.len() {
        0
    } else if starts_with_spec(lines[from], BTIME_PREFIX@) && parse_u64_spec(
        trimmed_spec(lines[from].skip(BTIME_PREFIX@.len() as int)),
    ) is Some {
        parse_u64_spec(trimmed_spec(lines[from].skip(BTIME_PREFIX@.len() as int)))->0
    } else {
        btime_in(lines, from + 1)
    }
}

/// Reads the time of the boot out of the text of `/proc/stat`.
pub fn boot_time_from_stat(stat: &str) -> (r: u64)
    ensures
        r == btime_in(lines_spec(stat@), 0),
{
    let chars: Vec<char> = chars_of(stat);
    let all: Vec<Vec<char>> = lines(chars.as_slice());
    let prefix: Vec<char> = chars_of(BTIME_PREFIX);
    let n: usize = all.len();
    let mut i: usize = 0;
    while i < n
        invariant
            i <= n,
            n == all@.len(),
            prefix@ == BTIME_PREFIX@,
            views(all@) == lines_spec(stat@),
            btime_in(views(all@), i as int) == btime_in(views(all@), 0),
        decreases n - i,
    {
        let line: &Vec<char> = &all[i];
        assert(views(all@)[i as int] == line@);
        if starts_with(line.as_slice(), prefix.as_slice()) {
            let rest: Vec<char> = slice_of(line.as_slice(), prefix.len(), line.len());
            assert(rest@ =~= line@.skip(BTIME_PREFIX@.len() as int));
            let bare: Vec<char> = trimmed(rest.as_slice());
            match parse_u64(bare.as_slice()) {
                Some(t) => {
                    return t;
                },
                None => {},
            }
        }
        i += 1;
    }
    0
}

/// Sets the value of a key: in place where a pair holds the key, else in a
/// pair added at the end.
fn put(entries: &mut Vec<(String, String)>, key: String, value: String)
    requires
        distinct_keys(old(entries)@),
    ensures
        distinct_keys(final(entries)@),
        map_of(final(entries)@) == map_of(old(entries)@).insert(key@, value@),
{
    let ghost before = entries@;
    let ghost k = key@;
    let ghost v = value@;
    let n: usize = entries.len();
    let mut i: usize = 0;
    while i < n
        invariant
            i <= n,
            n == entries@.len(),
            entries@ == before,
            before == old(entries)@,
            distinct_keys(before),
            k == key@,
            v == value@,
            forall|j: int| 0 <= j < i ==> (#[trigger] before[j]).0@ != k,
        decreases n - i,
    {
        if same_text(entries[i].0.as_str(), key.as_str()) {
            entries.set(i, (key, value));
            proof {
                let after = entries@;
                assert(distinct_keys(after)) by {
                    assert forall|a: int, b: int| 0 <= a < b < after.len() implies (
                    #[trigger] after[a]).0@ != (#[trigger] after[b]).0@ by {
                        assert(before[a].0@ != before[b].0@);
                    }
                }
                assert forall|q: Seq<char>| #[trigger]
                    lookup(after, q, 0) == (if q == k {
                        Some(v)
                    } else {
                        lookup(before, q, 0)
                    }) by {
                    lemma_lookup(after, q, 0);
                    lemma_lookup(before, q, 0);
                    if q == k {
                        lemma_lookup_distinct(after, i as int);
                    } else {
                        if lookup(before, q, 0) is Some {
                            let j = choose|j: int|
                                0 <= j < before.len() && (#[trigger] before[j]).0@ == q
                                    && before[j].1@ == lookup(before, q, 0)->0;
                            assert(j != i);
                            assert(after[j] == before[j]);
                            lemma_lookup_distinct(after, j);
                        } else {
                            assert forall|j: int| 0 <= j < after.len() implies (
                            #[trigger] after[j]).0@ != q by {
                                if j != i {
                                    assert(after[j] == before[j]);
                                    assert(before[j].0@ != q);
                                }
                            }
                        }
                    }
                }
                assert(map_of(after) =~= map_of(before).insert(k, v));
            }
            return ;
        }
        i += 1;
    }
    entries.push((key, value));
    proof {
        let after = entries@;
        assert(distinct_keys(after)) by {
            assert forall|a: int, b: int| 0 <= a < b < after.len() implies (#[trigger] after[a]).0@
                != (#[trigger] after[b]).0@ by {
                if b < before.len() {
                    assert(before[a].0@ != before[b].0@);
                } else {
                    assert(before[a].0@ != k);
                }
            }
        }
        assert forall|q: Seq<char>| #[trigger]
            lookup(after, q, 0) == (if q == k {
                Some(v)
            } else {
                lookup(before, q, 0)
            }) by {
            lemma_lookup(after, q, 0);
            lemma_lookup(before, q, 0);
            if q == k {
                lemma_lookup_distinct(after, n as int);
            } else {
                if lookup(before, q, 0) is Some {
                    let j = choose|j: int|
                        0 <= j < before.len() && (#[trigger] before[j]).0@ == q && before[j].1@
                            == lookup(before, q, 0)->0;
                    assert(after[j] == before[j]);
                    lemma_lookup_distinct(after, j);
                } else {
                    assert forall|j: int| 0 <= j < after.len() implies (#[trigger] after[j]).0@
                        != q by {
                        if j < before.len() {
                            assert(after[j] == before[j]);
                            assert(before[j].0@ != q);
                        }
                    }
                }
            }
        }
        assert(map_of(after) =~= map_of(before).insert(k, v));
    }
}

impl Cache {
    /// No key is held twice.
    pub open spec fn wf(&self) -> bool {
        distinct_keys(self.entries@)
    }

    /// Whether the cache meets [`Cache::wf`].
    pub fn is_valid(&self) -> (r: bool)
        ensures
            r == self.wf(),
    {
        let n: usize = self.entries.len();
        let mut j: usize = 0;
        while j < n
            invariant
                j <= n,
                n == self.entries@.len(),
                forall|a: int, b: int|
                    0 <= a < b < j ==> (#[trigger] self.entries@[a]).0@ != (
                    #[trigger] self.entries@[b]).0@,
            decreases n - j,
        {
            let mut i: usize = 0;
            while i < j
                invariant
                    i <= j < n,
                    n == self.entries@.len(),
                    forall|a: int| 0 <= a < i ==> (#[trigger] self.entries@[a]).0@
                        != self.entries@[j as int].0@,
                decreases j - i,
            {
                if same_text(self.entries[i].0.as_str(), self.entries[j].0.as_str()) {
                    return false;
                }
                i += 1;
            }
            j += 1;
        }
        true
    }

    /// The cache for the boot at `boot_time`, filled from the text of the
    /// cache file, if there is one.
    pub fn load(content: Option<&str>, boot_time: u64) -> (r: Cache)
        ensures
            r.wf(),
            r.boot_time == boot_time,
            !r.dirty,
            r@ == cached_entries(
                match content {
                    Some(text) => Some(text@),
                    None => None,
                },
                boot_time,
            ),
    {
        let mut entries: Vec<(String, String)> = Vec::new();
        let mut written_at: Option<u64> = None;
        assert(map_of(entries@) =~= Map::<Seq<char>, Seq<char>>::empty());
        match content {
            Some(text) => {
                let chars: Vec<char> = chars_of(text);
                let all: Vec<Vec<char>> = lines(chars.as_slice());
                let key_name: Vec<char> = chars_of(BOOT_TIME_KEY);
                let from: Vec<char> = chars_of("\\n");
                let to: Vec<char> = chars_of("\n");
                let n: usize = all.len();
                let mut i: usize = 0;
                assert(views(all@).take(0) =~= Seq::<Seq<char>>::empty());
                while i < n
                    invariant
                        i <= n,
                        n == all@.len(),
                        key_name@ == BOOT_TIME_KEY@,
                        from@ == "\\n"@,
                        to@ == "\n"@,
                        distinct_keys(entries@),
                        (map_of(entries@), written_at) == read_lines(views(all@).take(i as int)),
                    decreases n - i,
                {
                    let line: &Vec<char> = &all[i];
                    let ghost so_far = views(all@).take(i as int);
                    assert(views(all@).take(i + 1).drop_last() =~= so_far);
                    assert(views(all@).take(i + 1).last() == line@);
                    let eq: usize = find(line.as_slice(), '=', 0);
                    if eq < line.len() {
                        let key: Vec<char> = slice_of(line.as_slice(), 0, eq);
                        let value: Vec<char> = slice_of(line.as_slice(), eq + 1, line.len());
                        assert(key@ =~= line@.take(eq as int));
                        assert(value@ =~= line@.skip(eq + 1));
                        if crate::text::found_at(key.as_slice(), key_name.as_slice(), 0)
                            && key.len() == key_name.len() {
                            assert(key@.subrange(0, key@.len() as int) =~= key@);
                            written_at = parse_u64(value.as_slice());
                        } else {
                            assert(key@ != BOOT_TIME_KEY@) by {
                                if key@ == BOOT_TIME_KEY@ {
                                    assert(key@.subrange(0, key@.len() as int) =~= key@);
                                }
                            }
                            let plain: Vec<char> = replaced(
                                value.as_slice(),
                                from.as_slice(),
                                to.as_slice(),
                            );
                            put(
                                &mut entries,
                                string_of(key.as_slice()),
                                string_of(plain.as_slice()),
                            );
                        }
                    }
                    i += 1;
                }
                assert(views(all@).take(n as int) =~= views(all@));
            },
            None => {},
        }
        let fresh: bool = match written_at {
            Some(t) => t == boot_time,
            None => false,
        };
        if !fresh {
            entries = Vec::new();
            assert(map_of(entries@) =~= Map::<Seq<char>, Seq<char>>::empty());
        }
        Cache { boot_time, entries, dirty: false }
    }

    /// The value of a key: the one that the cache holds, or else the one
    /// that `f` makes, which the cache then holds under the key.
    pub fn get_or_insert<F: FnOnce() -> String>(&mut self, key: &str, f: F) -> (r: String)
        requires
            call_requires(f, ()),
        ensures
            final(self).boot_time == old(self).boot_time,
            match old(self)@.get(key@) {
                Some(held) => {
                    &&& r@ == held
                    &&& final(self).entries@ == old(self).entries@
                    &&& final(self).dirty == old(self).dirty
                },
                None => {
                    &&& call_ensures(f, (), r)
                    &&& final(self).entries@.len() == old(self).entries@.len() + 1
                    &&& final(self).entries@.drop_last() == old(self).entries@
                    &&& final(self).entries@.last().0@ == key@
                    &&& final(self).entries@.last().1@ == r@
                    &&& final(self)@ == old(self)@.insert(key@, r@)
                    &&& final(self).dirty
                    &&& (old(self).wf() ==> final(self).wf())
                },
            },
    {
        let ghost before = self.entries@;
        let n: usize = self.entries.len();
        let mut i: usize = 0;
        while i < n
            invariant
                i <= n,
                n == self.entries@.len(),
                self.entries@ == before,
                *self == *old(self),
                lookup(before, key@, i as int) == lookup(before, key@, 0),
                forall|j: int| 0 <= j < i ==> (#[trigger] before[j]).0@ != key@,
            decreases n - i,
        {
            if same_text(self.entries[i].0.as_str(), key) {
                let held: String = self.entries[i].1.clone();
                assert(lookup(before, key@, i as int) == Some(held@));
                return held;
            }
            i += 1;
        }
        let value: String = f();
        self.entries.push((key.to_owned(), value.clone()));
        self.dirty = true;
        proof {
            let after = self.entries@;
            assert(after.drop_last() =~= before);
            assert(lookup(before, key@, 0) is None);
            assert forall|q: Seq<char>| #[trigger]
                lookup(after, q, 0) == (if q == key@ {
                    Some(value@)
                } else {
                    lookup(before, q, 0)
                }) by {
                lemma_lookup(after, q, 0);
                lemma_lookup(before, q, 0);
                if q == key@ {
                    assert(after[n as int].0@ == q);
                    let j = choose|j: int|
                        0 <= j < after.len() && (#[trigger] after[j]).0@ == q && after[j].1@
                            == lookup(after, q, 0)->0 && forall|m: int|
                            0 <= m < j ==> (#[trigger] after[m]).0@ != q;
                    if j < n {
                        assert(after[j] == before[j]);
                    }
                } else {
                    if lookup(before, q, 0) is Some {
                        let j = choose|j: int|
                            0 <= j < before.len() && (#[trigger] before[j]).0@ == q && before[j].1@
                                == lookup(before, q, 0)->0 && forall|m: int|
                                0 <= m < j ==> (#[trigger] before[m]).0@ != q;
                        assert(after[j] == before[j]);
                        let j2 = choose|j2: int|
                            0 <= j2 < after.len() && (#[trigger] after[j2]).0@ == q
                                && after[j2].1@ == lookup(after, q, 0)->0 && forall|m: int|
                                0 <= m < j2 ==> (#[trigger] after[m]).0@ != q;
                        if j2 < j {
                            assert(after[j2] == before[j2]);
                        } else if j < j2 {
                            assert(after[j].0@ != q);
                        }
                    } else {
                        assert forall|j: int| 0 <= j < after.len() implies (
                        #[trigger] after[j]).0@ != q by {
                            if j < before.len() {
                                assert(after[j] == before[j]);
                                assert(before[j].0@ != q);
                            }
                        }
                    }
                }
            }
            assert(map_of(after) =~= map_of(before).insert(key@, value@));
            if old(self).wf() {
                assert forall|a: int, b: int| 0 <= a < b < after.len() implies (
                #[trigger] after[a]).0@ != (#[trigger] after[b]).0@ by {
                    if b < before.len() {
                        assert(after[a] == before[a]);
                        assert(after[b] == before[b]);
                        assert(before[a].0@ != before[b].0@);
                    } else {
                        assert(after[a] == before[a]);
                        assert(before[a].0@ != key@);
                    }
                }
            }
        }
        value
    }

    /// The text to write to the cache file, if anything was added since
    /// the cache was loaded.
    pub fn save(&self) -> (r: Option<String>)
        ensures
            match r {
                Some(text) => self.dirty && text@ == file_text(self.boot_time, self.entries@),
                None => !self.dirty,
            },
    {
        if !self.dirty {
            return None;
        }
        let mut out = String::new();
        out.append(BOOT_TIME_KEY);
        out.append("=");
        push_number(&mut out, self.boot_time);
        out.append("\n");
        let ghost head = out@;
        let from: Vec<char> = chars_of("\n");
        let to: Vec<char> = chars_of("\\n");
        let n: usize = self.entries.len();
        let mut i: usize = 0;
        assert(self.entries@.take(0) =~= Seq::<(String, String)>::empty());
        while i < n
            invariant
                i <= n,
                n == self.entries@.len(),
                from@ == "\n"@,
                to@ == "\\n"@,
                out@ == head + entry_lines(self.entries@.take(i as int)),
            decreases n - i,
        {
            let ghost before = out@;
            out.append(self.entries[i].0.as_str());
            out.append("=");
            let value: Vec<char> = chars_of(self.entries[i].1.as_str());
            let written: Vec<char> = replaced(value.as_slice(), from.as_slice(), to.as_slice());
            push_chars(&mut out, written.as_slice());
            out.append("\n");
            assert(self.entries@.take(i + 1).drop_last() =~= self.entries@.take(i as int));
            assert(out@ =~= head + entry_lines(self.entries@.take(i + 1)));
            i += 1;
        }
        assert(self.entries@.take(n as int) =~= self.entries@);
        assert(out@ =~= file_text(self.boot_time, self.entries@));
        Some(out)
    }
}

impl View for Cache {
    type V = Map<Seq<char>, Seq<char>>;

    /// The cache as a map from keys to values.
    open spec fn view(&self) -> Map<Seq<char>, Seq<char>> {
        map_of(self.entries@)
    }
}

} // verus!
