//! Where files are kept, as text.
//!
//! Paths are built from the home directory by the rule of the system's own
//! path type: a relative component is appended after a separator, which is
//! left out where the path is empty or ends with one already.

use vstd::prelude::*;
use vstd::string::StringExecFns;

use crate::text::{chars_of, string_of};

verus! {

pub const SEPARATOR: char = '/';

/// A path with a relative component appended.
pub open spec fn joined(base: Seq<char>, component: Seq<char>) -> Seq<char> {
    if base.len() == 0 {
        component
    } else if base.last() == SEPARATOR {
        base + component
    } else {
        base.push(SEPARATOR) + component
    }
}

/// Appends a relative component to a path.
pub fn join(base: &str, component: &str) -> (r: String)
    ensures
        r@ == joined(base@, component@),
{
    let chars: Vec<char> = chars_of(base);
    let n: usize = chars.len();
    let mut out: String = string_of(chars.as_slice());
    if n > 0 && chars[n - 1] != SEPARATOR {
        out.push(SEPARATOR);
    }
    out.append(component);
    assert(out@ =~= joined(base@, component@));
    out
}

/// The directory of the configuration: `.config/blaeckfetch` under the
/// home directory, and under the current directory where no home is
/// known.
pub open spec fn config_dir_spec(home: Option<Seq<char>>) -> Seq<char> {
    match home {
        Some(h) => joined(joined(h, ".config"@), "blaeckfetch"@),
        None => ".config/blaeckfetch"@,
    }
}

pub fn config_dir(home: Option<&str>) -> (r: String)
    ensures
        r@ == config_dir_spec(
            match home {
                Some(h) => Some(h@),
                None => None,
            },
        ),
{
    match home {
        Some(h) => {
            let dir: String = join(h, ".config");
            join(dir.as_str(), "blaeckfetch")
        },
        None => String::from_str(".config/blaeckfetch"),
    }
}

/// The file of the cache: `.cache/blaeckfetch/cache` under the home
/// directory, and a file under `/tmp` where no home is known.
pub open spec fn cache_path_spec(home: Option<Seq<char>>) -> Seq<char> {
    match home {
        Some(h) => joined(joined(joined(h, ".cache"@), "blaeckfetch"@), "cache"@),
        None => "/tmp/blaeckfetch-cache"@,
    }
}

pub fn cache_path(home: Option<&str>) -> (r: String)
    ensures
        r@ == cache_path_spec(
            match home {
                Some(h) => Some(h@),
                None => None,
            },
        ),
{
    match home {
        Some(h) => {
            let a: String = join(h, ".cache");
            let b: String = join(a.as_str(), "blaeckfetch");
            join(b.as_str(), "cache")
        },
        None => String::from_str("/tmp/blaeckfetch-cache"),
    }
}

} // verus!
