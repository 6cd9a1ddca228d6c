//! The display modes and what each shows when nothing is configured.

use vstd::prelude::*;
use vstd::string::StringExecFns;

use crate::text::same_text;

verus! {

/// What the program shows.
#[derive(Clone, Copy, Debug, PartialEq, Eq, Structural)]
pub enum Mode {
    /// A small logo and a few fields.
    Default,
    /// The classic layout: the system's logo and every field.
    Neofetch,
    /// The animated splash.
    Splash,
}

/// The texts of a sequence of strings.
pub open spec fn texts(v: Seq<String>) -> Seq<Seq<char>> {
    Seq::new(v.len(), |i: int| text_at(v, i))
}

/// The text of the `i`-th string.
pub open spec fn text_at(v: Seq<String>, i: int) -> Seq<char> {
    v[i]@
}

/// A copy of a list of strings.
pub fn copy_of(v: &Vec<String>) -> (r: Vec<String>)
    ensures
        r@ == v@,
{
    let mut out: Vec<String> = Vec::new();
    let n: usize = v.len();
    let mut i: usize = 0;
    while i < n
        invariant
            i <= n,
            n == v@.len(),
            out@ == v@.take(i as int),
        decreases n - i,
    {
        out.push(v[i].clone());
        assert(v@.take(i + 1) =~= v@.take(i as int).push(v@[i as int]));
        i += 1;
    }
    assert(v@.take(n as int) =~= v@);
    out
}

/// The names of all fields, in the order in which they are shown.
pub open spec fn all_fields_spec() -> Seq<Seq<char>> {
    seq![
        "OS"@,
        "Host"@,
        "Kernel"@,
        "Uptime"@,
        "Packages"@,
        "Shell"@,
        "Resolution"@,
        "DE"@,
        "WM"@,
        "WM Theme"@,
        "Terminal"@,
        "CPU"@,
        "GPU"@,
        "Memory"@,
        "Disk (/)"@,
        "Local IP"@,
    ]
}

/// The names of the fields of the small display.
pub open spec fn few_fields_spec() -> Seq<Seq<char>> {
    seq!["OS"@, "Kernel"@, "Uptime"@, "Shell"@, "Terminal"@, "CPU"@, "Memory"@]
}

/// The names of all fields.
pub fn all_fields() -> (r: Vec<String>)
    ensures
        texts(r@) == all_fields_spec(),
{
    let mut v: Vec<String> = Vec::new();
    v.push(String::from_str("OS"));
    v.push(String::from_str("Host"));
    v.push(String::from_str("Kernel"));
    v.push(String::from_str("Uptime"));
    v.push(String::from_str("Packages"));
    v.push(String::from_str("Shell"));
    v.push(String::from_str("Resolution"));
    v.push(String::from_str("DE"));
    v.push(String::from_str("WM"));
    v.push(String::from_str("WM Theme"));
    v.push(String::from_str("Terminal"));
    v.push(String::from_str("CPU"));
    v.push(String::from_str("GPU"));
    v.push(String::from_str("Memory"));
    v.push(String::from_str("Disk (/)"));
    v.push(String::from_str("Local IP"));
    assert(texts(v@) =~= all_fields_spec());
    v
}

impl Mode {
    /// The mode that a name selects: `default`, `neofetch`, `splash` and,
    /// for the splash too, `boot`.
    pub open spec fn named(name: Seq<char>) -> Option<Mode> {
        if name == "default"@ {
            Some(Mode::Default)
        } else if name == "neofetch"@ {
            Some(Mode::Neofetch)
        } else if name == "splash"@ || name == "boot"@ {
            Some(Mode::Splash)
        } else {
            None
        }
    }

    pub fn from_str(s: &str) -> (r: Option<Mode>)
        ensures
            r == Self::named(s@),
    {
        if same_text(s, "default") {
            Some(Mode::Default)
        } else if same_text(s, "neofetch") {
            Some(Mode::Neofetch)
        } else if same_text(s, "splash") || same_text(s, "boot") {
            Some(Mode::Splash)
        } else {
            None
        }
    }

    /// The fields that the mode shows when none are configured: all of
    /// them in the classic layout, a few otherwise.
    pub open spec fn default_fields_spec(self) -> Seq<Seq<char>> {
        match self {
            Mode::Neofetch => all_fields_spec(),
            _ => few_fields_spec(),
        }
    }

    pub fn default_fields(&self) -> (r: Vec<String>)
        ensures
            texts(r@) == self.default_fields_spec(),
    {
        match self {
            Mode::Neofetch => all_fields(),
            _ => {
                let mut v: Vec<String> = Vec::new();
                v.push(String::from_str("OS"));
                v.push(String::from_str("Kernel"));
                v.push(String::from_str("Uptime"));
                v.push(String::from_str("Shell"));
                v.push(String::from_str("Terminal"));
                v.push(String::from_str("CPU"));
                v.push(String::from_str("Memory"));
                assert(texts(v@) =~= few_fields_spec());
                v
            },
        }
    }

    /// Whether the mode shows the colour palette when nothing is
    /// configured: only the classic layout does.
    pub fn default_palette(&self) -> (r: bool)
        ensures
            r == (*self == Mode::Neofetch),
    {
        match self {
            Mode::Neofetch => true,
            _ => false,
        }
    }
}

} // verus!
