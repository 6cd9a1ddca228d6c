//! ASCII art logos and how one is chosen.

use vstd::prelude::*;

use crate::text::{
    chars_of, first_with_prefix, lines, lines_spec, lowercase, lowercase_of, same_text,
    starts_with, string_of, views, without_leading, without_leading_spec, without_surrounding,
    without_surrounding_spec,
};

verus! {

pub const APPLE_ART: &'static str = "                    'c.
                 ,xNMM.
               .OMMMMo
               OMMM0,
     .;loddo:' loolloddol;.
   cKMMMMMMMMMMNWMMMMMMMMMM0:
 .KMMMMMMMMMMMMMMMMMMMMMMMWd.
 XMMMMMMMMMMMMMMMMMMMMMMMX.
;MMMMMMMMMMMMMMMMMMMMMMMM:
:MMMMMMMMMMMMMMMMMMMMMMMM:
.MMMMMMMMMMMMMMMMMMMMMMMMX.
 kMMMMMMMMMMMMMMMMMMMMMMMMWd.
 .XMMMMMMMMMMMMMMMMMMMMMMMMMMk
  .XMMMMMMMMMMMMMMMMMMMMMMMMK.
    kMMMMMMMMMMMMMMMMMMMMMMd
     ;KMMMMMMMWXXWMMMMMMMk.
       .cooc,.    .,coo:.";

pub const TUX_ART: &'static str = "        a8888b.
       d888888b.
       8P\"YP\"Y88
       8|o||o|88
       8'    .88
       8`._.' Y8.
      d/      `8b.
    .dP   .     Y8b.
   d8:'   \"   `::88b.
  d8\"           `Y88b
 :8P     '       :888
  8a.    :      _a88P
._/\"Yaa_ :    .| 88P|
\\    YP\"      `| 8P  `.
/     \\._____.d|    .'
`--..__)888888P`._.'";

pub const UBUNTU_ART: &'static str = "             .-/+oossssoo+/-.
         `:+ssssssssssssssssss+:`
       -+ssssssssssssssssssyyssss+-
     .ossssssssssssssssssdMMMNysssso.
    /ssssssssssshdmmNNmmyNMMMMhssssss/
   +ssssssssshmydMMMMMMMNddddyssssssss+
  /sssssssshNMMMyhhyyyyhmNMMMNhssssssss/
 .ssssssssdMMMNhsssssssssshNMMMdssssssss.
 +sssshhhyNMMNyssssssssssssyNMMMysssssss+
 ossyNMMMNyMMhsssssssssssssshmmmhssssssso
 ossyNMMMNyMMhsssssssssssssshmmmhssssssso
 +sssshhhyNMMNyssssssssssssyNMMMysssssss+
 .ssssssssdMMMNhsssssssssshNMMMdssssssss.
  /sssssssshNMMMyhhyyyyhdNMMMNhssssssss/
   +sssssssssdmydMMMMMMMMddddyssssssss+
    /ssssssssssshdmNNNNmyNMMMMhssssss/
     .ossssssssssssssssssdMMMNysssso.
       -+sssssssssssssssssyyyssss+-
         `:+ssssssssssssssssss+:`
             .-/+oossssoo+/-.";

pub const ARCH_ART: &'static str = "                   -`
                  .o+`
                 `ooo/
                `+oooo:
               `+oooooo:
               -+oooooo+:
             `/:-:++oooo+:
            `/++++/+++++++:
           `/++++++++++++++:
          `/+++ooooooooooooo/`
         ./ooosssso++osssssso+`
        .oossssso-````/ossssss+`
       -osssssso.      :ssssssso.
      :osssssss/        osssso+++.
     /ossssssss/        +ssssooo/-
   `/ossssso+/:-        -:/+osssso+-
  `+sso+:-`                 `.-/+oso:
 `++:.                           `-/+/
 .`                                 `/";

pub const DEBIAN_ART: &'static str = "       _,met$$$$$gg.
    ,g$$$$$$$$$$$$$$$P.
  ,g$$P\"     \"\"\"Y$$.\"$.
 ,$$P'              `$$$.
',$$P       ,ggs.     `$$b:
`d$$'     ,$P\"'   .    $$$
 $$P      d$'     ,    $$P
 $$:      $$.   -    ,d$$'
 $$;      Y$b._   _,d$P'
 Y$$.    `.`\"Y$$$$P\"'
 `$$b      \"-.__
  `Y$$
   `Y$$.
     `$$b.
       `Y$$b.
          `\"Y$b._
              `\"\"\"";

pub const FEDORA_ART: &'static str = "             .',;::::;,'.
         .';:cccccccccccc:;,.
      .;cccccccccccccccccccccc;.
    .:cccccccccccccccccccccccccc:.
   ;ccccccccccccc;.:dddl:.;ccccccc;
  :ccccccccccccc;OWMKOOXMWd;ccccccc:
 :ccccccccccccc;KMMc;cc;xMMc;ccccccc:
 ccccccccccccc;MMM.;cc;;WMW;cccccccc;
 ccccccccccccc;MMM.;cc;;WMW;cccccccc;
 :ccccccccccccc;KMMc;cc;xMMc;ccccccc:
  :ccccccccccccc;OWMKOOXMWd;ccccccc:
   ;ccccccccccccc;.:dddl:.;ccccccc;
    .:cccccccccccccccccccccccccc:.
      .;cccccccccccccccccccccc;.
         .';:cccccccccccc:;,.
             .',;::::;,'.";

pub const GENERIC_ART: &'static str = "   ___  ___
  |   \\/   |
  |        |
  |  /\\/\\  |
  |_/    \\_|";

/// A logo in ASCII art and the name it goes by.
#[derive(Clone, Copy, Debug)]
pub struct Logo {
    pub art: &'static str,
    pub name: &'static str,
}

/// The kind of system the program runs on.
#[derive(Clone, Copy, Debug, PartialEq, Eq, Structural)]
pub enum Platform {
    MacOs,
    Linux,
    Other,
}

pub open spec fn apple_spec() -> Logo {
    Logo { art: APPLE_ART, name: "apple" }
}

pub open spec fn tux_spec() -> Logo {
    Logo { art: TUX_ART, name: "linux" }
}

pub open spec fn ubuntu_spec() -> Logo {
    Logo { art: UBUNTU_ART, name: "ubuntu" }
}

pub open spec fn arch_spec() -> Logo {
    Logo { art: ARCH_ART, name: "arch" }
}

pub open spec fn debian_spec() -> Logo {
    Logo { art: DEBIAN_ART, name: "debian" }
}

pub open spec fn fedora_spec() -> Logo {
    Logo { art: FEDORA_ART, name: "fedora" }
}

pub open spec fn generic_spec() -> Logo {
    Logo { art: GENERIC_ART, name: "generic" }
}

/// The logo that shows nothing.
pub open spec fn blank_spec() -> Logo {
    Logo { art: "", name: "none" }
}

pub fn apple() -> (r: Logo)
    ensures
        r == apple_spec(),
{
    Logo { art: APPLE_ART, name: "apple" }
}

pub fn tux() -> (r: Logo)
    ensures
        r == tux_spec(),
{
    Logo { art: TUX_ART, name: "linux" }
}

pub fn ubuntu() -> (r: Logo)
    ensures
        r == ubuntu_spec(),
{
    Logo { art: UBUNTU_ART, name: "ubuntu" }
}

pub fn arch() -> (r: Logo)
    ensures
        r == arch_spec(),
{
    Logo { art: ARCH_ART, name: "arch" }
}

pub fn debian() -> (r: Logo)
    ensures
        r == debian_spec(),
{
    Logo { art: DEBIAN_ART, name: "debian" }
}

pub fn fedora() -> (r: Logo)
    ensures
        r == fedora_spec(),
{
    Logo { art: FEDORA_ART, name: "fedora" }
}

pub fn generic() -> (r: Logo)
    ensures
        r == generic_spec(),
{
    Logo { art: GENERIC_ART, name: "generic" }
}

/// The names that select a logo.
pub fn available() -> (r: &'static [&'static str])
    ensures
        r@.len() == 7,
        r@[0]@ == "apple"@,
        r@[1]@ == "linux"@,
        r@[2]@ == "ubuntu"@,
        r@[3]@ == "arch"@,
        r@[4]@ == "debian"@,
        r@[5]@ == "fedora"@,
        r@[6]@ == "none"@,
{
    &["apple", "linux", "ubuntu", "arch", "debian", "fedora", "none"]
}

/// The logo that a name in lowercase selects, or `None` where the name
/// selects none and the logo of the system is to be found out.
pub open spec fn named(lower: Seq<char>) -> Option<Logo> {
    if lower == "apple"@ || lower == "macos"@ || lower == "mac"@ {
        Some(apple_spec())
    } else if lower == "linux"@ || lower == "tux"@ {
        Some(tux_spec())
    } else if lower == "ubuntu"@ {
        Some(ubuntu_spec())
    } else if lower == "arch"@ {
        Some(arch_spec())
    } else if lower == "debian"@ {
        Some(debian_spec())
    } else if lower == "fedora"@ {
        Some(fedora_spec())
    } else if lower == "none"@ || lower == "off"@ {
        Some(blank_spec())
    } else {
        None
    }
}

/// The logo of a name that is in lowercase already.
pub fn by_lowercase_name(lower: &str) -> (r: Option<Logo>)
    ensures
        r == named(lower@),
{
    if same_text(lower, "apple") || same_text(lower, "macos") || same_text(lower, "mac") {
        Some(apple())
    } else if same_text(lower, "linux") || same_text(lower, "tux") {
        Some(tux())
    } else if same_text(lower, "ubuntu") {
        Some(ubuntu())
    } else if same_text(lower, "arch") {
        Some(arch())
    } else if same_text(lower, "debian") {
        Some(debian())
    } else if same_text(lower, "fedora") {
        Some(fedora())
    } else if same_text(lower, "none") || same_text(lower, "off") {
        Some(Logo { art: "", name: "none" })
    } else {
        None
    }
}

/// The logo of a name, whatever its case. `None` means that the name is
/// not one of a logo: the caller shows the logo of the system, which
/// [`detect`] finds.
pub fn by_name(name: &str) -> (r: Option<Logo>)
    ensures
        r == named(lowercase_of(name@)),
{
    let lower: String = lowercase(name);
    by_lowercase_name(lower.as_str())
}

/// The identifier that a system states in its `os-release` file, as it is
/// written there: what follows `ID=` on the first line that starts so,
/// without quotation marks around it. `None` where no line starts so.
pub open spec fn os_release_id_spec(content: Seq<char>) -> Option<Seq<char>> {
    match first_with_prefix(lines_spec(content), "ID="@, 0) {
        Some(line) => Some(without_surrounding_spec(without_leading_spec(line, "ID="@), '"')),
        None => None,
    }
}

/// Reads the identifier of the system out of the text of its `os-release`
/// file.
pub fn os_release_id(content: &str) -> (r: Option<String>)
    ensures
        match r {
            Some(id) => os_release_id_spec(content@) == Some(id@),
            None => os_release_id_spec(content@) is None,
        },
{
    let chars: Vec<char> = chars_of(content);
    let all: Vec<Vec<char>> = lines(chars.as_slice());
    let prefix: Vec<char> = chars_of("ID=");
    let n: usize = all.len();
    let mut i: usize = 0;
    while i < n
        invariant
            i <= n,
            n == all@.len(),
            prefix@ == "ID="@,
            views(all@) == lines_spec(content@),
            first_with_prefix(views(all@), prefix@, i as int) == first_with_prefix(
                views(all@),
                prefix@,
                0,
            ),
        decreases n - i,
    {
        let line: &Vec<char> = &all[i];
        assert(views(all@)[i as int] == line@);
        if starts_with(line.as_slice(), prefix.as_slice()) {
            let rest: Vec<char> = without_leading(line.as_slice(), prefix.as_slice());
            let bare: Vec<char> = without_surrounding(rest.as_slice(), '"');
            return Some(string_of(bare.as_slice()));
        }
        i += 1;
    }
    None
}

/// The logo of a Linux system with the given identifier in lowercase: the
/// distribution's where it is known, else the penguin.
pub open spec fn linux_logo_spec(id: Seq<char>) -> Logo {
    if id == "ubuntu"@ {
        ubuntu_spec()
    } else if id == "arch"@ || id == "archlinux"@ {
        arch_spec()
    } else if id == "debian"@ {
        debian_spec()
    } else if id == "fedora"@ {
        fedora_spec()
    } else {
        tux_spec()
    }
}

/// The logo for an identifier that is in lowercase already.
pub fn linux_logo(id: &str) -> (r: Logo)
    ensures
        r == linux_logo_spec(id@),
{
    if same_text(id, "ubuntu") {
        ubuntu()
    } else if same_text(id, "arch") || same_text(id, "archlinux") {
        arch()
    } else if same_text(id, "debian") {
        debian()
    } else if same_text(id, "fedora") {
        fedora()
    } else {
        tux()
    }
}

/// The logo of the Linux system whose `os-release` file has the given
/// text: that of the identifier it states, taken in lowercase, and the
/// penguin where it states none.
pub open spec fn detect_linux_spec(os_release: Seq<char>) -> Logo {
    match os_release_id_spec(os_release) {
        Some(id) => linux_logo_spec(lowercase_of(id)),
        None => tux_spec(),
    }
}

pub fn detect_linux(os_release: &str) -> (r: Logo)
    ensures
        r == detect_linux_spec(os_release@),
{
    match os_release_id(os_release) {
        Some(id) => {
            let lower: String = lowercase(id.as_str());
            linux_logo(lower.as_str())
        },
        None => tux(),
    }
}

/// The logo of the system: the apple on macOS, the distribution's on
/// Linux, and the plain one elsewhere. `os_release` is the text of the
/// system's `os-release` file, empty where there is none.
pub fn detect(platform: Platform, os_release: &str) -> (r: Logo)
    ensures
        r == match platform {
            Platform::MacOs => apple_spec(),
            Platform::Linux => detect_linux_spec(os_release@),
            Platform::Other => generic_spec(),
        },
{
    match platform {
        Platform::MacOs => apple(),
        Platform::Linux => detect_linux(os_release),
        Platform::Other => generic(),
    }
}

/// A path with a `~` at its start replaced by the home directory, where
/// one is known.
pub open spec fn expanded_home(path: Seq<char>, home: Option<Seq<char>>) -> Seq<char> {
    match home {
        Some(h) => if path.len() > 0 && path[0] == '~' {
            h + path.skip(1)
        } else {
            path
        },
        None => path,
    }
}

/// Expands the `~` at the start of the path of a logo file.
pub fn expand_home(path: &str, home: Option<&str>) -> (r: String)
    ensures
        r@ == expanded_home(
            path@,
            match home {
                Some(h) => Some(h@),
                None => None,
            },
        ),
{
    let chars: Vec<char> = chars_of(path);
    match home {
        Some(h) => {
            if chars.len() > 0 && chars[0] == '~' {
                let mut out: String = string_of(chars_of(h).as_slice());
                let rest: Vec<char> = crate::text::slice_of(chars.as_slice(), 1, chars.len());
                crate::text::push_chars(&mut out, rest.as_slice());
                assert(rest@ =~= path@.skip(1));
                out
            } else {
                string_of(chars.as_slice())
            }
        },
        None => string_of(chars.as_slice()),
    }
}

} // verus!
