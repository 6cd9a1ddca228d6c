//! The rules of the installer: its steps, what it reports, and where it
//! installs.
//!
//! Downloading, unpacking and running the installed program are done by
//! whoever drives the installer; what is decided from their results is
//! decided here.

use vstd::prelude::*;
use vstd::string::{StrSliceExecFns, StringExecFns};

use crate::color::Color;
use crate::paths::{join, joined};
use crate::text::{
    chars_of, ends_with, ends_with_spec, same_text, slice_of, split, split_spec, starts_with,
    starts_with_spec, string_of, views,
};

verus! {

/// Name of the program, and of its file in the archive.
pub const PROGRAM: &'static str = "blaeckfetch";

/// Icon of a step that has not begun.
pub const PENDING_ICON: char = '\u{25cb}';

/// Icon of a step that is done.
pub const DONE_ICON: char = '\u{2713}';

/// Milliseconds that one frame of the spinner lasts.
pub const SPINNER_MS: u64 = 80;

/// Width of the box that reports success, inside its borders.
pub const BOX_WIDTH: usize = 46;

/// Index of the step that states the platform.
pub const STEP_PLATFORM: usize = 0;

pub const STEP_INSTALL_DIR: usize = 1;

pub const STEP_DOWNLOAD: usize = 2;

pub const STEP_EXTRACT: usize = 3;

pub const STEP_VERIFY: usize = 4;

pub const STEP_COUNT: usize = 5;

/// How far a step of the installation has come.
pub enum StepStatus {
    Pending,
    Active,
    /// Done, with what there is to say about it.
    Done(String),
}

/// What an installation amounts to, given what was installed before.
pub enum InstallScenario {
    Fresh,
    Update { old_version: String },
    Reinstall,
}

/// What the installer shows: where it installs, its steps, and how it ended.
pub struct InstallerState {
    pub platform: String,
    pub install_dir: String,
    /// What the program that was installed before says of its version.
    pub existing_version: Option<String>,
    /// The steps by name, each with how far it has come.
    pub steps: Vec<(String, StepStatus)>,
    pub error: Option<String>,
    pub finished: bool,
}

/// The names of the steps, in order.
pub open spec fn step_name(i: int) -> Seq<char> {
    if i == 0 {
        "Platform"@
    } else if i == 1 {
        "Install to"@
    } else if i == 2 {
        "Downloading"@
    } else if i == 3 {
        "Extracting"@
    } else {
        "Verifying"@
    }
}

impl InstallerState {
    /// The state before the first step: five steps, none begun.
    pub fn new(platform: String, install_dir: String, existing_version: Option<String>) -> (r:
        InstallerState)
        ensures
            r.platform == platform,
            r.install_dir == install_dir,
            r.existing_version == existing_version,
            r.error is None,
            !r.finished,
            r.steps@.len() == STEP_COUNT,
            forall|i: int|
                0 <= i < STEP_COUNT ==> (#[trigger] r.steps@[i]).0@ == step_name(i)
                    && r.steps@[i].1 is Pending,
    {
        let mut steps: Vec<(String, StepStatus)> = Vec::new();
        steps.push((String::from_str("Platform"), StepStatus::Pending));
        steps.push((String::from_str("Install to"), StepStatus::Pending));
        steps.push((String::from_str("Downloading"), StepStatus::Pending));
        steps.push((String::from_str("Extracting"), StepStatus::Pending));
        steps.push((String::from_str("Verifying"), StepStatus::Pending));
        InstallerState {
            platform,
            install_dir,
            existing_version,
            steps,
            error: None,
            finished: false,
        }
    }

    /// Marks a step as done, with what there is to say about it.
    pub fn set_done(&mut self, idx: usize, detail: String)
        requires
            idx < old(self).steps@.len(),
        ensures
            final(self).steps@.len() == old(self).steps@.len(),
            final(self).steps@[idx as int].0 == old(self).steps@[idx as int].0,
            final(self).steps@[idx as int].1 == StepStatus::Done(detail),
            forall|i: int|
                0 <= i < old(self).steps@.len() && i != idx ==> final(self).steps@[i] == old(
                    self,
                ).steps@[i],
            final(self).platform == old(self).platform,
            final(self).install_dir == old(self).install_dir,
            final(self).existing_version == old(self).existing_version,
            final(self).error == old(self).error,
            final(self).finished == old(self).finished,
    {
        let name: String = self.steps[idx].0.clone();
        self.steps.set(idx, (name, StepStatus::Done(detail)));
    }

    /// Marks a step as the one that is under way.
    pub fn set_active(&mut self, idx: usize)
        requires
            idx < old(self).steps@.len(),
        ensures
            final(self).steps@.len() == old(self).steps@.len(),
            final(self).steps@[idx as int].0 == old(self).steps@[idx as int].0,
            final(self).steps@[idx as int].1 is Active,
            forall|i: int|
                0 <= i < old(self).steps@.len() && i != idx ==> final(self).steps@[i] == old(
                    self,
                ).steps@[i],
            final(self).platform == old(self).platform,
            final(self).install_dir == old(self).install_dir,
            final(self).existing_version == old(self).existing_version,
            final(self).error == old(self).error,
            final(self).finished == old(self).finished,
    {
        let name: String = self.steps[idx].0.clone();
        self.steps.set(idx, (name, StepStatus::Active));
    }
}

/// What the installed program says of its version: its name, a space, and
/// the version.
pub open spec fn version_line(version: Seq<char>) -> Seq<char> {
    PROGRAM@ + " "@ + version
}

/// What an installation of `version` amounts to: fresh where nothing was
/// installed, a reinstallation where the same version was, an update
/// otherwise.
pub fn scenario(existing: Option<&str>, version: &str) -> (r: InstallScenario)
    ensures
        match existing {
            None => r is Fresh,
            Some(old) => if old@ == version_line(version@) {
                r is Reinstall
            } else {
                r matches InstallScenario::Update { old_version } && old_version@ == old@
            },
        },
{
    match existing {
        None => InstallScenario::Fresh,
        Some(old) => {
            let mut same: String = String::from_str(PROGRAM);
            same.append(" ");
            same.append(version);
            if same_text(old, same.as_str()) {
                InstallScenario::Reinstall
            } else {
                InstallScenario::Update { old_version: old.to_owned() }
            }
        },
    }
}

/// The glyph of the spinner at a frame: a circle of which one half is
/// filled, turning by a quarter with every frame.
pub open spec fn spinner_spec(step: int) -> char {
    if step == 0 {
        '\u{25d0}'
    } else if step == 1 {
        '\u{25d3}'
    } else if step == 2 {
        '\u{25d1}'
    } else {
        '\u{25d2}'
    }
}

pub fn spinner(frame: usize) -> (r: char)
    ensures
        r == spinner_spec((frame % 4) as int),
{
    let step: usize = frame % 4;
    if step == 0 {
        '\u{25d0}'
    } else if step == 1 {
        '\u{25d3}'
    } else if step == 2 {
        '\u{25d1}'
    } else {
        '\u{25d2}'
    }
}

/// The frame of the spinner after so many milliseconds.
pub fn spinner_frame(elapsed_ms: u64) -> (r: u64)
    ensures
        r == elapsed_ms / SPINNER_MS,
{
    elapsed_ms / SPINNER_MS
}

/// The icon of a step.
pub open spec fn icon_spec(status: StepStatus, spinner: char) -> char {
    match status {
        StepStatus::Pending => PENDING_ICON,
        StepStatus::Active => spinner,
        StepStatus::Done(_) => DONE_ICON,
    }
}

/// What there is to say about a step: nothing before it is done.
pub open spec fn detail_spec(status: StepStatus) -> Seq<char> {
    match status {
        StepStatus::Done(detail) => detail@,
        _ => Seq::empty(),
    }
}

/// The line of a step: two spaces, its icon, its name and, three spaces
/// on, what there is to say about it, if anything.
pub open spec fn step_line_spec(name: Seq<char>, status: StepStatus, spinner: char) -> Seq<char> {
    let start = "  "@.push(icon_spec(status, spinner)) + " "@ + name;
    if detail_spec(status).len() == 0 {
        start
    } else {
        start + "   "@ + detail_spec(status)
    }
}

pub fn step_line(name: &str, status: &StepStatus, spinner: char) -> (r: String)
    ensures
        r@ == step_line_spec(name@, *status, spinner),
{
    let mut out: String = String::from_str("  ");
    match status {
        StepStatus::Pending => {
            out.push(PENDING_ICON);
        },
        StepStatus::Active => {
            out.push(spinner);
        },
        StepStatus::Done(_) => {
            out.push(DONE_ICON);
        },
    }
    out.append(" ");
    out.append(name);
    match status {
        StepStatus::Done(detail) => {
            if detail.as_str().unicode_len() > 0 {
                out.append("   ");
                out.append(detail.as_str());
            }
        },
        _ => {},
    }
    assert(out@ =~= step_line_spec(name@, *status, spinner));
    out
}

/// The colour of the line of a step: dark grey before it begins, cyan
/// while it is under way, green once it is done.
pub fn step_color(status: &StepStatus) -> (r: Color)
    ensures
        r == match status {
            StepStatus::Pending => Color::DarkGray,
            StepStatus::Active => Color::Cyan,
            StepStatus::Done(_) => Color::Green,
        },
{
    match status {
        StepStatus::Pending => Color::DarkGray,
        StepStatus::Active => Color::Cyan,
        StepStatus::Done(_) => Color::Green,
    }
}

/// The start-up file of a shell, given the path of the shell and whether
/// there is a `.bash_profile` in the home directory. For the fish shell,
/// which has none to add a line to, the answer is `fish`.
pub open spec fn shell_rc_spec(shell: Seq<char>, has_bash_profile: bool) -> Seq<char> {
    if ends_with_spec(shell, "/zsh"@) {
        "~/.zshrc"@
    } else if ends_with_spec(shell, "/bash"@) {
        if has_bash_profile {
            "~/.bash_profile"@
        } else {
            "~/.bashrc"@
        }
    } else if ends_with_spec(shell, "/fish"@) {
        "fish"@
    } else {
        "~/.profile"@
    }
}

pub fn shell_rc(shell: &str, has_bash_profile: bool) -> (r: &'static str)
    ensures
        r@ == shell_rc_spec(shell@, has_bash_profile),
{
    let chars: Vec<char> = chars_of(shell);
    if ends_with(chars.as_slice(), chars_of("/zsh").as_slice()) {
        "~/.zshrc"
    } else if ends_with(chars.as_slice(), chars_of("/bash").as_slice()) {
        if has_bash_profile {
            "~/.bash_profile"
        } else {
            "~/.bashrc"
        }
    } else if ends_with(chars.as_slice(), chars_of("/fish").as_slice()) {
        "fish"
    } else {
        "~/.profile"
    }
}

/// Whether a shell needs a `.bash_profile` looked for: only bash does.
pub fn asks_for_bash_profile(shell: &str) -> (r: bool)
    ensures
        r == (!ends_with_spec(shell@, "/zsh"@) && ends_with_spec(shell@, "/bash"@)),
{
    let chars: Vec<char> = chars_of(shell);
    !ends_with(chars.as_slice(), chars_of("/zsh").as_slice()) && ends_with(
        chars.as_slice(),
        chars_of("/bash").as_slice(),
    )
}

/// A path as it is shown: with `~` for the home directory at its start.
pub open spec fn display_path_spec(path: Seq<char>, home: Seq<char>) -> Seq<char> {
    if home.len() > 0 && starts_with_spec(path, home) {
        "~"@ + path.skip(home.len() as int)
    } else {
        path
    }
}

pub fn display_path(path: &str, home: &str) -> (r: String)
    ensures
        r@ == display_path_spec(path@, home@),
{
    let p: Vec<char> = chars_of(path);
    let h: Vec<char> = chars_of(home);
    if h.len() > 0 && starts_with(p.as_slice(), h.as_slice()) {
        let mut out: String = String::from_str("~");
        let rest: Vec<char> = slice_of(p.as_slice(), h.len(), p.len());
        assert(rest@ =~= path@.skip(home@.len() as int));
        crate::text::push_chars(&mut out, rest.as_slice());
        out
    } else {
        path.to_owned()
    }
}

/// Whether one of the first `n` directories is `dir`.
pub open spec fn listed(dirs: Seq<Seq<char>>, dir: Seq<char>, n: int) -> bool
    decreases n,
{
    if n <= 0 {
        false
    } else {
        dirs[n - 1] == dir || listed(dirs, dir, n - 1)
    }
}

/// Whether the search path has to be extended for the installed program
/// to be found: it has where a search path is set and the directory is
/// not on it.
pub open spec fn needs_path_spec(path_var: Option<Seq<char>>, install_dir: Seq<char>) -> bool {
    match path_var {
        Some(p) => !listed(split_spec(p, ':'), install_dir, split_spec(p, ':').len() as int),
        None => false,
    }
}

pub fn needs_path(path_var: Option<&str>, install_dir: &str) -> (r: bool)
    ensures
        r == needs_path_spec(
            match path_var {
                Some(p) => Some(p@),
                None => None,
            },
            install_dir@,
        ),
{
    match path_var {
        Some(p) => {
            let chars: Vec<char> = chars_of(p);
            let dirs: Vec<Vec<char>> = split(chars.as_slice(), ':');
            let wanted: Vec<char> = chars_of(install_dir);
            let n: usize = dirs.len();
            let mut i: usize = 0;
            while i < n
                invariant
                    i <= n,
                    n == dirs@.len(),
                    wanted@ == install_dir@,
                    path_var == Some(p),
                    views(dirs@) == split_spec(p@, ':'),
                    !listed(views(dirs@), install_dir@, i as int),
                decreases n - i,
            {
                let dir: &Vec<char> = &dirs[i];
                assert(views(dirs@)[i as int] == dir@);
                if dir.len() == wanted.len() && starts_with(dir.as_slice(), wanted.as_slice()) {
                    assert(dir@.subrange(0, dir@.len() as int) =~= dir@);
                    assert(listed(views(dirs@), install_dir@, i + 1));
                    assert(listed(views(dirs@), install_dir@, n as int)) by {
                        lemma_listed_grows(views(dirs@), install_dir@, i + 1, n as int);
                    }
                    return false;
                }
                assert(dir@ != wanted@) by {
                    if dir@ == wanted@ {
                        assert(dir@.subrange(0, dir@.len() as int) =~= dir@);
                    }
                }
                i += 1;
            }
            true
        },
        None => false,
    }
}

/// What is listed among the first directories is listed among more of
/// them.
proof fn lemma_listed_grows(dirs: Seq<Seq<char>>, dir: Seq<char>, n: int, m: int)
    requires
        n <= m,
        listed(dirs, dir, n),
    ensures
        listed(dirs, dir, m),
    decreases m - n,
{
    if n < m {
        lemma_listed_grows(dirs, dir, n, m - 1);
    }
}

/// Those of the first `n` directories that lie under the home directory,
/// in order.
pub open spec fn under_home(dirs: Seq<Seq<char>>, home: Seq<char>, n: int) -> Seq<Seq<char>>
    decreases n,
{
    if n <= 0 {
        Seq::empty()
    } else if starts_with_spec(dirs[n - 1], home) {
        under_home(dirs, home, n - 1).push(dirs[n - 1])
    } else {
        under_home(dirs, home, n - 1)
    }
}

/// The directories into which the program may be installed: those on the
/// search path that start with the home directory, in the order of the
/// search path. The first of them that can be written to is taken.
pub fn install_candidates(path_var: &str, home: &str) -> (r: Vec<String>)
    ensures
        crate::mode::texts(r@) == under_home(
            split_spec(path_var@, ':'),
            home@,
            split_spec(path_var@, ':').len() as int,
        ),
{
    let chars: Vec<char> = chars_of(path_var);
    let dirs: Vec<Vec<char>> = split(chars.as_slice(), ':');
    let h: Vec<char> = chars_of(home);
    let mut out: Vec<String> = Vec::new();
    let n: usize = dirs.len();
    let mut i: usize = 0;
    assert(crate::mode::texts(out@) =~= Seq::<Seq<char>>::empty());
    while i < n
        invariant
            i <= n,
            n == dirs@.len(),
            h@ == home@,
            views(dirs@) == split_spec(path_var@, ':'),
            crate::mode::texts(out@) == under_home(views(dirs@), home@, i as int),
        decreases n - i,
    {
        let dir: &Vec<char> = &dirs[i];
        assert(views(dirs@)[i as int] == dir@);
        if starts_with(dir.as_slice(), h.as_slice()) {
            let ghost before = crate::mode::texts(out@);
            let text: String = string_of(dir.as_slice());
            out.push(text);
            assert(crate::mode::texts(out@) =~= before.push(dir@));
        }
        i += 1;
    }
    out
}

/// The directory that is made and taken where none on the search path
/// will do: `.local/bin` under the home directory.
pub fn fallback_install_dir(home: &str) -> (r: String)
    ensures
        r@ == joined(home@, ".local/bin"@),
{
    join(home, ".local/bin")
}

/// The address of the archive of a version for a target.
pub open spec fn download_url_spec(version: Seq<char>, target: Seq<char>) -> Seq<char> {
    "https://github.com/gustafeden/blaeckfetch/releases/download/v"@ + version + "/blaeckfetch-"@
        + target + ".tar.gz"@
}

pub fn download_url(version: &str, target: &str) -> (r: String)
    ensures
        r@ == download_url_spec(version@, target@),
{
    let mut out: String = String::from_str(
        "https://github.com/gustafeden/blaeckfetch/releases/download/v",
    );
    out.append(version);
    out.append("/blaeckfetch-");
    out.append(target);
    out.append(".tar.gz");
    assert(out@ =~= download_url_spec(version@, target@));
    out
}

/// A line of the box that reports success: the text between the side
/// borders, two spaces in, padded with spaces to the width of the box.
pub open spec fn box_line_spec(text: Seq<char>) -> Seq<char> {
    "  \u{2502}  "@ + text + crate::animate::padding(text.len(), (BOX_WIDTH - 2) as nat)
        + "\u{2502}"@
}

pub fn box_line(text: &str) -> (r: String)
    ensures
        r@ == box_line_spec(text@),
{
    let mut out: String = String::from_str("  \u{2502}  ");
    out.append(text);
    let len: usize = text.unicode_len();
    let ghost unpadded = out@;
    let mut k: usize = len;
    assert(out@ =~= unpadded + Seq::new(0, |i: int| ' '));
    while k < BOX_WIDTH - 2
        invariant
            len <= k,
            k <= BOX_WIDTH - 2 || k == len,
            out@ == unpadded + Seq::new((k - len) as nat, |i: int| ' '),
        decreases BOX_WIDTH - 2 - k,
    {
        out.push(' ');
        assert(out@ =~= unpadded + Seq::new((k + 1 - len) as nat, |i: int| ' '));
        k += 1;
    }
    assert(out@ =~= unpadded + crate::animate::padding(len as nat, (BOX_WIDTH - 2) as nat));
    out.append("\u{2502}");
    assert(out@ =~= box_line_spec(text@));
    out
}

/// The top or bottom edge of the box that reports success: a corner, a
/// line as wide as the box, and the other corner.
pub open spec fn box_edge_spec(left: char, right: char) -> Seq<char> {
    "  "@.push(left) + Seq::new(BOX_WIDTH as nat, |i: int| '\u{2500}').push(right)
}

pub fn box_edge(left: char, right: char) -> (r: String)
    ensures
        r@ == box_edge_spec(left, right),
{
    let mut out: String = String::from_str("  ");
    out.push(left);
    let ghost start = out@;
    let mut k: usize = 0;
    assert(out@ =~= start + Seq::new(0, |i: int| '\u{2500}'));
    while k < BOX_WIDTH
        invariant
            k <= BOX_WIDTH,
            out@ == start + Seq::new(k as nat, |i: int| '\u{2500}'),
        decreases BOX_WIDTH - k,
    {
        out.push('\u{2500}');
        assert(out@ =~= start + Seq::new((k + 1) as nat, |i: int| '\u{2500}'));
        k += 1;
    }
    out.push(right);
    assert(out@ =~= box_edge_spec(left, right));
    out
}

/// Whether a file of the archive, by its name without directories, is the
/// program.
pub fn is_program(file_name: &str) -> (r: bool)
    ensures
        r == (file_name@ == PROGRAM@),
{
    same_text(file_name, PROGRAM)
}

} // verus!
