//! What the command line and the configuration together come to.
//!
//! A flag on the command line wins over a value on the command line, that
//! over the configuration, and that over the default.

use vstd::prelude::*;

use crate::boot::Settings;
use crate::color::Theme;
use crate::config::{BootConfig, ColorsConfig};
use crate::image_proto::RenderMode;
use crate::layout::{
    clamp_spec, resolve_size, start_box, start_box_spec, Align, DEFAULT_HEIGHT, DEFAULT_WIDTH,
};
use crate::mode::Mode;
use crate::text::same_text;

verus! {

/// Name of the theme where none is asked for.
pub const DEFAULT_COLOR: &'static str = "green";

/// Name of the timing presets where none is configured.
pub const DEFAULT_TIMING: &'static str = "slow";

/// Smallest width of the splash where none is configured.
pub const MIN_WIDTH: u16 = 10;

/// Smallest height of the splash where none is configured.
pub const MIN_HEIGHT: u16 = 5;

/// The first of two values that is there.
pub fn first_of<'a>(first: Option<&'a str>, second: Option<&'a str>) -> (r: Option<&'a str>)
    ensures
        r == if first is Some {
            first
        } else {
            second
        },
{
    match first {
        Some(value) => Some(value),
        None => second,
    }
}

/// The name of the theme: that of the command line, else that of the
/// configuration, else green.
pub fn color_name<'a>(cli: Option<&'a str>, configured: Option<&'a str>) -> (r: &'a str)
    ensures
        r@ == match cli {
            Some(name) => name@,
            None => match configured {
                Some(name) => name@,
                None => DEFAULT_COLOR@,
            },
        },
{
    match cli {
        Some(name) => name,
        None => match configured {
            Some(name) => name,
            None => DEFAULT_COLOR,
        },
    }
}

/// The theme with the colours of the configuration in place of its own,
/// where the configuration has any.
pub fn themed(theme: Theme, colors: Option<&ColorsConfig>) -> (r: Theme)
    ensures
        r.name == theme.name,
        r.title == match colors {
            Some(c) => match c.title {
                Some(v) => v.color_spec(),
                None => theme.title,
            },
            None => theme.title,
        },
        r.label == match colors {
            Some(c) => match c.label {
                Some(v) => v.color_spec(),
                None => theme.label,
            },
            None => theme.label,
        },
        r.separator == match colors {
            Some(c) => match c.separator {
                Some(v) => v.color_spec(),
                None => theme.separator,
            },
            None => theme.separator,
        },
        r.logo == match colors {
            Some(c) => match c.logo {
                Some(v) => v.color_spec(),
                None => theme.logo,
            },
            None => theme.logo,
        },
{
    let mut out: Theme = theme;
    match colors {
        Some(c) => {
            match &c.title {
                Some(v) => {
                    out.title = v.to_color();
                },
                None => {},
            }
            match &c.label {
                Some(v) => {
                    out.label = v.to_color();
                },
                None => {},
            }
            match &c.separator {
                Some(v) => {
                    out.separator = v.to_color();
                },
                None => {},
            }
            match &c.logo {
                Some(v) => {
                    out.logo = v.to_color();
                },
                None => {},
            }
        },
        None => {},
    }
    out
}

/// The mode of a run and whether the command line named a mode that there
/// is none of. The flags win, the classic layout first; then the mode
/// named on the command line; then the configured one. A name that names
/// no mode gives the default mode.
pub open spec fn mode_spec(
    neofetch: bool,
    splash: bool,
    cli: Option<Seq<char>>,
    configured: Option<Seq<char>>,
) -> (Mode, bool) {
    if neofetch {
        (Mode::Neofetch, false)
    } else if splash {
        (Mode::Splash, false)
    } else {
        match cli {
            Some(name) => match Mode::named(name) {
                Some(mode) => (mode, false),
                None => (Mode::Default, true),
            },
            None => match configured {
                Some(name) => match Mode::named(name) {
                    Some(mode) => (mode, false),
                    None => (Mode::Default, false),
                },
                None => (Mode::Default, false),
            },
        }
    }
}

pub fn resolve_mode(
    neofetch: bool,
    splash: bool,
    cli: Option<&str>,
    configured: Option<&str>,
) -> (r: (Mode, bool))
    ensures
        r == mode_spec(
            neofetch,
            splash,
            match cli {
                Some(name) => Some(name@),
                None => None,
            },
            match configured {
                Some(name) => Some(name@),
                None => None,
            },
        ),
{
    if neofetch {
        (Mode::Neofetch, false)
    } else if splash {
        (Mode::Splash, false)
    } else {
        match cli {
            Some(name) => match Mode::from_str(name) {
                Some(mode) => (mode, false),
                None => (Mode::Default, true),
            },
            None => match configured {
                Some(name) => match Mode::from_str(name) {
                    Some(mode) => (mode, false),
                    None => (Mode::Default, false),
                },
                None => (Mode::Default, false),
            },
        }
    }
}

/// Where the logo of a run comes from.
#[derive(Clone, Copy, Debug, PartialEq, Eq, Structural)]
pub enum LogoSource {
    /// No logo is shown.
    Hidden,
    /// The logo is read from the configured file.
    File,
    /// The logo of the system is shown.
    System,
    /// The logo of the given name is shown.
    Named,
}

/// Where the logo comes from: nowhere where it is switched off; from the
/// file where one is given; else by the name `none`, `off` or `auto` or
/// that of a logo; and without a name as the mode has it, which is the
/// system's logo in the classic layout and none otherwise.
pub open spec fn logo_source_spec(
    no_logo: bool,
    has_file: bool,
    name: Option<Seq<char>>,
    mode: Mode,
) -> LogoSource {
    if no_logo {
        LogoSource::Hidden
    } else if has_file {
        LogoSource::File
    } else {
        match name {
            Some(n) => if n == "none"@ || n == "off"@ {
                LogoSource::Hidden
            } else if n == "auto"@ {
                LogoSource::System
            } else {
                LogoSource::Named
            },
            None => if mode == Mode::Neofetch {
                LogoSource::System
            } else {
                LogoSource::Hidden
            },
        }
    }
}

pub fn logo_source(no_logo: bool, has_file: bool, name: Option<&str>, mode: Mode) -> (r:
    LogoSource)
    ensures
        r == logo_source_spec(
            no_logo,
            has_file,
            match name {
                Some(n) => Some(n@),
                None => None,
            },
            mode,
        ),
{
    if no_logo {
        LogoSource::Hidden
    } else if has_file {
        LogoSource::File
    } else {
        match name {
            Some(n) => {
                if same_text(n, "none") || same_text(n, "off") {
                    LogoSource::Hidden
                } else if same_text(n, "auto") {
                    LogoSource::System
                } else {
                    LogoSource::Named
                }
            },
            None => match mode {
                Mode::Neofetch => LogoSource::System,
                _ => LogoSource::Hidden,
            },
        }
    }
}

/// The alignment that a configured name selects: `center`, `right`, and
/// left for every other name.
pub open spec fn align_named(name: Seq<char>) -> Align {
    if name == "center"@ {
        Align::Center
    } else if name == "right"@ {
        Align::Right
    } else {
        Align::Left
    }
}

/// The alignment of the splash: by the flags, centre before left before
/// right; else as configured; else left.
pub fn resolve_align(center: bool, left: bool, right: bool, configured: Option<&str>) -> (r:
    Align)
    ensures
        r == if center {
            Align::Center
        } else if left {
            Align::Left
        } else if right {
            Align::Right
        } else {
            match configured {
                Some(name) => align_named(name@),
                None => Align::Left,
            }
        },
{
    if center {
        Align::Center
    } else if left {
        Align::Left
    } else if right {
        Align::Right
    } else {
        match configured {
            Some(name) => {
                if same_text(name, "center") {
                    Align::Center
                } else if same_text(name, "right") {
                    Align::Right
                } else {
                    Align::Left
                }
            },
            None => Align::Left,
        }
    }
}

/// Whether a name is one of a way to fit an image: `fill`, `fit` or
/// `crop`.
pub fn is_stretch(name: &str) -> (r: bool)
    ensures
        r == (name@ == "fill"@ || name@ == "fit"@ || name@ == "crop"@),
{
    same_text(name, "fill") || same_text(name, "fit") || same_text(name, "crop")
}

/// A configured value or, where there is none, a default.
pub fn or_default(value: Option<u16>, default: u16) -> (r: u16)
    ensures
        r == match value {
            Some(v) => v,
            None => default,
        },
{
    match value {
        Some(v) => v,
        None => default,
    }
}

/// The bounds of the size of the splash: as configured, and from 10 by 5
/// to as large as can be where nothing is configured.
pub fn size_bounds(boot: Option<&BootConfig>) -> (r: ((u16, u16), (u16, u16)))
    ensures
        r == match boot {
            Some(b) => (
                (
                    match b.min_width {
                        Some(v) => v,
                        None => MIN_WIDTH,
                    },
                    match b.min_height {
                        Some(v) => v,
                        None => MIN_HEIGHT,
                    },
                ),
                (
                    match b.max_width {
                        Some(v) => v,
                        None => u16::MAX,
                    },
                    match b.max_height {
                        Some(v) => v,
                        None => u16::MAX,
                    },
                ),
            ),
            None => ((MIN_WIDTH, MIN_HEIGHT), (u16::MAX, u16::MAX)),
        },
{
    match boot {
        Some(b) => (
            (or_default(b.min_width, MIN_WIDTH), or_default(b.min_height, MIN_HEIGHT)),
            (or_default(b.max_width, u16::MAX), or_default(b.max_height, u16::MAX)),
        ),
        None => ((MIN_WIDTH, MIN_HEIGHT), (u16::MAX, u16::MAX)),
    }
}

/// The size of a splash that shows an image, before the image is loaded:
/// the configured size, 68 by 23 filling in for what is left out; without
/// any, the size that suits the image, or 68 by 23 where that is not
/// known; either brought into the bounds.
pub open spec fn image_box_spec(
    width: Option<u16>,
    height: Option<u16>,
    natural: Option<(u16, u16)>,
    min: (u16, u16),
    max: (u16, u16),
) -> (u16, u16) {
    let wanted: (u16, u16) = if width is Some || height is Some {
        (
            match width {
                Some(w) => w,
                None => DEFAULT_WIDTH,
            },
            match height {
                Some(h) => h,
                None => DEFAULT_HEIGHT,
            },
        )
    } else {
        match natural {
            Some(size) => size,
            None => (DEFAULT_WIDTH, DEFAULT_HEIGHT),
        }
    };
    (clamp_spec(wanted.0, min.0, max.0), clamp_spec(wanted.1, min.1, max.1))
}

pub fn image_box(
    width: Option<u16>,
    height: Option<u16>,
    natural: Option<(u16, u16)>,
    min: (u16, u16),
    max: (u16, u16),
) -> (r: (u16, u16))
    requires
        min.0 <= max.0,
        min.1 <= max.1,
    ensures
        r == image_box_spec(width, height, natural, min, max),
        min.0 <= r.0 <= max.0,
        min.1 <= r.1 <= max.1,
{
    let wanted: (u16, u16) = if width.is_some() || height.is_some() {
        (or_default(width, DEFAULT_WIDTH), or_default(height, DEFAULT_HEIGHT))
    } else {
        match natural {
            Some(size) => size,
            None => (DEFAULT_WIDTH, DEFAULT_HEIGHT),
        }
    };
    (resolve_size(wanted.0, min.0, max.0), resolve_size(wanted.1, min.1, max.1))
}

/// Whether the splash is shown once, as a still frame in the flow of the
/// text, and not played: that is so in inline mode where there is no
/// terminal to control.
pub fn shows_still(mode: RenderMode, has_terminal: bool) -> (r: bool)
    ensures
        r == (mode == RenderMode::Inline && !has_terminal),
{
    mode == RenderMode::Inline && !has_terminal
}

/// Size of the still frame: the size that a run would start with, without
/// the row that an inline image adds.
pub fn still_box(settings: &Settings) -> (r: (u16, u16))
    requires
        settings.wf(),
    ensures
        r == start_box_spec(
            settings.width,
            settings.height,
            false,
            settings.min_size,
            settings.max_size,
        ),
{
    start_box(settings.width, settings.height, false, settings.min_size, settings.max_size)
}

/// The settings of a run of the splash: the size is the one worked out
/// for an image, where there is one, and the configured one otherwise.
pub fn splash_settings(
    boot: Option<&BootConfig>,
    align: Align,
    mode: RenderMode,
    image_box: Option<(u16, u16)>,
) -> (r: Settings)
    ensures
        r.align == align,
        r.mode == mode,
        r.width == match image_box {
            Some(size) => Some(size.0),
            None => match boot {
                Some(b) => b.width,
                None => None,
            },
        },
        r.height == match image_box {
            Some(size) => Some(size.1),
            None => match boot {
                Some(b) => b.height,
                None => None,
            },
        },
        r.timeout_secs == match boot {
            Some(b) => b.timeout,
            None => None,
        },
        (r.min_size, r.max_size) == match boot {
            Some(b) => (
                (
                    match b.min_width {
                        Some(v) => v,
                        None => MIN_WIDTH,
                    },
                    match b.min_height {
                        Some(v) => v,
                        None => MIN_HEIGHT,
                    },
                ),
                (
                    match b.max_width {
                        Some(v) => v,
                        None => u16::MAX,
                    },
                    match b.max_height {
                        Some(v) => v,
                        None => u16::MAX,
                    },
                ),
            ),
            None => ((MIN_WIDTH, MIN_HEIGHT), (u16::MAX, u16::MAX)),
        },
{
    let bounds: ((u16, u16), (u16, u16)) = size_bounds(boot);
    let configured: (Option<u16>, Option<u16>) = match boot {
        Some(b) => (b.width, b.height),
        None => (None, None),
    };
    let size: (Option<u16>, Option<u16>) = match image_box {
        Some(size) => (Some(size.0), Some(size.1)),
        None => configured,
    };
    Settings {
        align,
        mode,
        width: size.0,
        height: size.1,
        timeout_secs: match boot {
            Some(b) => b.timeout,
            None => None,
        },
        min_size: bounds.0,
        max_size: bounds.1,
    }
}

/// The name of a timing preset: the configured one, else `slow`.
pub fn timing_name<'a>(configured: Option<&'a str>) -> (r: &'a str)
    ensures
        r@ == match configured {
            Some(name) => name@,
            None => DEFAULT_TIMING@,
        },
{
    match configured {
        Some(name) => name,
        None => DEFAULT_TIMING,
    }
}

} // verus!
