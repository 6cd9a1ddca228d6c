//! The configuration, as read from the configuration file.
//!
//! Every value is optional: what is left out is decided by the mode or by a
//! default of the part it configures.

use vstd::prelude::*;

use crate::color::{color_by_name, color_named, Color};
use crate::mode::{all_fields, all_fields_spec, copy_of, texts, Mode};
use crate::paths::{config_dir, config_dir_spec, join, joined};
use crate::text::{lookup, lowercase_of, value_of};

verus! {

/// The configuration file with every setting commented out.
pub const DEFAULT_CONFIG: &'static str = r#"# blaeckfetch configuration
# Place this file at ~/.config/blaeckfetch/config.toml

# Display mode: default (moon + minimal), neofetch (classic layout), splash (animation)
# mode = "default"

# Color theme: green, cyan, red, magenta, yellow, blue, mono
# color = "green"

# Logo: moon, apple, linux, ubuntu, arch, debian, fedora, none, auto
# logo = "auto"

# Custom ASCII art file (overrides logo)
# logo_file = "~/.config/blaeckfetch/logo.txt"

# Show color palette at bottom
# palette = true

# Separator character
# separator = "-"

# Label alignment: left (default) or right (colons line up)
# label_align = "right"

# Label position: left (default) or right (value first, then label)
# label_position = "right"

# Value alignment: left (default) or right (values form a right-aligned column)
# value_align = "right"

# String between label and value (default: ": ")
# Use "fill" for a line that fills the gap: OS ──────── MacOS 15.5
# field_separator = ": "
# field_separator = " → "
# field_separator = "fill"

# Fields to display (in order). Remove or comment out entries to hide them.
# fields = [
#     "OS",
#     "Host",
#     "Kernel",
#     "Uptime",
#     "Packages",
#     "Shell",
#     "Resolution",
#     "DE",
#     "WM",
#     "WM Theme",
#     "Terminal",
#     "CPU",
#     "GPU",
#     "Memory",
#     "Disk (/)",
#     "Local IP",
# ]

# Custom field labels (rename any field)
# [labels]
# "Disk (/)" = "Disk"
# "Local IP" = "IP"

# Custom colors (override theme)
# Values: named color string or RGB array [r, g, b]
# Named colors: black, red, green, yellow, blue, magenta, cyan, white,
#               dark_gray, light_red, light_green, light_yellow,
#               light_blue, light_magenta, light_cyan
# [colors]
# title = "cyan"
# label = [100, 200, 255]
# separator = "dark_gray"
# logo = "green"

# Splash mode (retro console animation)
# Run with: blaeckfetch --splash
# Use --center or --left to control alignment.
# Without an image, shows a procedural starfield with earth and moon.
# [splash]
# image = "~/.config/blaeckfetch/space.png"   # Background image (PNG/JPEG)
# stretch = "fill"                         # fill (stretch), fit (letterbox), or crop
# transparency = 0                         # 0 = opaque black bg, 1-255 = dark pixels become transparent
# width = 68                               # Canvas width in columns (default: auto from image or 68)
# height = 23                              # Canvas height in rows (default: auto from image or 23)
# timeout = 120                            # Seconds before auto-closing (triggers collapse animation)
# star_brightness = 30                     # Star twinkle detection threshold (0-255)
# render_mode = "auto"                     # auto (detect terminal), image (force iTerm2), ascii (force half-block)
# align = "left"                           # left, center, or right (CLI --left/--center/--right override)
# min_width = 40                           # Minimum canvas width in columns
# min_height = 12                          # Minimum canvas height in rows
# max_width = 120                          # Maximum canvas width in columns
# max_height = 40                          # Maximum canvas height in rows
# entrance = "slow"                        # Entrance animation: slow (~1.2s), fast (~400ms), instant
# exit = "slow"                            # Exit animation: slow (~400ms), fast (~200ms), instant
"#;

/// The settings of the configuration file. A setting that the file does not
/// give is `None`, and the program's own default stands in for it.
pub struct Config {
    pub mode: Option<String>,
    pub color: Option<String>,
    pub logo: Option<String>,
    pub logo_file: Option<String>,
    pub palette: Option<bool>,
    pub separator: Option<String>,
    pub label_align: Option<String>,
    pub label_position: Option<String>,
    pub value_align: Option<String>,
    pub field_separator: Option<String>,
    /// The fields to show, in order.
    pub fields: Option<Vec<String>>,
    /// Names of fields and the labels to show them under.
    pub labels: Option<Vec<(String, String)>>,
    pub colors: Option<ColorsConfig>,
    pub splash: Option<BootConfig>,
    /// An older name of `splash`.
    pub boot: Option<BootConfig>,
}

/// Settings of the splash.
pub struct BootConfig {
    pub image: Option<String>,
    pub stretch: Option<String>,
    pub transparency: Option<u8>,
    pub width: Option<u16>,
    pub height: Option<u16>,
    pub timeout: Option<u64>,
    pub star_brightness: Option<u8>,
    pub render_mode: Option<String>,
    pub align: Option<String>,
    pub min_width: Option<u16>,
    pub min_height: Option<u16>,
    pub max_width: Option<u16>,
    pub max_height: Option<u16>,
    pub entrance: Option<String>,
    pub exit: Option<String>,
}

/// Colours that replace those of the theme.
pub struct ColorsConfig {
    pub title: Option<ColorValue>,
    pub label: Option<ColorValue>,
    pub separator: Option<ColorValue>,
    pub logo: Option<ColorValue>,
}

/// A colour as it is configured: by name or by its three channels.
pub enum ColorValue {
    Named(String),
    Rgb([u8; 3]),
}

impl ColorValue {
    /// The colour that the value stands for: that of the name, taken in
    /// lowercase, or that of the three channels.
    pub open spec fn color_spec(&self) -> Color {
        match self {
            ColorValue::Named(name) => color_named(lowercase_of(name@)),
            ColorValue::Rgb(rgb) => Color::Rgb(rgb[0], rgb[1], rgb[2]),
        }
    }

    pub fn to_color(&self) -> (r: Color)
        ensures
            r == self.color_spec(),
    {
        match self {
            ColorValue::Named(name) => color_by_name(name.as_str()),
            ColorValue::Rgb(rgb) => Color::Rgb(rgb[0], rgb[1], rgb[2]),
        }
    }
}

impl Default for ColorsConfig {
    fn default() -> (r: Self)
        ensures
            r.title is None,
            r.label is None,
            r.separator is None,
            r.logo is None,
    {
        ColorsConfig { title: None, label: None, separator: None, logo: None }
    }
}

impl Default for BootConfig {
    fn default() -> (r: Self)
        ensures
            r.image is None,
            r.stretch is None,
            r.transparency is None,
            r.width is None,
            r.height is None,
            r.timeout is None,
            r.star_brightness is None,
            r.render_mode is None,
            r.align is None,
            r.min_width is None,
            r.min_height is None,
            r.max_width is None,
            r.max_height is None,
            r.entrance is None,
            r.exit is None,
    {
        BootConfig {
            image: None,
            stretch: None,
            transparency: None,
            width: None,
            height: None,
            timeout: None,
            star_brightness: None,
            render_mode: None,
            align: None,
            min_width: None,
            min_height: None,
            max_width: None,
            max_height: None,
            entrance: None,
            exit: None,
        }
    }
}

impl Default for Config {
    fn default() -> (r: Self)
        ensures
            r.mode is None,
            r.color is None,
            r.logo is None,
            r.logo_file is None,
            r.palette is None,
            r.separator is None,
            r.label_align is None,
            r.label_position is None,
            r.value_align is None,
            r.field_separator is None,
            r.fields is None,
            r.labels is None,
            r.colors is None,
            r.splash is None,
            r.boot is None,
    {
        Config {
            mode: None,
            color: None,
            logo: None,
            logo_file: None,
            palette: None,
            separator: None,
            label_align: None,
            label_position: None,
            value_align: None,
            field_separator: None,
            fields: None,
            labels: None,
            colors: None,
            splash: None,
            boot: None,
        }
    }
}

impl Config {
    /// The names of all fields, in the order in which they are shown.
    pub fn default_fields() -> (r: Vec<String>)
        ensures
            texts(r@) == all_fields_spec(),
    {
        all_fields()
    }

    /// The label under which a field is shown: the one configured for it,
    /// or its own name.
    pub open spec fn label_spec(&self, key: Seq<char>) -> Seq<char> {
        match self.labels {
            Some(labels) => match lookup(labels@, key, 0) {
                Some(label) => label,
                None => key,
            },
            None => key,
        }
    }

    pub fn label_for(&self, key: &str) -> (r: String)
        ensures
            r@ == self.label_spec(key@),
    {
        match &self.labels {
            Some(labels) => match value_of(labels, key) {
                Some(label) => label,
                None => key.to_owned(),
            },
            None => key.to_owned(),
        }
    }

    /// The settings of the splash: those under `splash`, else those under
    /// the older name `boot`.
    pub fn splash_config(&self) -> (r: Option<&BootConfig>)
        ensures
            r == if self.splash is Some {
                Some(&self.splash->0)
            } else if self.boot is Some {
                Some(&self.boot->0)
            } else {
                None
            },
    {
        match &self.splash {
            Some(s) => Some(s),
            None => match &self.boot {
                Some(b) => Some(b),
                None => None,
            },
        }
    }

    /// The fields to show in a mode: those configured, else those of the
    /// mode.
    pub fn active_fields_for_mode(&self, mode: Mode) -> (r: Vec<String>)
        ensures
            texts(r@) == match self.fields {
                Some(fields) => texts(fields@),
                None => mode.default_fields_spec(),
            },
    {
        match &self.fields {
            Some(fields) => copy_of(fields),
            None => mode.default_fields(),
        }
    }

    /// Whether to show the colour palette in a mode: as configured, else
    /// as the mode does.
    pub fn show_palette_for_mode(&self, mode: Mode) -> (r: bool)
        ensures
            r == match self.palette {
                Some(p) => p,
                None => mode == Mode::Neofetch,
            },
    {
        match self.palette {
            Some(p) => p,
            None => mode.default_palette(),
        }
    }
}

/// The path of the configuration file: `config.toml` in the directory of
/// the configuration.
pub fn default_config_path(home: Option<&str>) -> (r: String)
    ensures
        r@ == joined(
            config_dir_spec(
                match home {
                    Some(h) => Some(h@),
                    None => None,
                },
            ),
            "config.toml"@,
        ),
{
    let dir: String = config_dir(home);
    join(dir.as_str(), "config.toml")
}

/// The text of a configuration file that changes nothing: every setting
/// is there, commented out.
pub fn generate_default() -> (r: String)
    ensures
        r@ == DEFAULT_CONFIG@,
{
    DEFAULT_CONFIG.to_owned()
}

} // verus!
