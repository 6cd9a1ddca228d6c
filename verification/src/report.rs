//! The rows of the plain display and how high it stands.

use vstd::prelude::*;
use vstd::string::StringExecFns;

use crate::color::Color;
use crate::config::Config;
use crate::mode::texts;
use crate::text::{lookup, value_of};

verus! {

/// What stands between a label and its value.
pub const LABEL_END: &'static str = ": ";

/// Lines of the display above the fields: title and separator.
pub const HEADING_LINES: usize = 2;

/// Lines that the colour palette takes: an empty one and two of colours.
pub const PALETTE_LINES: usize = 3;

/// One field of the display.
pub struct InfoRow {
    /// The label with what ends it, as it is shown.
    pub label: String,
    pub value: String,
}

/// A row of the display as specifications see it.
pub struct InfoRowView {
    pub label: Seq<char>,
    pub value: Seq<char>,
}

impl View for InfoRow {
    type V = InfoRowView;

    open spec fn view(&self) -> InfoRowView {
        InfoRowView { label: self.label@, value: self.value@ }
    }
}

/// The rows as specifications see them.
pub open spec fn row_views(rows: Seq<InfoRow>) -> Seq<InfoRowView> {
    Seq::new(rows.len(), |i: int| row_view_at(rows, i))
}

pub open spec fn row_view_at(rows: Seq<InfoRow>, i: int) -> InfoRowView {
    rows[i]@
}

/// The rows for the first `n` of the active fields: one for each of them
/// that the system has a value for, in the order of the active fields,
/// under the label that the configuration gives it.
pub open spec fn rows_spec(
    fields: Seq<(String, String)>,
    active: Seq<Seq<char>>,
    config: Config,
    n: int,
) -> Seq<InfoRowView>
    decreases n,
{
    if n <= 0 {
        Seq::empty()
    } else {
        let before = rows_spec(fields, active, config, n - 1);
        match lookup(fields, active[n - 1], 0) {
            Some(value) => before.push(
                InfoRowView { label: config.label_spec(active[n - 1]) + LABEL_END@, value },
            ),
            None => before,
        }
    }
}

/// The rows of the display: the active fields that have a value, in
/// order, each under its label.
pub fn info_rows(fields: &Vec<(String, String)>, active: &Vec<String>, config: &Config) -> (r:
    Vec<InfoRow>)
    ensures
        row_views(r@) == rows_spec(fields@, texts(active@), *config, active@.len() as int),
{
    let mut rows: Vec<InfoRow> = Vec::new();
    let n: usize = active.len();
    let mut i: usize = 0;
    assert(row_views(rows@) =~= Seq::<InfoRowView>::empty());
    while i < n
        invariant
            i <= n,
            n == active@.len(),
            row_views(rows@) == rows_spec(fields@, texts(active@), *config, i as int),
        decreases n - i,
    {
        let key: &str = active[i].as_str();
        assert(texts(active@)[i as int] == key@);
        match value_of(fields, key) {
            Some(value) => {
                let mut label: String = config.label_for(key);
                label.append(LABEL_END);
                let ghost before = row_views(rows@);
                let row = InfoRow { label, value };
                rows.push(row);
                assert(row_views(rows@) =~= before.push(row@));
            },
            None => {},
        }
        i += 1;
    }
    rows
}

/// A separator repeated once for every byte of the title.
pub open spec fn separator_line_spec(separator: Seq<char>, n: nat) -> Seq<char>
    decreases n,
{
    if n == 0 {
        Seq::empty()
    } else {
        separator_line_spec(separator, (n - 1) as nat) + separator
    }
}

/// The line under the title: the separator, once for every byte of the
/// title.
pub fn separator_line(separator: &str, title: &str) -> (r: String)
    ensures
        r@ == separator_line_spec(separator@, vstd::utf8::encode_utf8(title@).len()),
{
    let n: usize = title.as_bytes().len();
    let mut out = String::new();
    let mut i: usize = 0;
    while i < n
        invariant
            i <= n,
            out@ == separator_line_spec(separator@, i as nat),
        decreases n - i,
    {
        out.append(separator);
        i += 1;
    }
    out
}

/// Lines of the display beside the logo: title, separator, one for each
/// field and, where it is shown, the palette.
pub fn info_line_count(fields: usize, palette: bool) -> (r: usize)
    requires
        fields + HEADING_LINES + PALETTE_LINES <= usize::MAX,
    ensures
        r == HEADING_LINES + fields + if palette {
            PALETTE_LINES as int
        } else {
            0
        },
{
    let base: usize = HEADING_LINES + fields;
    if palette {
        base + PALETTE_LINES
    } else {
        base
    }
}

/// Height of the display in rows: that of the logo or of the lines beside
/// it, whichever is more, counted in 16 bits.
pub fn display_height(logo_lines: usize, info_lines: usize) -> (r: u16)
    ensures
        r == (if logo_lines >= info_lines {
            logo_lines
        } else {
            info_lines
        }) % 0x1_0000,
{
    let height: usize = if logo_lines >= info_lines {
        logo_lines
    } else {
        info_lines
    };
    (height % 0x1_0000) as u16
}

/// The colours of a row of the palette: the eight basic colours, or their
/// light forms.
pub open spec fn palette_spec(light: bool) -> Seq<Color> {
    if light {
        seq![
            Color::DarkGray,
            Color::LightRed,
            Color::LightGreen,
            Color::LightYellow,
            Color::LightBlue,
            Color::LightMagenta,
            Color::LightCyan,
            Color::White,
        ]
    } else {
        seq![
            Color::Black,
            Color::Red,
            Color::Green,
            Color::Yellow,
            Color::Blue,
            Color::Magenta,
            Color::Cyan,
            Color::White,
        ]
    }
}

pub fn palette(light: bool) -> (r: Vec<Color>)
    ensures
        r@ == palette_spec(light),
{
    let mut v: Vec<Color> = Vec::new();
    if light {
        v.push(Color::DarkGray);
        v.push(Color::LightRed);
        v.push(Color::LightGreen);
        v.push(Color::LightYellow);
        v.push(Color::LightBlue);
        v.push(Color::LightMagenta);
        v.push(Color::LightCyan);
        v.push(Color::White);
    } else {
        v.push(Color::Black);
        v.push(Color::Red);
        v.push(Color::Green);
        v.push(Color::Yellow);
        v.push(Color::Blue);
        v.push(Color::Magenta);
        v.push(Color::Cyan);
        v.push(Color::White);
    }
    assert(v@ =~= palette_spec(light));
    v
}

} // verus!
