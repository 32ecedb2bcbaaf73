//! The text form of a settings document.
//!
//! A document is kept as lines of `key: value`. A line that begins at the
//! left margin sets a field of the document; the lines that follow
//! `theme_setting:` further in set the attributes of the theme block. Lines
//! that are empty or begin with `#` say nothing, and so does the marker `---`.
//! A key that is not known is passed over together with whatever is written
//! below it further in, so that a file written by a later version can still
//! be read. A field that is unset is not written at all.

use crate::model::{ConfigModel, ThemeModel};
use crate::scalar::{bool_text, decimal, decode_bool, decode_string, decode_u64, is_null, quote};
use crate::text::{is_blank, line_len, trim};
use vstd::prelude::*;

verus! {

// ----- the fields and their keys -----
/// The fields of a document, in the order in which they are written.
#[derive(Clone, Copy, Debug)]
pub enum TopField {
    Language,
    ThemeMode,
    ThemeBlur,
    TrafficGraph,
    EnableTunMode,
    EnableAutoLaunch,
    EnableSilentStart,
    EnableSystemProxy,
    EnableProxyGuard,
    SystemProxyBypass,
    ProxyGuardDuration,
    ThemeSetting,
}

/// The attributes of the theme block, in the order in which they are written.
#[derive(Clone, Copy, Debug)]
pub enum ThemeField {
    PrimaryColor,
    SecondaryColor,
    PrimaryText,
    SecondaryText,
    InfoColor,
    ErrorColor,
    WarningColor,
    SuccessColor,
    FontFamily,
    CssInjection,
}

impl TopField {
    /// The key under which the field is written.
    pub open spec fn key(self) -> Seq<char> {
        match self {
            TopField::Language => "language"@,
            TopField::ThemeMode => "theme_mode"@,
            TopField::ThemeBlur => "theme_blur"@,
            TopField::TrafficGraph => "traffic_graph"@,
            TopField::EnableTunMode => "enable_tun_mode"@,
            TopField::EnableAutoLaunch => "enable_auto_launch"@,
            TopField::EnableSilentStart => "enable_silent_start"@,
            TopField::EnableSystemProxy => "enable_system_proxy"@,
            TopField::EnableProxyGuard => "enable_proxy_guard"@,
            TopField::SystemProxyBypass => "system_proxy_bypass"@,
            TopField::ProxyGuardDuration => "proxy_guard_duration"@,
            TopField::ThemeSetting => "theme_setting"@,
        }
    }

    /// The key under which the field is written.
    pub fn name(self) -> (key: &'static str)
        ensures
            key@ == self.key(),
    {
        match self {
            TopField::Language => "language",
            TopField::ThemeMode => "theme_mode",
            TopField::ThemeBlur => "theme_blur",
            TopField::TrafficGraph => "traffic_graph",
            TopField::EnableTunMode => "enable_tun_mode",
            TopField::EnableAutoLaunch => "enable_auto_launch",
            TopField::EnableSilentStart => "enable_silent_start",
            TopField::EnableSystemProxy => "enable_system_proxy",
            TopField::EnableProxyGuard => "enable_proxy_guard",
            TopField::SystemProxyBypass => "system_proxy_bypass",
            TopField::ProxyGuardDuration => "proxy_guard_duration",
            TopField::ThemeSetting => "theme_setting",
        }
    }
}

impl ThemeField {
    /// The key under which the attribute is written.
    pub open spec fn key(self) -> Seq<char> {
        match self {
            ThemeField::PrimaryColor => "primary_color"@,
            ThemeField::SecondaryColor => "secondary_color"@,
            ThemeField::PrimaryText => "primary_text"@,
            ThemeField::SecondaryText => "secondary_text"@,
            ThemeField::InfoColor => "info_color"@,
            ThemeField::ErrorColor => "error_color"@,
            ThemeField::WarningColor => "warning_color"@,
            ThemeField::SuccessColor => "success_color"@,
            ThemeField::FontFamily => "font_family"@,
            ThemeField::CssInjection => "css_injection"@,
        }
    }

    /// The key under which the attribute is written.
    pub fn name(self) -> (key: &'static str)
        ensures
            key@ == self.key(),
    {
        match self {
            ThemeField::PrimaryColor => "primary_color",
            ThemeField::SecondaryColor => "secondary_color",
            ThemeField::PrimaryText => "primary_text",
            ThemeField::SecondaryText => "secondary_text",
            ThemeField::InfoColor => "info_color",
            ThemeField::ErrorColor => "error_color",
            ThemeField::WarningColor => "warning_color",
            ThemeField::SuccessColor => "success_color",
            ThemeField::FontFamily => "font_family",
            ThemeField::CssInjection => "css_injection",
        }
    }
}

/// The field that is written under `key`, if there is one.
pub open spec fn top_field(key: Seq<char>) -> Option<TopField> {
    if key == TopField::Language.key() {
        Some(TopField::Language)
    } else if key == TopField::ThemeMode.key() {
        Some(TopField::ThemeMode)
    } else if key == TopField::ThemeBlur.key() {
        Some(TopField::ThemeBlur)
    } else if key == TopField::TrafficGraph.key() {
        Some(TopField::TrafficGraph)
    } else if key == TopField::EnableTunMode.key() {
        Some(TopField::EnableTunMode)
    } else if key == TopField::EnableAutoLaunch.key() {
        Some(TopField::EnableAutoLaunch)
    } else if key == TopField::EnableSilentStart.key() {
        Some(TopField::EnableSilentStart)
    } else if key == TopField::EnableSystemProxy.key() {
        Some(TopField::EnableSystemProxy)
    } else if key == TopField::EnableProxyGuard.key() {
        Some(TopField::EnableProxyGuard)
    } else if key == TopField::SystemProxyBypass.key() {
        Some(TopField::SystemProxyBypass)
    } else if key == TopField::ProxyGuardDuration.key() {
        Some(TopField::ProxyGuardDuration)
    } else if key == TopField::ThemeSetting.key() {
        Some(TopField::ThemeSetting)
    } else {
        None
    }
}

/// The theme attribute that is written under `key`, if there is one.
pub open spec fn theme_field(key: Seq<char>) -> Option<ThemeField> {
    if key == ThemeField::PrimaryColor.key() {
        Some(ThemeField::PrimaryColor)
    } else if key == ThemeField::SecondaryColor.key() {
        Some(ThemeField::SecondaryColor)
    } else if key == ThemeField::PrimaryText.key() {
        Some(ThemeField::PrimaryText)
    } else if key == ThemeField::SecondaryText.key() {
        Some(ThemeField::SecondaryText)
    } else if key == ThemeField::InfoColor.key() {
        Some(ThemeField::InfoColor)
    } else if key == ThemeField::ErrorColor.key() {
        Some(ThemeField::ErrorColor)
    } else if key == ThemeField::WarningColor.key() {
        Some(ThemeField::WarningColor)
    } else if key == ThemeField::SuccessColor.key() {
        Some(ThemeField::SuccessColor)
    } else if key == ThemeField::FontFamily.key() {
        Some(ThemeField::FontFamily)
    } else if key == ThemeField::CssInjection.key() {
        Some(ThemeField::CssInjection)
    } else {
        None
    }
}

/// The theme block `theme` with the attribute `field` set to `value`.
pub open spec fn theme_with(theme: ThemeModel, field: ThemeField, value: Option<Seq<char>>)
    -> ThemeModel {
    match field {
        ThemeField::PrimaryColor => ThemeModel { primary_color: value, ..theme },
        ThemeField::SecondaryColor => ThemeModel { secondary_color: value, ..theme },
        ThemeField::PrimaryText => ThemeModel { primary_text: value, ..theme },
        ThemeField::SecondaryText => ThemeModel { secondary_text: value, ..theme },
        ThemeField::InfoColor => ThemeModel { info_color: value, ..theme },
        ThemeField::ErrorColor => ThemeModel { error_color: value, ..theme },
        ThemeField::WarningColor => ThemeModel { warning_color: value, ..theme },
        ThemeField::SuccessColor => ThemeModel { success_color: value, ..theme },
        ThemeField::FontFamily => ThemeModel { font_family: value, ..theme },
        ThemeField::CssInjection => ThemeModel { css_injection: value, ..theme },
    }
}

// ----- reading: the meaning of a text -----
/// Where in a document the reader stands: at the left margin, below
/// `theme_setting:`, or below a key that it passes over.
#[derive(Clone, Copy, Debug)]
pub enum Section {
    Top,
    Theme,
    Skipped,
}

/// What has been read so far, and where the reader stands.
pub struct Cursor {
    pub doc: ConfigModel,
    pub section: Section,
}

/// Whether `s` begins with the colon that parts a key from its value: a
/// colon with a blank or nothing behind it.
pub open spec fn at_separator(s: Seq<char>) -> bool {
    s.len() > 0 && s[0] == ':' && (s.len() == 1 || is_blank(s[1]))
}

/// The number of characters of `s` that stand before the colon that parts
/// key and value, or all of them where there is no such colon.
pub open spec fn key_len(s: Seq<char>) -> nat
    decreases s.len(),
{
    if s.len() == 0 || at_separator(s) {
        0
    } else {
        1 + key_len(s.drop_first())
    }
}

/// Key and value of a line, each without the blanks around it, or `None`
/// where the line has no colon to part them.
pub open spec fn split_entry(body: Seq<char>) -> Option<(Seq<char>, Seq<char>)> {
    let n = key_len(body) as int;
    if n < body.len() {
        Some((trim(body.take(n)), trim(body.skip(n + 1))))
    } else {
        None
    }
}

/// The marker that may stand before the first line of a document.
pub open spec fn is_marker(body: Seq<char>) -> bool {
    body == seq!['-', '-', '-']
}

/// What a line at the left margin does with the value behind a known key.
pub open spec fn put_field(doc: ConfigModel, field: TopField, value: Seq<char>) -> Option<
    Cursor,
> {
    match field {
        TopField::Language => match decode_string(value) {
            Some(v) => at_top(ConfigModel { language: v, ..doc }),
            None => None,
        },
        TopField::ThemeMode => match decode_string(value) {
            Some(v) => at_top(ConfigModel { theme_mode: v, ..doc }),
            None => None,
        },
        TopField::ThemeBlur => match decode_bool(value) {
            Some(v) => at_top(ConfigModel { theme_blur: v, ..doc }),
            None => None,
        },
        TopField::TrafficGraph => match decode_bool(value) {
            Some(v) => at_top(ConfigModel { traffic_graph: v, ..doc }),
            None => None,
        },
        TopField::EnableTunMode => match decode_bool(value) {
            Some(v) => at_top(ConfigModel { enable_tun_mode: v, ..doc }),
            None => None,
        },
        TopField::EnableAutoLaunch => match decode_bool(value) {
            Some(v) => at_top(ConfigModel { enable_auto_launch: v, ..doc }),
            None => None,
        },
        TopField::EnableSilentStart => match decode_bool(value) {
            Some(v) => at_top(ConfigModel { enable_silent_start: v, ..doc }),
            None => None,
        },
        TopField::EnableSystemProxy => match decode_bool(value) {
            Some(v) => at_top(ConfigModel { enable_system_proxy: v, ..doc }),
            None => None,
        },
        TopField::EnableProxyGuard => match decode_bool(value) {
            Some(v) => at_top(ConfigModel { enable_proxy_guard: v, ..doc }),
            None => None,
        },
        TopField::SystemProxyBypass => match decode_string(value) {
            Some(v) => at_top(ConfigModel { system_proxy_bypass: v, ..doc }),
            None => None,
        },
        TopField::ProxyGuardDuration => match decode_u64(value) {
            Some(v) => at_top(ConfigModel { proxy_guard_duration: v, ..doc }),
            None => None,
        },
        TopField::ThemeSetting => if value.len() == 0 {
            Some(Cursor { doc: ConfigModel { theme_setting: None, ..doc }, section: Section::Theme })
        } else if is_null(value) {
            at_top(ConfigModel { theme_setting: None, ..doc })
        } else if value == empty_block() {
            at_top(ConfigModel { theme_setting: Some(ThemeModel::unset()), ..doc })
        } else {
            None
        },
    }
}

/// The reader at the left margin, with `doc` read so far.
pub open spec fn at_top(doc: ConfigModel) -> Option<Cursor> {
    Some(Cursor { doc, section: Section::Top })
}

/// How a theme block without attributes is written.
pub open spec fn empty_block() -> Seq<char> {
    seq!['{', '}']
}

/// What a line at the left margin does: it sets the field that its key
/// names, or opens a part that is passed over.
pub open spec fn put_top(doc: ConfigModel, key: Seq<char>, value: Seq<char>) -> Option<Cursor> {
    match top_field(key) {
        Some(field) => put_field(doc, field, value),
        None => Some(Cursor { doc, section: Section::Skipped }),
    }
}

/// What a line below `theme_setting:` does to the theme block: it sets the
/// attribute that its key names; under a key that names none, nothing.
pub open spec fn put_theme(theme: ThemeModel, key: Seq<char>, value: Seq<char>) -> Option<
    ThemeModel,
> {
    match theme_field(key) {
        Some(field) => match decode_string(value) {
            Some(v) => Some(theme_with(theme, field, v)),
            None => None,
        },
        None => Some(theme),
    }
}

/// The theme block that the lines below `theme_setting:` add to.
pub open spec fn theme_so_far(doc: ConfigModel) -> ThemeModel {
    match doc.theme_setting {
        Some(t) => t,
        None => ThemeModel::unset(),
    }
}

/// What one line does to what has been read, or `None` where the line cannot
/// be understood.
pub open spec fn step(at: Cursor, line: Seq<char>) -> Option<Cursor> {
    let body = trim(line);
    if body.len() == 0 || body[0] == '#' {
        Some(at)
    } else if is_blank(line[0]) {
        match at.section {
            Section::Skipped => Some(at),
            Section::Top => None,
            Section::Theme => match split_entry(body) {
                Some((key, value)) => match put_theme(theme_so_far(at.doc), key, value) {
                    Some(theme) => Some(
                        Cursor {
                            doc: ConfigModel { theme_setting: Some(theme), ..at.doc },
                            section: Section::Theme,
                        },
                    ),
                    None => None,
                },
                None => None,
            },
        }
    } else if is_marker(body) {
        Some(Cursor { doc: at.doc, section: Section::Top })
    } else {
        match split_entry(body) {
            Some((key, value)) => put_top(at.doc, key, value),
            None => None,
        }
    }
}

/// What is left of a text behind its first line.
pub open spec fn after_line(text: Seq<char>) -> Seq<char> {
    if line_len(text) < text.len() {
        text.skip(line_len(text) as int + 1)
    } else {
        Seq::empty()
    }
}

/// What the lines of `text` do, one after the other, to what has been read.
pub open spec fn read_lines(text: Seq<char>, at: Cursor) -> Option<Cursor>
    decreases text.len(),
{
    if text.len() == 0 {
        Some(at)
    } else {
        match step(at, text.take(line_len(text) as int)) {
            Some(next) => read_lines(after_line(text), next),
            None => None,
        }
    }
}

/// The document that `text` stands for, or `None` where a line of it cannot
/// be understood or a value is not of the kind that its field holds.
pub open spec fn parse_text(text: Seq<char>) -> Option<ConfigModel> {
    match read_lines(text, Cursor { doc: ConfigModel::unset(), section: Section::Top }) {
        Some(at) => Some(at.doc),
        None => None,
    }
}

// ----- writing: the text of a document -----
/// What stands before a key: nothing at the left margin, two spaces below
/// `theme_setting:`.
pub open spec fn margin(nested: bool) -> Seq<char> {
    if nested {
        seq![' ', ' ']
    } else {
        Seq::empty()
    }
}

/// The line `key: written` behind its margin and with a line feed at its end,
/// or nothing for a field that is unset.
pub open spec fn entry(nested: bool, key: Seq<char>, written: Option<Seq<char>>) -> Seq<char> {
    match written {
        Some(w) => margin(nested) + key + seq![':', ' '] + w + seq!['\n'],
        None => Seq::empty(),
    }
}

/// A text field as it is written.
pub open spec fn written_text(v: Option<Seq<char>>) -> Option<Seq<char>> {
    match v {
        Some(s) => Some(quote(s)),
        None => None,
    }
}

/// A flag field as it is written.
pub open spec fn written_flag(v: Option<bool>) -> Option<Seq<char>> {
    match v {
        Some(b) => Some(bool_text(b)),
        None => None,
    }
}

/// A count field as it is written.
pub open spec fn written_count(v: Option<u64>) -> Option<Seq<char>> {
    match v {
        Some(n) => Some(decimal(n as nat)),
        None => None,
    }
}

/// A text attribute of the theme block as it is written.
pub open spec fn theme_entry(field: ThemeField, v: Option<Seq<char>>) -> Seq<char> {
    entry(true, field.key(), written_text(v))
}

/// The line that opens a theme block.
pub open spec fn theme_head() -> Seq<char> {
    TopField::ThemeSetting.key() + seq![':', '\n']
}

/// A theme block with attributes as it is written: the line that opens it,
/// and below it one line for each attribute that is set.
pub open spec fn render_theme_block(t: ThemeModel) -> Seq<char> {
    theme_head() + theme_entry(ThemeField::PrimaryColor, t.primary_color) + theme_entry(
        ThemeField::SecondaryColor,
        t.secondary_color,
    ) + theme_entry(ThemeField::PrimaryText, t.primary_text) + theme_entry(
        ThemeField::SecondaryText,
        t.secondary_text,
    ) + theme_entry(ThemeField::InfoColor, t.info_color) + theme_entry(
        ThemeField::ErrorColor,
        t.error_color,
    ) + theme_entry(ThemeField::WarningColor, t.warning_color) + theme_entry(
        ThemeField::SuccessColor,
        t.success_color,
    ) + theme_entry(ThemeField::FontFamily, t.font_family) + theme_entry(
        ThemeField::CssInjection,
        t.css_injection,
    )
}

/// The theme block as it is written: nothing where it is unset, `{}` behind
/// the key where it is set but has no attribute, else its attributes below
/// the key.
pub open spec fn render_theme(theme: Option<ThemeModel>) -> Seq<char> {
    match theme {
        None => Seq::empty(),
        Some(t) => if t == ThemeModel::unset() {
            top_entry(TopField::ThemeSetting, Some(empty_block()))
        } else {
            render_theme_block(t)
        },
    }
}

/// A field of the document as it is written.
pub open spec fn top_entry(field: TopField, written: Option<Seq<char>>) -> Seq<char> {
    entry(false, field.key(), written)
}

/// The fields of a document other than the theme block, as they are written.
pub open spec fn render_fields(d: ConfigModel) -> Seq<char> {
    top_entry(TopField::Language, written_text(d.language)) + top_entry(
        TopField::ThemeMode,
        written_text(d.theme_mode),
    ) + top_entry(TopField::ThemeBlur, written_flag(d.theme_blur)) + top_entry(
        TopField::TrafficGraph,
        written_flag(d.traffic_graph),
    ) + top_entry(TopField::EnableTunMode, written_flag(d.enable_tun_mode)) + top_entry(
        TopField::EnableAutoLaunch,
        written_flag(d.enable_auto_launch),
    ) + top_entry(TopField::EnableSilentStart, written_flag(d.enable_silent_start)) + top_entry(
        TopField::EnableSystemProxy,
        written_flag(d.enable_system_proxy),
    ) + top_entry(TopField::EnableProxyGuard, written_flag(d.enable_proxy_guard)) + top_entry(
        TopField::SystemProxyBypass,
        written_text(d.system_proxy_bypass),
    ) + top_entry(TopField::ProxyGuardDuration, written_count(d.proxy_guard_duration))
}

/// The text of a document: its fields in their order, one line for each that
/// is set, and the theme block last.
pub open spec fn render_text(d: ConfigModel) -> Seq<char> {
    render_fields(d) + render_theme(d.theme_setting)
}

/// The comment with which every settings file begins.
pub const HEADER: &'static str = "# The Config for Clash Verge App\n\n";

/// The text of the settings file that holds `d`.
pub open spec fn file_text(d: ConfigModel) -> Seq<char> {
    HEADER@ + render_text(d)
}

/// The document that a settings file gives: what its text stands for, and
/// the document with every field unset where there is no text to be had or
/// the text cannot be understood.
pub open spec fn load(source: Option<Seq<char>>) -> ConfigModel {
    match source {
        Some(text) => match parse_text(text) {
            Some(d) => d,
            None => ConfigModel::unset(),
        },
        None => ConfigModel::unset(),
    }
}

} // verus!
