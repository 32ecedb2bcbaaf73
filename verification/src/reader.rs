//! Reading a settings document from its text.

use crate::config::{VergeConfig, VergeTheme};
use crate::format::{
    after_line, key_len, parse_text, put_field, put_theme, read_lines, split_entry, step,
    theme_field, theme_so_far, theme_with, top_field, Cursor, Section, ThemeField, TopField,
};
use crate::model::ConfigModel;
use crate::scalar::{null_value, read_bool, read_string, read_u64};
use crate::text::{blank, chars_of, measure_line, spells, trimmed};
use vstd::prelude::*;
use vstd::slice::slice_subrange;

verus! {

/// The field of the document that is written under `key`.
pub fn find_top_field(key: &[char]) -> (field: Option<TopField>)
    ensures
        field == top_field(key@),
{
    if spells(key, TopField::Language.name()) {
        Some(TopField::Language)
    } else if spells(key, TopField::ThemeMode.name()) {
        Some(TopField::ThemeMode)
    } else if spells(key, TopField::ThemeBlur.name()) {
        Some(TopField::ThemeBlur)
    } else if spells(key, TopField::TrafficGraph.name()) {
        Some(TopField::TrafficGraph)
    } else if spells(key, TopField::EnableTunMode.name()) {
        Some(TopField::EnableTunMode)
    } else if spells(key, TopField::EnableAutoLaunch.name()) {
        Some(TopField::EnableAutoLaunch)
    } else if spells(key, TopField::EnableSilentStart.name()) {
        Some(TopField::EnableSilentStart)
    } else if spells(key, TopField::EnableSystemProxy.name()) {
        Some(TopField::EnableSystemProxy)
    } else if spells(key, TopField::EnableProxyGuard.name()) {
        Some(TopField::EnableProxyGuard)
    } else if spells(key, TopField::SystemProxyBypass.name()) {
        Some(TopField::SystemProxyBypass)
    } else if spells(key, TopField::ProxyGuardDuration.name()) {
        Some(TopField::ProxyGuardDuration)
    } else if spells(key, TopField::ThemeSetting.name()) {
        Some(TopField::ThemeSetting)
    } else {
        None
    }
}

/// The attribute of the theme block that is written under `key`.
pub fn find_theme_field(key: &[char]) -> (field: Option<ThemeField>)
    ensures
        field == theme_field(key@),
{
    if spells(key, ThemeField::PrimaryColor.name()) {
        Some(ThemeField::PrimaryColor)
    } else if spells(key, ThemeField::SecondaryColor.name()) {
        Some(ThemeField::SecondaryColor)
    } else if spells(key, ThemeField::PrimaryText.name()) {
        Some(ThemeField::PrimaryText)
    } else if spells(key, ThemeField::SecondaryText.name()) {
        Some(ThemeField::SecondaryText)
    } else if spells(key, ThemeField::InfoColor.name()) {
        Some(ThemeField::InfoColor)
    } else if spells(key, ThemeField::ErrorColor.name()) {
        Some(ThemeField::ErrorColor)
    } else if spells(key, ThemeField::WarningColor.name()) {
        Some(ThemeField::WarningColor)
    } else if spells(key, ThemeField::SuccessColor.name()) {
        Some(ThemeField::SuccessColor)
    } else if spells(key, ThemeField::FontFamily.name()) {
        Some(ThemeField::FontFamily)
    } else if spells(key, ThemeField::CssInjection.name()) {
        Some(ThemeField::CssInjection)
    } else {
        None
    }
}

/// The number of characters that stand before the colon that parts key and
/// value.
pub fn measure_key(s: &[char]) -> (n: usize)
    ensures
        n == key_len(s@),
        n <= s@.len(),
{
    let len = s.len();
    let mut i: usize = 0;
    assert(s@.skip(0) =~= s@);
    while i < len
        invariant
            len == s@.len(),
            i <= len,
            key_len(s@) == i + key_len(s@.skip(i as int)),
        decreases len - i,
    {
        let ghost tail = s@.skip(i as int);
        assert(tail[0] == s@[i as int]);
        assert(i + 1 < len ==> tail[1] == s@[i + 1]);
        if s[i] == ':' && (i + 1 == len || blank(s[i + 1])) {
            return i;
        }
        assert(tail.drop_first() =~= s@.skip(i + 1));
        i += 1;
    }
    len
}

/// Parts a line into its key and its value.
pub fn split(body: &[char]) -> (parts: Option<(&[char], &[char])>)
    ensures
        match parts {
            Some((key, value)) => split_entry(body@) == Some((key@, value@)),
            None => split_entry(body@) is None,
        },
{
    let n = measure_key(body);
    if n < body.len() {
        assert(body@.subrange(0, n as int) =~= body@.take(n as int));
        assert(body@.subrange(n + 1, body@.len() as int) =~= body@.skip(n + 1));
        let key = trimmed(slice_subrange(body, 0, n));
        let value = trimmed(slice_subrange(body, n + 1, body.len()));
        Some((key, value))
    } else {
        None
    }
}

/// Sets one attribute of the theme block.
pub fn set_theme_attr(theme: &mut VergeTheme, field: ThemeField, value: Option<String>)
    ensures
        final(theme)@ == theme_with(old(theme)@, field, value.deep_view()),
{
    match field {
        ThemeField::PrimaryColor => {
            theme.primary_color = value;
        },
        ThemeField::SecondaryColor => {
            theme.secondary_color = value;
        },
        ThemeField::PrimaryText => {
            theme.primary_text = value;
        },
        ThemeField::SecondaryText => {
            theme.secondary_text = value;
        },
        ThemeField::InfoColor => {
            theme.info_color = value;
        },
        ThemeField::ErrorColor => {
            theme.error_color = value;
        },
        ThemeField::WarningColor => {
            theme.warning_color = value;
        },
        ThemeField::SuccessColor => {
            theme.success_color = value;
        },
        ThemeField::FontFamily => {
            theme.font_family = value;
        },
        ThemeField::CssInjection => {
            theme.css_injection = value;
        },
    }
}

/// Reads the value behind a known key at the left margin into its field.
/// Where the value is not of the field's kind, the result is `None` and the
/// document is not to be used.
pub fn read_field(cfg: &mut VergeConfig, field: TopField, value: &[char]) -> (section: Option<
    Section,
>)
    ensures
        match put_field(old(cfg)@, field, value@) {
            Some(next) => section == Some(next.section) && final(cfg)@ == next.doc,
            None => section is None,
        },
{
    match field {
        TopField::Language => match read_string(value) {
            Some(v) => {
                cfg.language = v;
                Some(Section::Top)
            },
            None => None,
        },
        TopField::ThemeMode => match read_string(value) {
            Some(v) => {
                cfg.theme_mode = v;
                Some(Section::Top)
            },
            None => None,
        },
        TopField::ThemeBlur => match read_bool(value) {
            Some(v) => {
                cfg.theme_blur = v;
                Some(Section::Top)
            },
            None => None,
        },
        TopField::TrafficGraph => match read_bool(value) {
            Some(v) => {
                cfg.traffic_graph = v;
                Some(Section::Top)
            },
            None => None,
        },
        TopField::EnableTunMode => match read_bool(value) {
            Some(v) => {
                cfg.enable_tun_mode = v;
                Some(Section::Top)
            },
            None => None,
        },
        TopField::EnableAutoLaunch => match read_bool(value) {
            Some(v) => {
                cfg.enable_auto_launch = v;
                Some(Section::Top)
            },
            None => None,
        },
        TopField::EnableSilentStart => match read_bool(value) {
            Some(v) => {
                cfg.enable_silent_start = v;
                Some(Section::Top)
            },
            None => None,
        },
        TopField::EnableSystemProxy => match read_bool(value) {
            Some(v) => {
                cfg.enable_system_proxy = v;
                Some(Section::Top)
            },
            None => None,
        },
        TopField::EnableProxyGuard => match read_bool(value) {
            Some(v) => {
                cfg.enable_proxy_guard = v;
                Some(Section::Top)
            },
            None => None,
        },
        TopField::SystemProxyBypass => match read_string(value) {
            Some(v) => {
                cfg.system_proxy_bypass = v;
                Some(Section::Top)
            },
            None => None,
        },
        TopField::ProxyGuardDuration => match read_u64(value) {
            Some(v) => {
                cfg.proxy_guard_duration = v;
                Some(Section::Top)
            },
            None => None,
        },
        TopField::ThemeSetting => {
            if value.len() == 0 {
                cfg.theme_setting = None;
                Some(Section::Theme)
            } else if null_value(value) {
                cfg.theme_setting = None;
                Some(Section::Top)
            } else if value.len() == 2 && value[0] == '{' && value[1] == '}' {
                assert(value@ =~= seq!['{', '}']);
                cfg.theme_setting = Some(VergeTheme::default());
                Some(Section::Top)
            } else {
                assert(seq!['{', '}'].len() == 2);
                assert(seq!['{', '}'][0] == '{' && seq!['{', '}'][1] == '}');
                None
            }
        },
    }
}

/// Reads a line that stands below `theme_setting:` into the theme block.
/// Where its value is no text, the result is `false` and the document is not
/// to be used.
pub fn read_theme_line(cfg: &mut VergeConfig, key: &[char], value: &[char]) -> (ok: bool)
    ensures
        match put_theme(theme_so_far(old(cfg)@), key@, value@) {
            Some(theme) => ok && final(cfg)@ == (ConfigModel {
                theme_setting: Some(theme),
                ..old(cfg)@
            }),
            None => !ok,
        },
{
    match find_theme_field(key) {
        Some(field) => match read_string(value) {
            Some(v) => {
                let mut theme = match cfg.theme_setting.take() {
                    Some(t) => t,
                    None => VergeTheme::default(),
                };
                set_theme_attr(&mut theme, field, v);
                cfg.theme_setting = Some(theme);
                true
            },
            None => false,
        },
        None => {
            if cfg.theme_setting.is_none() {
                cfg.theme_setting = Some(VergeTheme::default());
            }
            true
        },
    }
}

/// Reads one line into the document. The result is the part of the document
/// in which the next line stands, or `None` where the line cannot be
/// understood; the document is then not to be used.
pub fn read_line(cfg: &mut VergeConfig, section: Section, line: &[char]) -> (next: Option<Section>)
    ensures
        match step(Cursor { doc: old(cfg)@, section }, line@) {
            Some(at) => next == Some(at.section) && final(cfg)@ == at.doc,
            None => next is None,
        },
{
    let body = trimmed(line);
    if body.len() == 0 {
        return Some(section);
    }
    if body[0] == '#' {
        return Some(section);
    }
    if blank(line[0]) {
        match section {
            Section::Skipped => Some(section),
            Section::Top => None,
            Section::Theme => match split(body) {
                Some((key, value)) => {
                    if read_theme_line(cfg, key, value) {
                        Some(Section::Theme)
                    } else {
                        None
                    }
                },
                None => None,
            },
        }
    } else if body.len() == 3 && body[0] == '-' && body[1] == '-' && body[2] == '-' {
        assert(body@ =~= seq!['-', '-', '-']);
        Some(Section::Top)
    } else {
        assert(seq!['-', '-', '-'].len() == 3);
        assert(seq!['-', '-', '-'][0] == '-' && seq!['-', '-', '-'][1] == '-' && seq![
            '-',
            '-',
            '-',
        ][2] == '-');
        match split(body) {
            Some((key, value)) => match find_top_field(key) {
                Some(field) => read_field(cfg, field, value),
                None => Some(Section::Skipped),
            },
            None => None,
        }
    }
}

/// Reads a document from its text. The result is `None` where a line cannot
/// be understood or a value is not of the kind that its field holds.
pub fn parse(text: &str) -> (doc: Option<VergeConfig>)
    ensures
        doc.deep_view() == parse_text(text@),
{
    let chars = chars_of(text);
    let all = chars.as_slice();
    let mut cfg = VergeConfig::default();
    let mut section = Section::Top;
    let mut pos: usize = 0;
    assert(all@.skip(0) =~= all@);
    while pos < all.len()
        invariant
            all@ == text@,
            pos <= all@.len(),
            read_lines(text@, Cursor { doc: ConfigModel::unset(), section: Section::Top })
                == read_lines(all@.skip(pos as int), Cursor { doc: cfg@, section }),
        decreases all@.len() - pos,
    {
        let ghost rest = all@.skip(pos as int);
        let n = measure_line(all, pos);
        let line = slice_subrange(all, pos, pos + n);
        assert(line@ =~= rest.take(n as int));
        match read_line(&mut cfg, section, line) {
            Some(next) => {
                section = next;
            },
            None => {
                return None;
            },
        }
        if pos + n < all.len() {
            assert(after_line(rest) =~= all@.skip(pos + n + 1));
            pos = pos + n + 1;
        } else {
            assert(all@.skip(all@.len() as int) =~= Seq::<char>::empty());
            pos = all.len();
        }
    }
    Some(cfg)
}

} // verus!
