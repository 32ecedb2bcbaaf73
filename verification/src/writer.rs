//! Writing a settings document as text.

use crate::config::{VergeConfig, VergeTheme};
use crate::format::{
    empty_block, entry, margin, render_fields, render_text, render_theme, render_theme_block,
    theme_entry, theme_head, top_entry, written_count, written_flag, written_text, ThemeField,
    TopField,
};
use crate::model::ThemeModel;
use crate::scalar::{write_bool, write_decimal, write_quoted};
use vstd::prelude::*;
use vstd::string::StringExecFns;

verus! {

/// Writes the margin, the key, a colon and a space.
pub fn write_key(out: &mut String, nested: bool, key: &str)
    ensures
        final(out)@ == old(out)@ + margin(nested) + key@ + seq![':', ' '],
{
    let ghost before = out@;
    if nested {
        out.push(' ');
        out.push(' ');
    }
    assert(out@ =~= before + margin(nested));
    out.append(key);
    out.push(':');
    out.push(' ');
    assert(out@ =~= before + margin(nested) + key@ + seq![':', ' ']);
}

/// Writes the line of a text field, or nothing where the field is unset.
pub fn write_text_entry(out: &mut String, nested: bool, key: &str, value: &Option<String>)
    ensures
        final(out)@ == old(out)@ + entry(nested, key@, written_text(value.deep_view())),
{
    let ghost before = out@;
    match value {
        Some(s) => {
            write_key(out, nested, key);
            write_quoted(out, s.as_str());
            out.push('\n');
            assert(out@ =~= before + entry(nested, key@, written_text(value.deep_view())));
        },
        None => {
            assert(out@ =~= before + Seq::<char>::empty());
        },
    }
}

/// Writes the line of a flag, or nothing where the flag is unset.
pub fn write_flag_entry(out: &mut String, key: &str, value: Option<bool>)
    ensures
        final(out)@ == old(out)@ + entry(false, key@, written_flag(value)),
{
    let ghost before = out@;
    match value {
        Some(b) => {
            write_key(out, false, key);
            write_bool(out, b);
            out.push('\n');
            assert(out@ =~= before + entry(false, key@, written_flag(value)));
        },
        None => {
            assert(out@ =~= before + Seq::<char>::empty());
        },
    }
}

/// Writes the line of a count, or nothing where the count is unset.
pub fn write_count_entry(out: &mut String, key: &str, value: Option<u64>)
    ensures
        final(out)@ == old(out)@ + entry(false, key@, written_count(value)),
{
    let ghost before = out@;
    match value {
        Some(n) => {
            write_key(out, false, key);
            write_decimal(out, n);
            out.push('\n');
            assert(out@ =~= before + entry(false, key@, written_count(value)));
        },
        None => {
            assert(out@ =~= before + Seq::<char>::empty());
        },
    }
}

/// Whether no attribute of the theme block is set.
pub fn theme_is_unset(theme: &VergeTheme) -> (unset: bool)
    ensures
        unset == (theme@ == ThemeModel::unset()),
{
    theme.primary_color.is_none() && theme.secondary_color.is_none()
        && theme.primary_text.is_none() && theme.secondary_text.is_none()
        && theme.info_color.is_none() && theme.error_color.is_none()
        && theme.warning_color.is_none() && theme.success_color.is_none()
        && theme.font_family.is_none() && theme.css_injection.is_none()
}

/// Writes the theme block.
pub fn write_theme(out: &mut String, theme: &Option<VergeTheme>)
    ensures
        final(out)@ == old(out)@ + render_theme(theme.deep_view()),
{
    let ghost before = out@;
    match theme {
        None => {
            assert(out@ =~= before + Seq::<char>::empty());
        },
        Some(t) => {
            if theme_is_unset(t) {
                write_key(out, false, TopField::ThemeSetting.name());
                out.push('{');
                out.push('}');
                out.push('\n');
                assert(out@ =~= before + top_entry(TopField::ThemeSetting, Some(empty_block())));
            } else {
                out.append(TopField::ThemeSetting.name());
                out.push(':');
                out.push('\n');
                let ghost mut done = theme_head();
                assert(out@ =~= before + done);
                write_text_entry(out, true, ThemeField::PrimaryColor.name(), &t.primary_color);
                proof {
                    done = lemma_written(before, done, theme_entry(ThemeField::PrimaryColor, t@.primary_color));
                }
                write_text_entry(out, true, ThemeField::SecondaryColor.name(), &t.secondary_color);
                proof {
                    done = lemma_written(before, done, theme_entry(ThemeField::SecondaryColor, t@.secondary_color));
                }
                write_text_entry(out, true, ThemeField::PrimaryText.name(), &t.primary_text);
                proof {
                    done = lemma_written(before, done, theme_entry(ThemeField::PrimaryText, t@.primary_text));
                }
                write_text_entry(out, true, ThemeField::SecondaryText.name(), &t.secondary_text);
                proof {
                    done = lemma_written(before, done, theme_entry(ThemeField::SecondaryText, t@.secondary_text));
                }
                write_text_entry(out, true, ThemeField::InfoColor.name(), &t.info_color);
                proof {
                    done = lemma_written(before, done, theme_entry(ThemeField::InfoColor, t@.info_color));
                }
                write_text_entry(out, true, ThemeField::ErrorColor.name(), &t.error_color);
                proof {
                    done = lemma_written(before, done, theme_entry(ThemeField::ErrorColor, t@.error_color));
                }
                write_text_entry(out, true, ThemeField::WarningColor.name(), &t.warning_color);
                proof {
                    done = lemma_written(before, done, theme_entry(ThemeField::WarningColor, t@.warning_color));
                }
                write_text_entry(out, true, ThemeField::SuccessColor.name(), &t.success_color);
                proof {
                    done = lemma_written(before, done, theme_entry(ThemeField::SuccessColor, t@.success_color));
                }
                write_text_entry(out, true, ThemeField::FontFamily.name(), &t.font_family);
                proof {
                    done = lemma_written(before, done, theme_entry(ThemeField::FontFamily, t@.font_family));
                }
                write_text_entry(out, true, ThemeField::CssInjection.name(), &t.css_injection);
                proof {
                    done = lemma_written(before, done, theme_entry(ThemeField::CssInjection, t@.css_injection));
                    assert(done == render_theme_block(t@));
                }
            }
        },
    }
}

/// What has been written behind `start` grows by the piece `next`.
proof fn lemma_written(start: Seq<char>, done: Seq<char>, next: Seq<char>) -> (longer: Seq<char>)
    ensures
        longer == done + next,
        start + done + next == start + longer,
{
    assert(start + done + next =~= start + (done + next));
    done + next
}

/// The text of `doc` behind `header`.
pub fn render(doc: &VergeConfig, header: &str) -> (out: String)
    ensures
        out@ == header@ + render_text(doc@),
{
    let ghost h = header@;
    let ghost d = doc@;
    let mut out = String::from_str(header);
    write_text_entry(&mut out, false, TopField::Language.name(), &doc.language);
    let ghost mut done = top_entry(TopField::Language, written_text(d.language));
    write_text_entry(&mut out, false, TopField::ThemeMode.name(), &doc.theme_mode);
    proof {
        done = lemma_written(h, done, top_entry(TopField::ThemeMode, written_text(d.theme_mode)));
    }
    write_flag_entry(&mut out, TopField::ThemeBlur.name(), doc.theme_blur);
    proof {
        done = lemma_written(h, done, top_entry(TopField::ThemeBlur, written_flag(d.theme_blur)));
    }
    write_flag_entry(&mut out, TopField::TrafficGraph.name(), doc.traffic_graph);
    proof {
        done = lemma_written(h, done, top_entry(TopField::TrafficGraph, written_flag(d.traffic_graph)));
    }
    write_flag_entry(&mut out, TopField::EnableTunMode.name(), doc.enable_tun_mode);
    proof {
        done = lemma_written(h, done, top_entry(TopField::EnableTunMode, written_flag(d.enable_tun_mode)));
    }
    write_flag_entry(&mut out, TopField::EnableAutoLaunch.name(), doc.enable_auto_launch);
    proof {
        done = lemma_written(h, done, top_entry(TopField::EnableAutoLaunch, written_flag(d.enable_auto_launch)));
    }
    write_flag_entry(&mut out, TopField::EnableSilentStart.name(), doc.enable_silent_start);
    proof {
        done = lemma_written(h, done, top_entry(TopField::EnableSilentStart, written_flag(d.enable_silent_start)));
    }
    write_flag_entry(&mut out, TopField::EnableSystemProxy.name(), doc.enable_system_proxy);
    proof {
        done = lemma_written(h, done, top_entry(TopField::EnableSystemProxy, written_flag(d.enable_system_proxy)));
    }
    write_flag_entry(&mut out, TopField::EnableProxyGuard.name(), doc.enable_proxy_guard);
    proof {
        done = lemma_written(h, done, top_entry(TopField::EnableProxyGuard, written_flag(d.enable_proxy_guard)));
    }
    write_text_entry(&mut out, false, TopField::SystemProxyBypass.name(), &doc.system_proxy_bypass);
    proof {
        done = lemma_written(h, done, top_entry(TopField::SystemProxyBypass, written_text(d.system_proxy_bypass)));
    }
    write_count_entry(&mut out, TopField::ProxyGuardDuration.name(), doc.proxy_guard_duration);
    proof {
        done = lemma_written(h, done, top_entry(TopField::ProxyGuardDuration, written_count(d.proxy_guard_duration)));
        assert(done == render_fields(d));
    }
    write_theme(&mut out, &doc.theme_setting);
    proof {
        done = lemma_written(h, done, render_theme(d.theme_setting));
    }
    out
}

} // verus!
