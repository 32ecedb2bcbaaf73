//! What holds of the text form: a document that is written and read again
//! comes back as it was.

use crate::format::{
    after_line, at_separator, at_top, empty_block, file_text, is_marker, key_len, load, margin,
    parse_text, put_field, read_lines, render_fields, render_text, render_theme,
    render_theme_block, split_entry, step, theme_entry, theme_field, theme_head, theme_so_far,
    theme_with, top_entry, top_field, written_count, written_flag, written_text, Cursor, Section,
    ThemeField, TopField, HEADER,
};
use crate::model::{ConfigModel, ThemeModel};
use crate::scalar::{
    decode_bool, decode_string, decode_u64, lemma_decode_bool_text, lemma_decode_decimal,
    lemma_decode_quote, quote, tight,
};
use crate::text::{
    is_blank, lemma_line_len_bound, lemma_line_len_of_line, line_len, single_line, trim,
    trim_start,
};
use vstd::prelude::*;

verus! {

/// A character of which keys are made: a small letter or an underscore.
pub open spec fn is_name_char(c: char) -> bool {
    ('a' <= c <= 'z') || c == '_'
}

/// A key as this library writes it: one or more small letters and
/// underscores.
pub open spec fn is_name(key: Seq<char>) -> bool {
    key.len() > 0 && forall|i: int| 0 <= i < key.len() ==> is_name_char(#[trigger] key[i])
}

/// The key of a field is a name, and it names that field and no other.
pub proof fn lemma_top_key(f: TopField)
    ensures
        is_name(f.key()),
        top_field(f.key()) == Some(f),
{
    reveal_strlit("language");
    reveal_strlit("theme_mode");
    reveal_strlit("theme_blur");
    reveal_strlit("traffic_graph");
    reveal_strlit("enable_tun_mode");
    reveal_strlit("enable_auto_launch");
    reveal_strlit("enable_silent_start");
    reveal_strlit("enable_system_proxy");
    reveal_strlit("enable_proxy_guard");
    reveal_strlit("system_proxy_bypass");
    reveal_strlit("proxy_guard_duration");
    reveal_strlit("theme_setting");
    assert("language"@.len() == 8);
    assert("theme_mode"@.len() == 10);
    assert("theme_blur"@.len() == 10);
    assert("traffic_graph"@.len() == 13);
    assert("enable_tun_mode"@.len() == 15);
    assert("enable_auto_launch"@.len() == 18);
    assert("enable_silent_start"@.len() == 19);
    assert("enable_system_proxy"@.len() == 19);
    assert("enable_proxy_guard"@.len() == 18);
    assert("system_proxy_bypass"@.len() == 19);
    assert("proxy_guard_duration"@.len() == 20);
    assert("theme_setting"@.len() == 13);
    assert("theme_mode"@[6] != "theme_blur"@[6]);
    assert("traffic_graph"@[1] != "theme_setting"@[1]);
    assert("enable_auto_launch"@[7] != "enable_proxy_guard"@[7]);
    assert("enable_silent_start"@[8] != "enable_system_proxy"@[8]);
    assert("enable_silent_start"@[0] != "system_proxy_bypass"@[0]);
    assert("enable_system_proxy"@[0] != "system_proxy_bypass"@[0]);
}

/// The key of a theme attribute is a name, and it names that attribute and
/// no other.
pub proof fn lemma_theme_key(f: ThemeField)
    ensures
        is_name(f.key()),
        theme_field(f.key()) == Some(f),
{
    reveal_strlit("primary_color");
    reveal_strlit("secondary_color");
    reveal_strlit("primary_text");
    reveal_strlit("secondary_text");
    reveal_strlit("info_color");
    reveal_strlit("error_color");
    reveal_strlit("warning_color");
    reveal_strlit("success_color");
    reveal_strlit("font_family");
    reveal_strlit("css_injection");
    assert("primary_color"@.len() == 13);
    assert("secondary_color"@.len() == 15);
    assert("primary_text"@.len() == 12);
    assert("secondary_text"@.len() == 14);
    assert("info_color"@.len() == 10);
    assert("error_color"@.len() == 11);
    assert("warning_color"@.len() == 13);
    assert("success_color"@.len() == 13);
    assert("font_family"@.len() == 11);
    assert("css_injection"@.len() == 13);
    assert("primary_color"@[0] != "warning_color"@[0]);
    assert("primary_color"@[0] != "success_color"@[0]);
    assert("primary_color"@[0] != "css_injection"@[0]);
    assert("warning_color"@[0] != "success_color"@[0]);
    assert("warning_color"@[0] != "css_injection"@[0]);
    assert("success_color"@[0] != "css_injection"@[0]);
    assert("error_color"@[0] != "font_family"@[0]);
}

// ----- one line -----
/// A name followed by the colon that ends a key is measured as the name.
pub proof fn lemma_key_len_of_name(key: Seq<char>, rest: Seq<char>)
    requires
        forall|i: int| 0 <= i < key.len() ==> key[i] != ':',
        at_separator(rest),
    ensures
        key_len(key + rest) == key.len(),
    decreases key.len(),
{
    let s = key + rest;
    if key.len() == 0 {
        assert(s =~= rest);
    } else {
        assert(s[0] == key[0]);
        let shorter = key.drop_first();
        assert(s.drop_first() =~= shorter + rest);
        assert forall|i: int| 0 <= i < shorter.len() implies shorter[i] != ':' by {
            assert(shorter[i] == key[i + 1]);
        }
        lemma_key_len_of_name(shorter, rest);
    }
}

/// A text without blanks at its ends is its own trimming.
pub proof fn lemma_trim_tight(s: Seq<char>)
    requires
        s.len() > 0,
        !is_blank(s[0]),
        !is_blank(s.last()),
    ensures
        trim(s) == s,
{
}

/// The line that this library writes for a key and a value gives both back:
/// it is one line, it stands at the margin it was written at, it is no
/// comment and no marker, and it parts into that key and that value.
pub proof fn lemma_entry_line(nested: bool, key: Seq<char>, w: Seq<char>)
    requires
        is_name(key),
        tight(w),
    ensures
        ({
            let body = key + seq![':', ' '] + w;
            let line = margin(nested) + body;
            &&& single_line(line)
            &&& line.len() > 0
            &&& is_blank(line[0]) == nested
            &&& trim(line) == body
            &&& body[0] != '#'
            &&& !is_marker(body)
            &&& split_entry(body) == Some((key, w))
        }),
{
    let body = key + seq![':', ' '] + w;
    let line = margin(nested) + body;
    assert(is_name_char(key[0]));
    assert(is_name_char(key.last()));
    assert(body[0] == key[0]);
    assert(body.last() == w.last());
    assert forall|i: int| 0 <= i < body.len() implies body[i] != '\n' by {
        if i < key.len() {
            assert(is_name_char(key[i]));
        } else if i >= key.len() + 2 {
            assert(body[i] == w[i - key.len() - 2]);
        }
    }
    assert forall|i: int| 0 <= i < line.len() implies line[i] != '\n' by {
        if i >= margin(nested).len() {
            assert(line[i] == body[i - margin(nested).len()]);
        }
    }
    lemma_trim_tight(body);
    if nested {
        let once = line.drop_first();
        assert(once.drop_first() =~= body);
        assert(trim_start(once) == trim_start(once.drop_first()));
        assert(trim_start(line) == body);
    } else {
        assert(line =~= body);
    }
    assert(seq!['-', '-', '-'][0] == '-');
    let rest = seq![':', ' '] + w;
    assert(rest[0] == ':' && rest[1] == ' ');
    assert(body =~= key + rest);
    assert forall|i: int| 0 <= i < key.len() implies key[i] != ':' by {
        assert(is_name_char(key[i]));
    }
    lemma_key_len_of_name(key, rest);
    let n = key.len() as int;
    assert(body.take(n) =~= key);
    lemma_trim_tight(key);
    let behind = body.skip(n + 1);
    assert(behind[0] == ' ');
    assert(behind.drop_first() =~= w);
    assert(trim_start(behind) == trim_start(w));
    lemma_trim_tight(w);
}

/// The line that opens a block gives its key back, with nothing behind it.
pub proof fn lemma_head_line(key: Seq<char>)
    requires
        is_name(key),
    ensures
        ({
            let line = key + seq![':'];
            &&& single_line(line)
            &&& !is_blank(line[0])
            &&& trim(line) == line
            &&& line[0] != '#'
            &&& !is_marker(line)
            &&& split_entry(line) == Some((key, Seq::<char>::empty()))
        }),
{
    let line = key + seq![':'];
    assert(is_name_char(key[0]));
    assert(is_name_char(key.last()));
    assert(line[0] == key[0]);
    assert(line.last() == ':');
    assert forall|i: int| 0 <= i < line.len() implies line[i] != '\n' by {
        if i < key.len() {
            assert(is_name_char(key[i]));
        }
    }
    lemma_trim_tight(line);
    assert(seq!['-', '-', '-'][0] == '-');
    assert forall|i: int| 0 <= i < key.len() implies key[i] != ':' by {
        assert(is_name_char(key[i]));
    }
    lemma_key_len_of_name(key, seq![':']);
    let n = key.len() as int;
    assert(line.take(n) =~= key);
    lemma_trim_tight(key);
    assert(line.skip(n + 1) =~= Seq::<char>::empty());
}

// ----- line after line -----
/// A text that is empty or ends with a line feed: whatever follows it begins
/// a new line.
pub open spec fn complete(text: Seq<char>) -> bool {
    text.len() == 0 || text.last() == '\n'
}

/// Reading two texts in a row, of which the first ends where a line ends, is
/// reading the first and then the second.
pub proof fn lemma_read_lines_concat(a: Seq<char>, b: Seq<char>, at: Cursor)
    requires
        complete(a),
    ensures
        read_lines(a + b, at) == match read_lines(a, at) {
            Some(mid) => read_lines(b, mid),
            None => None,
        },
    decreases a.len(),
{
    if a.len() == 0 {
        assert(a + b =~= b);
    } else {
        let n = line_len(a) as int;
        lemma_line_len_bound(a);
        if n == a.len() {
            assert(a.take(n)[n - 1] == a[n - 1]);
        }
        let first = a.take(n);
        let rest = a.skip(n + 1);
        assert(a + b =~= first + seq!['\n'] + (rest + b));
        lemma_line_len_of_line(first, rest + b);
        assert((a + b).take(n) =~= first);
        assert(after_line(a + b) =~= rest + b);
        assert(after_line(a) == rest);
        if rest.len() > 0 {
            assert(rest.last() == a.last());
        }
        match step(at, first) {
            Some(next) => lemma_read_lines_concat(rest, b, next),
            None => {},
        }
    }
}

/// Reading one line with its line feed is making the step of that line.
pub proof fn lemma_read_one_line(line: Seq<char>, at: Cursor)
    requires
        single_line(line),
    ensures
        complete(line + seq!['\n']),
        read_lines(line + seq!['\n'], at) == step(at, line),
{
    let text = line + seq!['\n'];
    assert(text =~= line + seq!['\n'] + Seq::<char>::empty());
    lemma_line_len_of_line(line, Seq::<char>::empty());
    let n = line.len() as int;
    assert(text.take(n) =~= line);
    assert(after_line(text) =~= Seq::<char>::empty());
    match step(at, line) {
        Some(next) => {
            assert(read_lines(Seq::<char>::empty(), next) == Some(next));
        },
        None => {},
    }
}

// ----- one field -----
/// A text field that is set is written as something that reads back as it.
proof fn lemma_written_text(v: Option<Seq<char>>)
    ensures
        written_text(v) matches Some(w) ==> tight(w) && decode_string(w) == Some(v),
{
    if let Some(s) = v {
        lemma_decode_quote(s);
    }
}

/// A flag that is set is written as something that reads back as it.
proof fn lemma_written_flag(v: Option<bool>)
    ensures
        written_flag(v) matches Some(w) ==> tight(w) && decode_bool(w) == Some(v),
{
    if let Some(b) = v {
        lemma_decode_bool_text(b);
    }
}

/// A count that is set is written as something that reads back as it.
proof fn lemma_written_count(v: Option<u64>)
    ensures
        written_count(v) matches Some(w) ==> tight(w) && decode_u64(w) == Some(v),
{
    if let Some(n) = v {
        lemma_decode_decimal(n);
    }
}

/// Reading what was written for a field at the left margin puts the written
/// value into that field; where nothing was written, nothing is read.
proof fn lemma_read_top_entry(f: TopField, w: Option<Seq<char>>, at: Cursor)
    requires
        w matches Some(v) ==> tight(v),
    ensures
        complete(top_entry(f, w)),
        read_lines(top_entry(f, w), at) == match w {
            Some(v) => put_field(at.doc, f, v),
            None => Some(at),
        },
{
    lemma_top_key(f);
    if let Some(v) = w {
        lemma_entry_line(false, f.key(), v);
        let body = f.key() + seq![':', ' '] + v;
        assert(margin(false) + body =~= body);
        assert(top_entry(f, w) =~= body + seq!['\n']);
        lemma_read_one_line(body, at);
    }
}

/// Reading what was written for an attribute of the theme block puts the
/// written text into that attribute; where nothing was written, nothing is
/// read.
proof fn lemma_read_theme_entry(f: ThemeField, v: Option<Seq<char>>, at: Cursor)
    requires
        at.section is Theme,
    ensures
        complete(theme_entry(f, v)),
        read_lines(theme_entry(f, v), at) == match v {
            Some(s) => Some(
                Cursor {
                    doc: ConfigModel {
                        theme_setting: Some(theme_with(theme_so_far(at.doc), f, v)),
                        ..at.doc
                    },
                    section: Section::Theme,
                },
            ),
            None => Some(at),
        },
{
    lemma_theme_key(f);
    lemma_written_text(v);
    if let Some(s) = v {
        let w = quote(s);
        lemma_entry_line(true, f.key(), w);
        let body = f.key() + seq![':', ' '] + w;
        let line = margin(true) + body;
        assert(theme_entry(f, v) =~= line + seq!['\n']);
        lemma_read_one_line(line, at);
    }
}

// ----- field after field -----
/// The reader before the first line.
pub open spec fn start() -> Cursor {
    Cursor { doc: ConfigModel::unset(), section: Section::Top }
}

/// The document that holds the first `k` fields of `d`, in the order in
/// which they are written, and nothing else.
spec fn first_fields(d: ConfigModel, k: nat) -> ConfigModel {
    ConfigModel {
        language: if k >= 1 { d.language } else { None },
        theme_mode: if k >= 2 { d.theme_mode } else { None },
        theme_blur: if k >= 3 { d.theme_blur } else { None },
        traffic_graph: if k >= 4 { d.traffic_graph } else { None },
        enable_tun_mode: if k >= 5 { d.enable_tun_mode } else { None },
        enable_auto_launch: if k >= 6 { d.enable_auto_launch } else { None },
        enable_silent_start: if k >= 7 { d.enable_silent_start } else { None },
        enable_system_proxy: if k >= 8 { d.enable_system_proxy } else { None },
        enable_proxy_guard: if k >= 9 { d.enable_proxy_guard } else { None },
        system_proxy_bypass: if k >= 10 { d.system_proxy_bypass } else { None },
        proxy_guard_duration: if k >= 11 { d.proxy_guard_duration } else { None },
        theme_setting: if k >= 12 { d.theme_setting } else { None },
    }
}

/// The theme block that holds the first `k` attributes of `t`, in the order
/// in which they are written, and nothing else.
spec fn first_attrs(t: ThemeModel, k: nat) -> ThemeModel {
    ThemeModel {
        primary_color: if k >= 1 { t.primary_color } else { None },
        secondary_color: if k >= 2 { t.secondary_color } else { None },
        primary_text: if k >= 3 { t.primary_text } else { None },
        secondary_text: if k >= 4 { t.secondary_text } else { None },
        info_color: if k >= 5 { t.info_color } else { None },
        error_color: if k >= 6 { t.error_color } else { None },
        warning_color: if k >= 7 { t.warning_color } else { None },
        success_color: if k >= 8 { t.success_color } else { None },
        font_family: if k >= 9 { t.font_family } else { None },
        css_injection: if k >= 10 { t.css_injection } else { None },
    }
}

/// The theme field of a document whose theme lines have given `t` so far:
/// unset until the first attribute has been read.
spec fn shown(t: ThemeModel) -> Option<ThemeModel> {
    if t == ThemeModel::unset() {
        None
    } else {
        Some(t)
    }
}

/// One more field behind what has been read at the left margin.
proof fn lemma_field_step(
    prefix: Seq<char>,
    f: TopField,
    w: Option<Seq<char>>,
    before: ConfigModel,
    after: ConfigModel,
)
    requires
        complete(prefix),
        read_lines(prefix, start()) == at_top(before),
        w matches Some(v) ==> tight(v) && put_field(before, f, v) == at_top(after),
        w is None ==> after == before,
    ensures
        complete(prefix + top_entry(f, w)),
        read_lines(prefix + top_entry(f, w), start()) == at_top(after),
{
    let piece = top_entry(f, w);
    lemma_read_top_entry(f, w, at_top(before)->0);
    lemma_read_lines_concat(prefix, piece, start());
    if piece.len() == 0 {
        assert(prefix + piece =~= prefix);
    }
}

/// One more attribute behind what has been read of a theme block.
proof fn lemma_attr_step(
    prefix: Seq<char>,
    f: ThemeField,
    v: Option<Seq<char>>,
    at: Cursor,
    doc: ConfigModel,
    before: ThemeModel,
    after: ThemeModel,
)
    requires
        complete(prefix),
        read_lines(prefix, at) == Some(
            Cursor {
                doc: ConfigModel { theme_setting: shown(before), ..doc },
                section: Section::Theme,
            },
        ),
        v is Some ==> after == theme_with(before, f, v),
        v is None ==> after == before,
    ensures
        complete(prefix + theme_entry(f, v)),
        read_lines(prefix + theme_entry(f, v), at) == Some(
            Cursor {
                doc: ConfigModel { theme_setting: shown(after), ..doc },
                section: Section::Theme,
            },
        ),
{
    let piece = theme_entry(f, v);
    let mid = Cursor {
        doc: ConfigModel { theme_setting: shown(before), ..doc },
        section: Section::Theme,
    };
    lemma_read_theme_entry(f, v, mid);
    lemma_read_lines_concat(prefix, piece, at);
    if piece.len() == 0 {
        assert(prefix + piece =~= prefix);
    }
}

/// Reading the fields of a document as they were written gives those fields.
proof fn lemma_read_fields(d: ConfigModel)
    ensures
        complete(render_fields(d)),
        read_lines(render_fields(d), start()) == at_top(first_fields(d, 11)),
{
    let w1 = written_text(d.language);
    let w2 = written_text(d.theme_mode);
    let w3 = written_flag(d.theme_blur);
    let w4 = written_flag(d.traffic_graph);
    let w5 = written_flag(d.enable_tun_mode);
    let w6 = written_flag(d.enable_auto_launch);
    let w7 = written_flag(d.enable_silent_start);
    let w8 = written_flag(d.enable_system_proxy);
    let w9 = written_flag(d.enable_proxy_guard);
    let w10 = written_text(d.system_proxy_bypass);
    let w11 = written_count(d.proxy_guard_duration);
    lemma_written_text(d.language);
    lemma_written_text(d.theme_mode);
    lemma_written_flag(d.theme_blur);
    lemma_written_flag(d.traffic_graph);
    lemma_written_flag(d.enable_tun_mode);
    lemma_written_flag(d.enable_auto_launch);
    lemma_written_flag(d.enable_silent_start);
    lemma_written_flag(d.enable_system_proxy);
    lemma_written_flag(d.enable_proxy_guard);
    lemma_written_text(d.system_proxy_bypass);
    lemma_written_count(d.proxy_guard_duration);
    let seen0 = Seq::<char>::empty();
    assert(first_fields(d, 0) == ConfigModel::unset());
    let seen1 = top_entry(TopField::Language, w1);
    assert(seen0 + seen1 =~= seen1);
    lemma_field_step(seen0, TopField::Language, w1, first_fields(d, 0), first_fields(d, 1));
    let seen2 = seen1 + top_entry(TopField::ThemeMode, w2);
    lemma_field_step(seen1, TopField::ThemeMode, w2, first_fields(d, 1), first_fields(d, 2));
    let seen3 = seen2 + top_entry(TopField::ThemeBlur, w3);
    lemma_field_step(seen2, TopField::ThemeBlur, w3, first_fields(d, 2), first_fields(d, 3));
    let seen4 = seen3 + top_entry(TopField::TrafficGraph, w4);
    lemma_field_step(seen3, TopField::TrafficGraph, w4, first_fields(d, 3), first_fields(d, 4));
    let seen5 = seen4 + top_entry(TopField::EnableTunMode, w5);
    lemma_field_step(seen4, TopField::EnableTunMode, w5, first_fields(d, 4), first_fields(d, 5));
    let seen6 = seen5 + top_entry(TopField::EnableAutoLaunch, w6);
    lemma_field_step(seen5, TopField::EnableAutoLaunch, w6, first_fields(d, 5), first_fields(d, 6));
    let seen7 = seen6 + top_entry(TopField::EnableSilentStart, w7);
    lemma_field_step(seen6, TopField::EnableSilentStart, w7, first_fields(d, 6), first_fields(d, 7));
    let seen8 = seen7 + top_entry(TopField::EnableSystemProxy, w8);
    lemma_field_step(seen7, TopField::EnableSystemProxy, w8, first_fields(d, 7), first_fields(d, 8));
    let seen9 = seen8 + top_entry(TopField::EnableProxyGuard, w9);
    lemma_field_step(seen8, TopField::EnableProxyGuard, w9, first_fields(d, 8), first_fields(d, 9));
    let seen10 = seen9 + top_entry(TopField::SystemProxyBypass, w10);
    lemma_field_step(seen9, TopField::SystemProxyBypass, w10, first_fields(d, 9), first_fields(d, 10));
    let seen11 = seen10 + top_entry(TopField::ProxyGuardDuration, w11);
    lemma_field_step(
        seen10,
        TopField::ProxyGuardDuration,
        w11,
        first_fields(d, 10),
        first_fields(d, 11),
    );
    assert(seen11 == render_fields(d));
}

/// Reading a theme block with attributes as it was written gives that block.
proof fn lemma_read_theme_block(t: ThemeModel, doc: ConfigModel)
    requires
        t != ThemeModel::unset(),
        doc.theme_setting is None,
    ensures
        complete(render_theme_block(t)),
        read_lines(render_theme_block(t), Cursor { doc, section: Section::Top }) == Some(
            Cursor { doc: ConfigModel { theme_setting: Some(t), ..doc }, section: Section::Theme },
        ),
{
    let at = Cursor { doc, section: Section::Top };
    let key = TopField::ThemeSetting.key();
    lemma_top_key(TopField::ThemeSetting);
    lemma_head_line(key);
    let line = key + seq![':'];
    let block0 = theme_head();
    assert(block0 =~= line + seq!['\n']);
    lemma_read_one_line(line, at);
    assert(first_attrs(t, 0) == ThemeModel::unset());
    assert(ConfigModel { theme_setting: None, ..doc } == doc);
    let block1 = block0 + theme_entry(ThemeField::PrimaryColor, t.primary_color);
    lemma_attr_step(
        block0,
        ThemeField::PrimaryColor,
        t.primary_color,
        at,
        doc,
        first_attrs(t, 0),
        first_attrs(t, 1),
    );
    let block2 = block1 + theme_entry(ThemeField::SecondaryColor, t.secondary_color);
    lemma_attr_step(
        block1,
        ThemeField::SecondaryColor,
        t.secondary_color,
        at,
        doc,
        first_attrs(t, 1),
        first_attrs(t, 2),
    );
    let block3 = block2 + theme_entry(ThemeField::PrimaryText, t.primary_text);
    lemma_attr_step(
        block2,
        ThemeField::PrimaryText,
        t.primary_text,
        at,
        doc,
        first_attrs(t, 2),
        first_attrs(t, 3),
    );
    let block4 = block3 + theme_entry(ThemeField::SecondaryText, t.secondary_text);
    lemma_attr_step(
        block3,
        ThemeField::SecondaryText,
        t.secondary_text,
        at,
        doc,
        first_attrs(t, 3),
        first_attrs(t, 4),
    );
    let block5 = block4 + theme_entry(ThemeField::InfoColor, t.info_color);
    lemma_attr_step(
        block4,
        ThemeField::InfoColor,
        t.info_color,
        at,
        doc,
        first_attrs(t, 4),
        first_attrs(t, 5),
    );
    let block6 = block5 + theme_entry(ThemeField::ErrorColor, t.error_color);
    lemma_attr_step(
        block5,
        ThemeField::ErrorColor,
        t.error_color,
        at,
        doc,
        first_attrs(t, 5),
        first_attrs(t, 6),
    );
    let block7 = block6 + theme_entry(ThemeField::WarningColor, t.warning_color);
    lemma_attr_step(
        block6,
        ThemeField::WarningColor,
        t.warning_color,
        at,
        doc,
        first_attrs(t, 6),
        first_attrs(t, 7),
    );
    let block8 = block7 + theme_entry(ThemeField::SuccessColor, t.success_color);
    lemma_attr_step(
        block7,
        ThemeField::SuccessColor,
        t.success_color,
        at,
        doc,
        first_attrs(t, 7),
        first_attrs(t, 8),
    );
    let block9 = block8 + theme_entry(ThemeField::FontFamily, t.font_family);
    lemma_attr_step(
        block8,
        ThemeField::FontFamily,
        t.font_family,
        at,
        doc,
        first_attrs(t, 8),
        first_attrs(t, 9),
    );
    let block10 = block9 + theme_entry(ThemeField::CssInjection, t.css_injection);
    lemma_attr_step(
        block9,
        ThemeField::CssInjection,
        t.css_injection,
        at,
        doc,
        first_attrs(t, 9),
        first_attrs(t, 10),
    );
    assert(block10 == render_theme_block(t));
    assert(first_attrs(t, 10) == t);
}

/// Reading the theme block as it was written, behind a document that has
/// none yet, gives that document with the block.
proof fn lemma_read_theme(theme: Option<ThemeModel>, doc: ConfigModel)
    requires
        doc.theme_setting is None,
    ensures
        complete(render_theme(theme)),
        read_lines(render_theme(theme), Cursor { doc, section: Section::Top }) matches Some(end)
            && end.doc == (ConfigModel { theme_setting: theme, ..doc }),
{
    let at = Cursor { doc, section: Section::Top };
    match theme {
        None => {
            assert(ConfigModel { theme_setting: None, ..doc } == doc);
        },
        Some(t) => {
            if t == ThemeModel::unset() {
                let w = empty_block();
                assert(w[0] == '{' && w.last() == '}');
                assert(seq!['~'][0] == '~');
                assert(seq!['n', 'u', 'l', 'l'][0] == 'n');
                lemma_read_top_entry(TopField::ThemeSetting, Some(w), at);
            } else {
                lemma_read_theme_block(t, doc);
            }
        },
    }
}

// ----- the whole document -----
/// A document that is written and read again comes back as it was: every
/// field that was set is set to the same value, and every field that was
/// unset is unset.
pub proof fn lemma_parse_rendered(d: ConfigModel)
    ensures
        parse_text(render_text(d)) == Some(d),
{
    lemma_read_rendered(d);
}

/// Reading the text of a document from the start ends with that document.
proof fn lemma_read_rendered(d: ConfigModel)
    ensures
        complete(render_text(d)),
        read_lines(render_text(d), start()) matches Some(end) && end.doc == d,
{
    lemma_read_fields(d);
    let mid = first_fields(d, 11);
    lemma_read_theme(d.theme_setting, mid);
    lemma_read_lines_concat(render_fields(d), render_theme(d.theme_setting), start());
    assert(ConfigModel { theme_setting: d.theme_setting, ..mid } == d);
    if render_theme(d.theme_setting).len() == 0 {
        assert(render_text(d) =~= render_fields(d));
    }
}

/// The header comment says nothing: reading it leaves the reader where it
/// was.
proof fn lemma_read_header(at: Cursor)
    ensures
        complete(HEADER@),
        read_lines(HEADER@, at) == Some(at),
{
    reveal_strlit("# The Config for Clash Verge App\n\n");
    let h = HEADER@;
    assert(h.len() == 34);
    let first = h.take(32);
    assert(first[0] == '#');
    assert(first.last() == 'p');
    assert forall|i: int| 0 <= i < first.len() implies first[i] != '\n' by {
        assert(first[i] == h[i]);
    }
    lemma_trim_tight(first);
    lemma_read_one_line(first, at);
    let blank_line = Seq::<char>::empty();
    lemma_read_one_line(blank_line, at);
    assert(blank_line + seq!['\n'] =~= seq!['\n']);
    assert(h =~= (first + seq!['\n']) + seq!['\n']);
    lemma_read_lines_concat(first + seq!['\n'], seq!['\n'], at);
}

/// A settings file that is saved and loaded again gives the settings that
/// were saved, whichever of their fields are set: nothing is lost, and
/// nothing that was unset comes back with a value.
pub proof fn lemma_load_saved(d: ConfigModel)
    ensures
        load(Some(file_text(d))) == d,
{
    lemma_read_header(start());
    lemma_read_rendered(d);
    lemma_read_lines_concat(HEADER@, render_text(d), start());
}

} // verus!
