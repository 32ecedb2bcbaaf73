use verge_config::format::HEADER;
use verge_config::reader::parse;
use verge_config::writer::render;
use verge_config::{VergeConfig, VergeTheme};

fn some(s: &str) -> Option<String> {
    Some(s.to_string())
}

fn sample() -> VergeConfig {
    VergeConfig {
        language: some("en"),
        theme_mode: some("dark"),
        theme_blur: Some(true),
        traffic_graph: Some(false),
        enable_tun_mode: Some(true),
        enable_auto_launch: Some(false),
        enable_silent_start: Some(true),
        enable_system_proxy: Some(false),
        enable_proxy_guard: Some(true),
        system_proxy_bypass: some("localhost;127.*;192.168.*"),
        proxy_guard_duration: Some(30),
        theme_setting: Some(VergeTheme {
            primary_color: some("#5b5c9d"),
            secondary_color: some("#9c27b0"),
            primary_text: some("#637381"),
            secondary_text: some("#909399"),
            info_color: some("#0288d1"),
            error_color: some("#d32f2f"),
            warning_color: some("#ed6c02"),
            success_color: some("#2e7d32"),
            font_family: some("\"Roboto\", sans-serif"),
            css_injection: some("body {\n\tcolor: red;\n}\n"),
        }),
    }
}

const SAMPLE_TEXT: &str = "# The Config for Clash Verge App\n\
\n\
language: \"en\"\n\
theme_mode: \"dark\"\n\
theme_blur: true\n\
traffic_graph: false\n\
enable_tun_mode: true\n\
enable_auto_launch: false\n\
enable_silent_start: true\n\
enable_system_proxy: false\n\
enable_proxy_guard: true\n\
system_proxy_bypass: \"localhost;127.*;192.168.*\"\n\
proxy_guard_duration: 30\n\
theme_setting:\n\
\x20 primary_color: \"#5b5c9d\"\n\
\x20 secondary_color: \"#9c27b0\"\n\
\x20 primary_text: \"#637381\"\n\
\x20 secondary_text: \"#909399\"\n\
\x20 info_color: \"#0288d1\"\n\
\x20 error_color: \"#d32f2f\"\n\
\x20 warning_color: \"#ed6c02\"\n\
\x20 success_color: \"#2e7d32\"\n\
\x20 font_family: \"\\\"Roboto\\\", sans-serif\"\n\
\x20 css_injection: \"body {\\n\\tcolor: red;\\n}\\n\"\n";

#[test]
fn header_is_the_fixed_comment() {
    assert_eq!(HEADER, "# The Config for Clash Verge App\n\n");
}

#[test]
fn save_writes_every_set_field_in_order() {
    assert_eq!(sample().save_file(), SAMPLE_TEXT);
}

#[test]
fn load_reads_what_save_wrote() {
    assert_eq!(VergeConfig::new(Some(SAMPLE_TEXT)), sample());
}

#[test]
fn save_of_unset_document_is_the_header_alone() {
    assert_eq!(VergeConfig::default().save_file(), HEADER);
    assert_eq!(VergeConfig::new(Some(HEADER)), VergeConfig::default());
}

#[test]
fn unset_fields_are_not_written() {
    let mut config = VergeConfig::default();
    config.traffic_graph = Some(true);
    config.proxy_guard_duration = Some(0);
    let saved = config.save_file();
    assert_eq!(
        saved,
        "# The Config for Clash Verge App\n\ntraffic_graph: true\nproxy_guard_duration: 0\n"
    );
    assert!(!saved.contains("null"));
    assert!(!saved.contains("language"));
    assert!(!saved.contains("theme_setting"));
}

#[test]
fn unset_theme_attributes_are_not_written() {
    let mut theme = VergeTheme::default();
    theme.info_color = some("#123");
    let mut config = VergeConfig::default();
    config.theme_setting = Some(theme);
    assert_eq!(
        config.save_file(),
        "# The Config for Clash Verge App\n\ntheme_setting:\n  info_color: \"#123\"\n"
    );
}

#[test]
fn theme_without_attributes_is_written_as_empty_block() {
    let mut config = VergeConfig::default();
    config.theme_setting = Some(VergeTheme::default());
    let saved = config.save_file();
    assert_eq!(saved, "# The Config for Clash Verge App\n\ntheme_setting: {}\n");
    let loaded = VergeConfig::new(Some(&saved));
    assert_eq!(loaded.theme_setting, Some(VergeTheme::default()));
    assert_eq!(loaded, config);
}

#[test]
fn render_puts_the_given_header_first() {
    let mut config = VergeConfig::default();
    config.language = some("en");
    assert_eq!(render(&config, "# mine\n"), "# mine\nlanguage: \"en\"\n");
    assert_eq!(render(&config, ""), "language: \"en\"\n");
}

#[test]
fn round_trip_of_partial_documents() {
    let full = sample();
    let mut one = VergeConfig::default();
    one.language = full.language.clone();
    let mut two = VergeConfig::default();
    two.theme_setting = full.theme_setting.clone();
    let mut three = full.clone();
    three.theme_setting = None;
    three.theme_blur = None;
    let mut four = full.clone();
    four.theme_setting.as_mut().unwrap().primary_color = None;
    four.theme_setting.as_mut().unwrap().css_injection = None;
    for config in [VergeConfig::default(), one, two, three, four, full] {
        let saved = config.save_file();
        assert_eq!(VergeConfig::new(Some(&saved)), config);
        assert_eq!(parse(&saved), Some(config));
    }
}

#[test]
fn round_trip_of_awkward_text() {
    let awkward = [
        "",
        " ",
        "  leading and trailing  ",
        "null",
        "~",
        "true",
        "42",
        "{}",
        "---",
        "# not a comment",
        "key: value",
        "a\nb",
        "a\r\nb",
        "tab\there",
        "quote \" inside",
        "single ' inside",
        "back\\slash",
        "\\n is not a line feed",
        "ends with backslash\\",
        "\"",
        "\\",
        "\0",
        "中文 字体",
        "emoji 🎨",
        "\u{7f}\u{1}\u{85}\u{2028}",
    ];
    for text in awkward {
        let mut theme = VergeTheme::default();
        theme.css_injection = some(text);
        theme.font_family = some(text);
        let mut config = VergeConfig::default();
        config.language = some(text);
        config.system_proxy_bypass = some(text);
        config.theme_setting = Some(theme);
        let saved = config.save_file();
        assert_eq!(saved.lines().count(), 7, "{:?}", text);
        assert_eq!(VergeConfig::new(Some(&saved)), config, "{:?}", text);
    }
}

#[test]
fn round_trip_of_counts() {
    for n in [0u64, 1, 9, 10, 11, 99, 100, 12345, 4294967295, 4294967296, u64::MAX - 1, u64::MAX] {
        let mut config = VergeConfig::default();
        config.proxy_guard_duration = Some(n);
        let saved = config.save_file();
        assert_eq!(saved, format!("{}proxy_guard_duration: {}\n", HEADER, n));
        assert_eq!(VergeConfig::new(Some(&saved)), config);
    }
}

#[test]
fn escapes_are_written_exactly() {
    let mut config = VergeConfig::default();
    config.language = some("a\"b\\c\nd\re\tf\0g'h");
    assert_eq!(
        config.save_file(),
        "# The Config for Clash Verge App\n\nlanguage: \"a\\\"b\\\\c\\nd\\re\\tf\\0g'h\"\n"
    );
}

#[test]
fn missing_file_gives_unset_document() {
    assert_eq!(VergeConfig::new(None), VergeConfig::default());
}

#[test]
fn empty_file_gives_unset_document() {
    assert_eq!(VergeConfig::new(Some("")), VergeConfig::default());
    assert_eq!(parse(""), Some(VergeConfig::default()));
}

#[test]
fn corrupt_file_gives_unset_document() {
    let corrupt = [
        "language: en\nthis line has no colon\n",
        "language: en\ntheme_blur: maybe\n",
        "language: en\ntheme_blur: True\n",
        "language: en\ntheme_blur: \"true\"\n",
        "language: en\nproxy_guard_duration: -1\n",
        "language: en\nproxy_guard_duration: 1.5\n",
        "language: en\nproxy_guard_duration: ten\n",
        "language: en\nproxy_guard_duration: 18446744073709551616\n",
        "language: en\nproxy_guard_duration: 99999999999999999999999999\n",
        "language: en\nproxy_guard_duration: 1 2\n",
        "language: \"unterminated\n",
        "language: \"bad \\q escape\"\n",
        "language: \"ends with backslash\\\"\n",
        "language: \"quote \" inside\"\n",
        "language: 'unterminated\n",
        "language: 'lone ' quote'\n",
        "language: [a, b]\n",
        "language: {a: b}\n",
        "language: &anchor en\n",
        "language: |\n",
        "language: en\n  nested: below a plain field\n",
        "  language: en\n",
        "theme_setting: dark\n",
        "theme_setting: {}\n  primary_color: red\n",
        "theme_setting: ~\n  primary_color: red\n",
        "theme_setting:\n  primary_color: [1, 2]\n",
        "theme_setting:\n  no colon here\n",
        "language:en\n",
        ": en\nno colon\n",
        "\u{0}\u{1}\u{2}binary",
    ];
    for text in corrupt {
        assert_eq!(parse(text), None, "{:?}", text);
        assert_eq!(VergeConfig::new(Some(text)), VergeConfig::default(), "{:?}", text);
    }
}

#[test]
fn corrupt_line_discards_what_was_read_before() {
    let loaded = VergeConfig::new(Some("language: en\ntraffic_graph: true\ntheme_blur: 7\n"));
    assert_eq!(loaded.language, None);
    assert_eq!(loaded.traffic_graph, None);
    assert_eq!(loaded.theme_blur, None);
}

#[test]
fn unknown_keys_are_ignored() {
    let text = "language: en\n\
future_flag: true\n\
future_list:\n\
\x20 - one\n\
\x20 - two\n\
future_block:\n\
\x20 inner: 1\n\
\x20   deeper: [x\n\
\x20 not even a pair\n\
theme_mode: dark\n\
theme_setting:\n\
\x20 primary_color: red\n\
\x20 future_attr: [1, 2\n\
\x20 secondary_color: blue\n\
\"quoted key\": 1\n\
traffic_graph: false\n";
    let loaded = VergeConfig::new(Some(text));
    let mut theme = VergeTheme::default();
    theme.primary_color = some("red");
    theme.secondary_color = some("blue");
    let mut expected = VergeConfig::default();
    expected.language = some("en");
    expected.theme_mode = some("dark");
    expected.traffic_graph = Some(false);
    expected.theme_setting = Some(theme);
    assert_eq!(loaded, expected);
}

#[test]
fn theme_block_with_only_unknown_attributes_is_set() {
    let loaded = VergeConfig::new(Some("theme_setting:\n  future_attr: 1\n"));
    assert_eq!(loaded.theme_setting, Some(VergeTheme::default()));
}

#[test]
fn theme_key_with_nothing_below_is_unset() {
    assert_eq!(VergeConfig::new(Some("theme_setting:\n")).theme_setting, None);
    assert_eq!(VergeConfig::new(Some("theme_setting:\nlanguage: en\n")).theme_setting, None);
    assert_eq!(VergeConfig::new(Some("theme_setting: null\n")).theme_setting, None);
    assert_eq!(VergeConfig::new(Some("theme_setting: ~\n")).theme_setting, None);
}

#[test]
fn comments_blank_lines_and_marker_say_nothing() {
    let text = "# The Config for Clash Verge App\n\
\n\
---\n\
# a comment\n\
\x20  # a comment further in\n\
language: en\n\
\n\
\x20 \t \n\
theme_setting:\n\
\n\
\x20 # inside the block\n\
\x20 font_family: Inter\n\
traffic_graph: true";
    let loaded = VergeConfig::new(Some(text));
    let mut theme = VergeTheme::default();
    theme.font_family = some("Inter");
    let mut expected = VergeConfig::default();
    expected.language = some("en");
    expected.traffic_graph = Some(true);
    expected.theme_setting = Some(theme);
    assert_eq!(loaded, expected);
}

#[test]
fn null_values_are_unset() {
    let text = "language: ~\n\
theme_mode: null\n\
theme_blur:\n\
traffic_graph: ~\n\
proxy_guard_duration: null\n\
system_proxy_bypass:   \n\
theme_setting:\n\
\x20 primary_color: ~\n\
\x20 secondary_color: null\n\
\x20 font_family:\n";
    let loaded = VergeConfig::new(Some(text));
    let mut expected = VergeConfig::default();
    expected.theme_setting = Some(VergeTheme::default());
    assert_eq!(loaded, expected);
}

#[test]
fn text_may_be_plain_or_quoted_either_way() {
    let text = "language: en-US\n\
theme_mode: 'it''s dark'\n\
system_proxy_bypass:   \"a\\tb\\/c\\ d\"  \n\
theme_setting:\n\
\x20 primary_color: '#fff'\n\
\x20 secondary_color: \"#000\"\n\
\x20 font_family: Segoe UI, sans-serif\n\
\x20 css_injection: ''\n";
    let loaded = VergeConfig::new(Some(text));
    let mut theme = VergeTheme::default();
    theme.primary_color = some("#fff");
    theme.secondary_color = some("#000");
    theme.font_family = some("Segoe UI, sans-serif");
    theme.css_injection = some("");
    let mut expected = VergeConfig::default();
    expected.language = some("en-US");
    expected.theme_mode = some("it's dark");
    expected.system_proxy_bypass = some("a\tb/c d");
    expected.theme_setting = Some(theme);
    assert_eq!(loaded, expected);
}

#[test]
fn carriage_returns_at_line_ends_are_blanks() {
    let text = "language: en\r\ntheme_blur: true\r\ntheme_setting:\r\n  info_color: \"#123\"\r\n";
    let loaded = VergeConfig::new(Some(text));
    let mut theme = VergeTheme::default();
    theme.info_color = some("#123");
    let mut expected = VergeConfig::default();
    expected.language = some("en");
    expected.theme_blur = Some(true);
    expected.theme_setting = Some(theme);
    assert_eq!(loaded, expected);
}

#[test]
fn later_line_for_a_key_wins() {
    let loaded = VergeConfig::new(Some("language: en\nlanguage: zh\ntheme_blur: true\ntheme_blur: ~\n"));
    assert_eq!(loaded.language, some("zh"));
    assert_eq!(loaded.theme_blur, None);
}

#[test]
fn counts_may_have_leading_zeros() {
    let loaded = VergeConfig::new(Some("proxy_guard_duration: 0000000000000000000000030\n"));
    assert_eq!(loaded.proxy_guard_duration, Some(30));
    let loaded = VergeConfig::new(Some("proxy_guard_duration: 18446744073709551615\n"));
    assert_eq!(loaded.proxy_guard_duration, Some(u64::MAX));
}

#[test]
fn colon_inside_a_value_belongs_to_the_value() {
    let loaded = VergeConfig::new(Some("system_proxy_bypass: http://localhost:8080\ntheme_mode :  dark\n"));
    assert_eq!(loaded.system_proxy_bypass, some("http://localhost:8080"));
    assert_eq!(loaded.theme_mode, some("dark"));
}
