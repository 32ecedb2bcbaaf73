use verge_config::{Verge, VergeConfig, VergeTheme};

fn text(s: &str) -> Option<String> {
    Some(s.to_string())
}

fn full_theme(tag: &str) -> VergeTheme {
    VergeTheme {
        primary_color: text(&format!("#{}01", tag)),
        secondary_color: text(&format!("#{}02", tag)),
        primary_text: text(&format!("#{}03", tag)),
        secondary_text: text(&format!("#{}04", tag)),
        info_color: text(&format!("#{}05", tag)),
        error_color: text(&format!("#{}06", tag)),
        warning_color: text(&format!("#{}07", tag)),
        success_color: text(&format!("#{}08", tag)),
        font_family: text(&format!("Font {}", tag)),
        css_injection: text(&format!("body {{ margin: {}px; }}", tag)),
    }
}

fn full_config(tag: &str, flag: bool, count: u64) -> VergeConfig {
    VergeConfig {
        language: text(&format!("lang-{}", tag)),
        theme_mode: text(&format!("mode-{}", tag)),
        theme_blur: Some(flag),
        traffic_graph: Some(!flag),
        enable_tun_mode: Some(flag),
        enable_auto_launch: Some(!flag),
        enable_silent_start: Some(flag),
        enable_system_proxy: Some(!flag),
        enable_proxy_guard: Some(flag),
        system_proxy_bypass: text(&format!("bypass-{}", tag)),
        proxy_guard_duration: Some(count),
        theme_setting: Some(full_theme(tag)),
    }
}

#[test]
fn patch_replaces_present_field_and_keeps_the_rest() {
    let mut config = VergeConfig::default();
    config.theme_mode = text("dark");
    config.traffic_graph = Some(true);
    let mut verge = Verge { config };

    let mut patch = VergeConfig::default();
    patch.theme_mode = text("light");
    verge.patch_config(patch);

    let mut expected = VergeConfig::default();
    expected.theme_mode = text("light");
    expected.traffic_graph = Some(true);
    assert_eq!(verge.config, expected);
}

#[test]
fn patch_replaces_theme_block_whole() {
    let mut old_theme = VergeTheme::default();
    old_theme.primary_color = text("#fff");
    let mut config = VergeConfig::default();
    config.theme_setting = Some(old_theme);
    let mut verge = Verge { config };

    let mut new_theme = VergeTheme::default();
    new_theme.secondary_color = text("#000");
    let mut patch = VergeConfig::default();
    patch.theme_setting = Some(new_theme.clone());
    verge.patch_config(patch);

    let mut expected = VergeConfig::default();
    expected.theme_setting = Some(new_theme);
    assert_eq!(verge.config, expected);
    assert_eq!(verge.config.theme_setting.unwrap().primary_color, None);
}

#[test]
fn default_documents_have_every_field_unset() {
    let config = VergeConfig::default();
    assert_eq!(config.language, None);
    assert_eq!(config.theme_mode, None);
    assert_eq!(config.theme_blur, None);
    assert_eq!(config.traffic_graph, None);
    assert_eq!(config.enable_tun_mode, None);
    assert_eq!(config.enable_auto_launch, None);
    assert_eq!(config.enable_silent_start, None);
    assert_eq!(config.enable_system_proxy, None);
    assert_eq!(config.enable_proxy_guard, None);
    assert_eq!(config.system_proxy_bypass, None);
    assert_eq!(config.proxy_guard_duration, None);
    assert_eq!(config.theme_setting, None);
    let theme = VergeTheme::default();
    assert_eq!(theme.primary_color, None);
    assert_eq!(theme.secondary_color, None);
    assert_eq!(theme.primary_text, None);
    assert_eq!(theme.secondary_text, None);
    assert_eq!(theme.info_color, None);
    assert_eq!(theme.error_color, None);
    assert_eq!(theme.warning_color, None);
    assert_eq!(theme.success_color, None);
    assert_eq!(theme.font_family, None);
    assert_eq!(theme.css_injection, None);
}

#[test]
fn full_patch_replaces_every_field() {
    let mut verge = Verge { config: full_config("a", true, 10) };
    verge.patch_config(full_config("b", false, 20));
    assert_eq!(verge.config, full_config("b", false, 20));
}

#[test]
fn unset_patch_changes_nothing() {
    let mut verge = Verge { config: full_config("a", true, 10) };
    verge.patch_config(VergeConfig::default());
    assert_eq!(verge.config, full_config("a", true, 10));
}

#[test]
fn each_field_is_merged_on_its_own() {
    let base = full_config("a", true, 10);
    let other = full_config("b", false, 20);

    let mut verge = Verge { config: base.clone() };
    let mut patch = VergeConfig::default();
    patch.language = other.language.clone();
    verge.patch_config(patch);
    let mut expected = base.clone();
    expected.language = text("lang-b");
    assert_eq!(verge.config, expected);

    let mut verge = Verge { config: base.clone() };
    let mut patch = VergeConfig::default();
    patch.theme_blur = Some(false);
    patch.enable_tun_mode = Some(false);
    verge.patch_config(patch);
    let mut expected = base.clone();
    expected.theme_blur = Some(false);
    expected.enable_tun_mode = Some(false);
    assert_eq!(verge.config, expected);

    let mut verge = Verge { config: base.clone() };
    let mut patch = VergeConfig::default();
    patch.traffic_graph = Some(true);
    patch.enable_auto_launch = Some(true);
    patch.enable_silent_start = Some(false);
    patch.enable_system_proxy = Some(true);
    patch.enable_proxy_guard = Some(false);
    verge.patch_config(patch);
    let mut expected = base.clone();
    expected.traffic_graph = Some(true);
    expected.enable_auto_launch = Some(true);
    expected.enable_silent_start = Some(false);
    expected.enable_system_proxy = Some(true);
    expected.enable_proxy_guard = Some(false);
    assert_eq!(verge.config, expected);

    let mut verge = Verge { config: base.clone() };
    let mut patch = VergeConfig::default();
    patch.theme_mode = text("light");
    patch.system_proxy_bypass = text("localhost");
    patch.proxy_guard_duration = Some(0);
    verge.patch_config(patch);
    let mut expected = base.clone();
    expected.theme_mode = text("light");
    expected.system_proxy_bypass = text("localhost");
    expected.proxy_guard_duration = Some(0);
    assert_eq!(verge.config, expected);
}

#[test]
fn patch_fills_unset_fields() {
    let mut verge = Verge { config: VergeConfig::default() };
    let mut patch = VergeConfig::default();
    patch.enable_system_proxy = Some(true);
    patch.proxy_guard_duration = Some(30);
    verge.patch_config(patch.clone());
    assert_eq!(verge.config, patch);
}

#[test]
fn present_but_empty_values_are_values() {
    let mut verge = Verge { config: full_config("a", true, 10) };
    let mut patch = VergeConfig::default();
    patch.language = text("");
    patch.theme_blur = Some(false);
    patch.proxy_guard_duration = Some(0);
    patch.theme_setting = Some(VergeTheme::default());
    verge.patch_config(patch);
    assert_eq!(verge.config.language, text(""));
    assert_eq!(verge.config.theme_blur, Some(false));
    assert_eq!(verge.config.proxy_guard_duration, Some(0));
    assert_eq!(verge.config.theme_setting, Some(VergeTheme::default()));
    assert_eq!(verge.config.theme_mode, text("mode-a"));
}

#[test]
fn same_patch_twice_is_same_patch_once() {
    let mut patch = VergeConfig::default();
    patch.theme_mode = text("light");
    patch.enable_proxy_guard = Some(false);
    let mut theme = VergeTheme::default();
    theme.font_family = text("Inter");
    patch.theme_setting = Some(theme);

    let mut once = Verge { config: full_config("a", true, 10) };
    let first = once.patch_config(patch.clone());
    let mut twice = Verge { config: full_config("a", true, 10) };
    twice.patch_config(patch.clone());
    let second = twice.patch_config(patch);
    assert_eq!(once.config, twice.config);
    assert_eq!(first, second);
}

#[test]
fn later_patch_wins() {
    let mut first = VergeConfig::default();
    first.language = text("en");
    first.theme_mode = text("dark");
    let mut second = VergeConfig::default();
    second.language = text("zh");
    second.traffic_graph = Some(false);

    let mut verge = Verge { config: VergeConfig::default() };
    verge.patch_config(first);
    verge.patch_config(second);
    assert_eq!(verge.config.language, text("zh"));
    assert_eq!(verge.config.theme_mode, text("dark"));
    assert_eq!(verge.config.traffic_graph, Some(false));
}

#[test]
fn patch_gives_the_text_to_save() {
    let mut verge = Verge { config: VergeConfig::default() };
    let mut patch = VergeConfig::default();
    patch.theme_mode = text("light");
    patch.traffic_graph = Some(true);
    let saved = verge.patch_config(patch);
    assert_eq!(
        saved,
        "# The Config for Clash Verge App\n\ntheme_mode: \"light\"\ntraffic_graph: true\n"
    );
    assert_eq!(saved, verge.config.save_file());
}

#[test]
fn current_config_is_a_copy() {
    let mut verge = Verge { config: full_config("a", true, 10) };
    let seen = verge.current_config();
    assert_eq!(seen, full_config("a", true, 10));
    let mut patch = VergeConfig::default();
    patch.language = text("fr");
    verge.patch_config(patch);
    assert_eq!(seen.language, text("lang-a"));
    assert_eq!(verge.current_config().language, text("fr"));
    assert_eq!(verge.config.snapshot(), verge.config);
    assert_eq!(full_theme("x").snapshot(), full_theme("x"));
}

#[test]
fn new_without_a_file_starts_unset() {
    let verge = Verge::new(None);
    assert_eq!(verge.config, VergeConfig::default());
}

#[test]
fn new_takes_the_settings_of_the_file() {
    let verge = Verge::new(Some("language: en\nenable_tun_mode: true\n"));
    let mut expected = VergeConfig::default();
    expected.language = text("en");
    expected.enable_tun_mode = Some(true);
    assert_eq!(verge.config, expected);
}
