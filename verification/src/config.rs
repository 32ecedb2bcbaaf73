//! The settings document as the program holds it.

use crate::format::{file_text, load, HEADER};
use crate::model::{ConfigModel, ThemeModel};
use crate::reader::parse;
use crate::writer::render;
use vstd::prelude::*;

verus! {

/// Overrides for the visual theme. An attribute that is `None` defers to the
/// built-in theme.
#[derive(Debug, Clone, PartialEq, Eq)]
pub struct VergeTheme {
    pub primary_color: Option<String>,
    pub secondary_color: Option<String>,
    pub primary_text: Option<String>,
    pub secondary_text: Option<String>,
    pub info_color: Option<String>,
    pub error_color: Option<String>,
    pub warning_color: Option<String>,
    pub success_color: Option<String>,
    pub font_family: Option<String>,
    /// Styling text that is applied as it stands.
    pub css_injection: Option<String>,
}

/// The user's settings. A field that is `None` is unset: the application's
/// default applies, and nothing is written for it.
#[derive(Debug, Clone, PartialEq, Eq)]
pub struct VergeConfig {
    /// Locale code of the interface.
    pub language: Option<String>,
    /// `light` or `dark`.
    pub theme_mode: Option<String>,
    /// Translucent windows.
    pub theme_blur: Option<bool>,
    /// Show the traffic graph.
    pub traffic_graph: Option<bool>,
    /// Intercept traffic through a virtual network device.
    pub enable_tun_mode: Option<bool>,
    /// Start with the system.
    pub enable_auto_launch: Option<bool>,
    /// Start without showing the window.
    pub enable_silent_start: Option<bool>,
    /// Register as the system proxy.
    pub enable_system_proxy: Option<bool>,
    /// Re-assert the system proxy setting periodically.
    pub enable_proxy_guard: Option<bool>,
    /// Hosts that bypass the system proxy.
    pub system_proxy_bypass: Option<String>,
    /// Seconds between two re-assertions of the system proxy setting.
    pub proxy_guard_duration: Option<u64>,
    /// Theme overrides, replaced as one unit by a patch that carries them.
    pub theme_setting: Option<VergeTheme>,
}

impl View for VergeTheme {
    type V = ThemeModel;

    open spec fn view(&self) -> ThemeModel {
        ThemeModel {
            primary_color: self.primary_color.deep_view(),
            secondary_color: self.secondary_color.deep_view(),
            primary_text: self.primary_text.deep_view(),
            secondary_text: self.secondary_text.deep_view(),
            info_color: self.info_color.deep_view(),
            error_color: self.error_color.deep_view(),
            warning_color: self.warning_color.deep_view(),
            success_color: self.success_color.deep_view(),
            font_family: self.font_family.deep_view(),
            css_injection: self.css_injection.deep_view(),
        }
    }
}

impl DeepView for VergeTheme {
    type V = ThemeModel;

    open spec fn deep_view(&self) -> ThemeModel {
        self@
    }
}

impl View for VergeConfig {
    type V = ConfigModel;

    open spec fn view(&self) -> ConfigModel {
        ConfigModel {
            language: self.language.deep_view(),
            theme_mode: self.theme_mode.deep_view(),
            theme_blur: self.theme_blur,
            traffic_graph: self.traffic_graph,
            enable_tun_mode: self.enable_tun_mode,
            enable_auto_launch: self.enable_auto_launch,
            enable_silent_start: self.enable_silent_start,
            enable_system_proxy: self.enable_system_proxy,
            enable_proxy_guard: self.enable_proxy_guard,
            system_proxy_bypass: self.system_proxy_bypass.deep_view(),
            proxy_guard_duration: self.proxy_guard_duration,
            theme_setting: self.theme_setting.deep_view(),
        }
    }
}

impl DeepView for VergeConfig {
    type V = ConfigModel;

    open spec fn deep_view(&self) -> ConfigModel {
        self@
    }
}

impl Default for VergeTheme {
    fn default() -> (theme: VergeTheme)
        ensures
            theme@ == ThemeModel::unset(),
    {
        VergeTheme {
            primary_color: None,
            secondary_color: None,
            primary_text: None,
            secondary_text: None,
            info_color: None,
            error_color: None,
            warning_color: None,
            success_color: None,
            font_family: None,
            css_injection: None,
        }
    }
}

impl Default for VergeConfig {
    fn default() -> (config: VergeConfig)
        ensures
            config@ == ConfigModel::unset(),
    {
        VergeConfig {
            language: None,
            theme_mode: None,
            theme_blur: None,
            traffic_graph: None,
            enable_tun_mode: None,
            enable_auto_launch: None,
            enable_silent_start: None,
            enable_system_proxy: None,
            enable_proxy_guard: None,
            system_proxy_bypass: None,
            proxy_guard_duration: None,
            theme_setting: None,
        }
    }
}

/// A copy of an optional text.
fn copy_text(v: &Option<String>) -> (copy: Option<String>)
    ensures
        copy == *v,
{
    match v {
        Some(s) => Some(s.clone()),
        None => None,
    }
}

impl VergeTheme {
    /// A copy of the theme block, attribute for attribute.
    pub fn snapshot(&self) -> (copy: VergeTheme)
        ensures
            copy@ == self@,
    {
        VergeTheme {
            primary_color: copy_text(&self.primary_color),
            secondary_color: copy_text(&self.secondary_color),
            primary_text: copy_text(&self.primary_text),
            secondary_text: copy_text(&self.secondary_text),
            info_color: copy_text(&self.info_color),
            error_color: copy_text(&self.error_color),
            warning_color: copy_text(&self.warning_color),
            success_color: copy_text(&self.success_color),
            font_family: copy_text(&self.font_family),
            css_injection: copy_text(&self.css_injection),
        }
    }
}

impl VergeConfig {
    /// A copy of the settings, field for field.
    pub fn snapshot(&self) -> (copy: VergeConfig)
        ensures
            copy@ == self@,
    {
        VergeConfig {
            language: copy_text(&self.language),
            theme_mode: copy_text(&self.theme_mode),
            theme_blur: self.theme_blur,
            traffic_graph: self.traffic_graph,
            enable_tun_mode: self.enable_tun_mode,
            enable_auto_launch: self.enable_auto_launch,
            enable_silent_start: self.enable_silent_start,
            enable_system_proxy: self.enable_system_proxy,
            enable_proxy_guard: self.enable_proxy_guard,
            system_proxy_bypass: copy_text(&self.system_proxy_bypass),
            proxy_guard_duration: self.proxy_guard_duration,
            theme_setting: match &self.theme_setting {
                Some(t) => Some(t.snapshot()),
                None => None,
            },
        }
    }

    /// The settings that the settings file gives. `source` is the text of the
    /// file, or `None` where the file is missing or cannot be read. A file
    /// that cannot be used never stops the start-up: the result is then the
    /// document with every field unset.
    pub fn new(source: Option<&str>) -> (config: VergeConfig)
        ensures
            config@ == load(source.deep_view()),
    {
        match source {
            Some(text) => match parse(text) {
                Some(config) => config,
                None => VergeConfig::default(),
            },
            None => VergeConfig::default(),
        }
    }

    /// The text of the settings file that holds these settings: the header
    /// comment, then one line for each field that is set. Writing it to the
    /// file, over what the file held, is left to the caller.
    pub fn save_file(&self) -> (text: String)
        ensures
            text@ == file_text(self@),
    {
        render(self, HEADER)
    }
}

} // verus!
