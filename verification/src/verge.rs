//! The owner of the one settings document of a running application.

use crate::config::VergeConfig;
use crate::format::{file_text, load};
use crate::model::overlay;
use vstd::prelude::*;

verus! {

/// Holds the current settings. It is built once at start-up and changed only
/// by [`Verge::patch_config`].
#[derive(Debug)]
pub struct Verge {
    /// The settings in force.
    pub config: VergeConfig,
}

/// Lays `patch` over `slot`: a patch that carries a value replaces what the
/// slot held, one that carries none leaves the slot alone.
fn apply<T>(slot: &mut Option<T>, patch: Option<T>)
    ensures
        *final(slot) == overlay(*old(slot), patch),
{
    if patch.is_some() {
        *slot = patch;
    }
}

impl Verge {
    /// Starts from the settings that the settings file gives, or from the
    /// document with every field unset where the file cannot be used.
    /// `source` is the text of the file, or `None` where it is missing or
    /// cannot be read.
    pub fn new(source: Option<&str>) -> (verge: Verge)
        ensures
            verge.config@ == load(source.deep_view()),
    {
        Verge { config: VergeConfig::new(source) }
    }

    /// The settings in force, as a copy that the caller may keep: it does not
    /// follow later patches.
    pub fn current_config(&self) -> (copy: VergeConfig)
        ensures
            copy@ == self.config@,
    {
        self.config.snapshot()
    }

    /// Merges `patch` into the settings and gives the text of the settings
    /// file that holds the result, for the caller to write.
    ///
    /// A field that the patch carries replaces the field of the settings; a
    /// field that the patch leaves unset stays as it is. The theme block is
    /// one field: a patch that carries one replaces the old block whole.
    /// The settings are changed whether or not the text can then be written.
    pub fn patch_config(&mut self, patch: VergeConfig) -> (text: String)
        ensures
            final(self).config@ == old(self).config@.merge(patch@),
            text@ == file_text(final(self).config@),
    {
        apply(&mut self.config.language, patch.language);
        apply(&mut self.config.theme_mode, patch.theme_mode);
        apply(&mut self.config.theme_blur, patch.theme_blur);
        apply(&mut self.config.theme_setting, patch.theme_setting);
        apply(&mut self.config.traffic_graph, patch.traffic_graph);
        apply(&mut self.config.enable_silent_start, patch.enable_silent_start);
        apply(&mut self.config.enable_auto_launch, patch.enable_auto_launch);
        apply(&mut self.config.enable_system_proxy, patch.enable_system_proxy);
        apply(&mut self.config.system_proxy_bypass, patch.system_proxy_bypass);
        apply(&mut self.config.enable_proxy_guard, patch.enable_proxy_guard);
        apply(&mut self.config.proxy_guard_duration, patch.proxy_guard_duration);
        apply(&mut self.config.enable_tun_mode, patch.enable_tun_mode);
        self.config.save_file()
    }
}

} // verus!
