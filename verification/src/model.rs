//! The mathematical model of a settings document and of the merge that a
//! patch performs on it.
//!
//! Every field of a document is optional: a field either carries an override
//! or is unset, and unset never stands for an empty or zero value. A patch is
//! a document read differently: a field it carries is to be written, a field
//! it leaves unset is to be left alone.

use vstd::prelude::*;

verus! {

/// The visual theme block, each attribute an optional piece of text.
#[verifier::ext_equal]
pub struct ThemeModel {
    pub primary_color: Option<Seq<char>>,
    pub secondary_color: Option<Seq<char>>,
    pub primary_text: Option<Seq<char>>,
    pub secondary_text: Option<Seq<char>>,
    pub info_color: Option<Seq<char>>,
    pub error_color: Option<Seq<char>>,
    pub warning_color: Option<Seq<char>>,
    pub success_color: Option<Seq<char>>,
    pub font_family: Option<Seq<char>>,
    pub css_injection: Option<Seq<char>>,
}

/// The settings document.
#[verifier::ext_equal]
pub struct ConfigModel {
    pub language: Option<Seq<char>>,
    pub theme_mode: Option<Seq<char>>,
    pub theme_blur: Option<bool>,
    pub traffic_graph: Option<bool>,
    pub enable_tun_mode: Option<bool>,
    pub enable_auto_launch: Option<bool>,
    pub enable_silent_start: Option<bool>,
    pub enable_system_proxy: Option<bool>,
    pub enable_proxy_guard: Option<bool>,
    pub system_proxy_bypass: Option<Seq<char>>,
    pub proxy_guard_duration: Option<u64>,
    pub theme_setting: Option<ThemeModel>,
}

impl ThemeModel {
    /// The theme block with no attribute set.
    pub open spec fn unset() -> ThemeModel {
        ThemeModel {
            primary_color: None,
            secondary_color: None,
            primary_text: None,
            secondary_text: None,
            info_color: None,
            error_color: None,
            warning_color: None,
            success_color: None,
            font_family: None,
            css_injection: None,
        }
    }
}

impl ConfigModel {
    /// The document with no field set: what a first start begins with, and
    /// what a file that cannot be used is replaced by.
    pub open spec fn unset() -> ConfigModel {
        ConfigModel {
            language: None,
            theme_mode: None,
            theme_blur: None,
            traffic_graph: None,
            enable_tun_mode: None,
            enable_auto_launch: None,
            enable_silent_start: None,
            enable_system_proxy: None,
            enable_proxy_guard: None,
            system_proxy_bypass: None,
            proxy_guard_duration: None,
            theme_setting: None,
        }
    }

    /// The document after `patch` has been merged into it. Each of the twelve
    /// fields is overlaid on its own. The theme block counts as one field: a
    /// patch that carries a theme block replaces the old block whole, and
    /// nothing of the old block's attributes survives.
    pub open spec fn merge(self, patch: ConfigModel) -> ConfigModel {
        ConfigModel {
            language: overlay(self.language, patch.language),
            theme_mode: overlay(self.theme_mode, patch.theme_mode),
            theme_blur: overlay(self.theme_blur, patch.theme_blur),
            traffic_graph: overlay(self.traffic_graph, patch.traffic_graph),
            enable_tun_mode: overlay(self.enable_tun_mode, patch.enable_tun_mode),
            enable_auto_launch: overlay(self.enable_auto_launch, patch.enable_auto_launch),
            enable_silent_start: overlay(self.enable_silent_start, patch.enable_silent_start),
            enable_system_proxy: overlay(self.enable_system_proxy, patch.enable_system_proxy),
            enable_proxy_guard: overlay(self.enable_proxy_guard, patch.enable_proxy_guard),
            system_proxy_bypass: overlay(self.system_proxy_bypass, patch.system_proxy_bypass),
            proxy_guard_duration: overlay(self.proxy_guard_duration, patch.proxy_guard_duration),
            theme_setting: overlay(self.theme_setting, patch.theme_setting),
        }
    }
}

/// What an optional field holds after a patch has been laid over it: the
/// patch's value where the patch carries one, the old value otherwise.
pub open spec fn overlay<T>(base: Option<T>, patch: Option<T>) -> Option<T> {
    if patch is Some {
        patch
    } else {
        base
    }
}

/// Merging the same patch a second time changes nothing, so a caller whose
/// save failed may submit the patch again.
pub proof fn lemma_merge_idempotent(doc: ConfigModel, patch: ConfigModel)
    ensures
        doc.merge(patch).merge(patch) == doc.merge(patch),
{
}

/// A patch that carries nothing leaves every field as it was.
pub proof fn lemma_merge_unset_patch(doc: ConfigModel)
    ensures
        doc.merge(ConfigModel::unset()) == doc,
{
}

/// Merging two patches one after the other is merging their merge: the later
/// patch wins field by field, and the theme block as a whole.
pub proof fn lemma_merge_associative(doc: ConfigModel, first: ConfigModel, second: ConfigModel)
    ensures
        doc.merge(first).merge(second) == doc.merge(first.merge(second)),
{
}

/// The theme block of a merge is never a mixture: it is the patch's block or
/// the old one, attribute for attribute.
pub proof fn lemma_merge_theme_whole(doc: ConfigModel, patch: ConfigModel)
    ensures
        patch.theme_setting is Some ==> doc.merge(patch).theme_setting == patch.theme_setting,
        patch.theme_setting is None ==> doc.merge(patch).theme_setting == doc.theme_setting,
{
}

} // verus!
