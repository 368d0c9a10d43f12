//! The typed keys of the messages that the interface shows.

use vstd::prelude::*;

verus! {

/// A message of the interface, named by a stable key rather than by its
/// English text.
#[derive(Clone, Copy, Debug, PartialEq, Eq, Hash, Structural)]
pub enum I18nKey {
    CommonBack,
    CommonCancel,
    CommonClose,
    CommonDelete,
    CommonDone,
    CommonNext,
    CommonOpen,
    CommonSave,
    CommonSettings,
    CommonAppearance,
    CommonPrivacy,
    CommonFeatures,
    CommonKeybindings,
    CommonAccept,
    CommonReject,
    CommonApply,
    CommonRun,
    CommonStop,
    CommonResume,
    CommonApprove,
    SettingsSectionAccount,
    SettingsSectionAppearance,
    SettingsSectionFeatures,
    SettingsSectionKeybindings,
    SettingsSectionPrivacy,
    SettingsSectionBillingAndUsage,
    SettingsSectionSharedBlocks,
    SettingsSectionMcpServers,
    SettingsSectionWarpDrive,
    SettingsSectionWarpAgent,
    SettingsSectionAgentProfiles,
    SettingsSectionAgentMcpServers,
    SettingsSectionKnowledge,
    SettingsSectionThirdPartyCliAgents,
    SettingsSectionCodeIndexing,
    SettingsSectionEditorAndCodeReview,
    SettingsSectionCloudEnvironments,
    SettingsSectionCloudApiKeys,
    SettingsSectionTeams,
    SettingsSectionWarpify,
    SettingsSectionReferrals,
    SettingsSectionAbout,
    SettingsSectionAi,
    SettingsSectionCode,
    SettingsUmbrellaAgents,
    SettingsUmbrellaCode,
    SettingsUmbrellaCloudPlatform,
    SettingsAppearanceCategoryLanguage,
    SettingsAppearanceCategoryThemes,
    SettingsAppearanceCategoryIcon,
    SettingsAppearanceCategoryWindow,
    SettingsAppearanceCategoryInput,
    SettingsAppearanceCategoryPanes,
    SettingsAppearanceCategoryBlocks,
    SettingsAppearanceCategoryText,
    SettingsAppearanceCategoryCursor,
    SettingsAppearanceCategoryTabs,
    SettingsAppearanceCategoryFullScreenApps,
    SettingsAppearanceLanguageLabel,
    SettingsAppearanceLanguageDescription,
    SettingsAppearanceLanguageEnglish,
    SettingsAppearanceLanguageZhCn,
    SettingsAppearanceLanguageChanged,
    SettingsAppearanceLanguageSearchTerms,
    SettingsAppearanceCreateCustomTheme,
    SettingsAppearanceTheme,
    SettingsAppearanceSyncWithOs,
    SettingsAppearanceSyncWithOsDescription,
    SettingsAppearanceCustomizeAppIcon,
    SettingsAppearanceAppIconBundleWarning,
    SettingsAppearanceUseThinStrokes,
    SettingsAppearanceEnforceMinimumContrast,
    SettingsAppearanceTabCloseButtonPosition,
    SettingsAppearanceShowTabBar,
    SettingsAppearanceZoom,
    SettingsAppearanceZoomDescription,
    CommonResetToDefault,
    SettingsAppearanceWindowOpacity,
    SettingsAppearanceWindowBlur,
    SettingsAppearanceInputPosition,
    SettingsAppearanceCursorBlink,
    SettingsAppearanceTerminalFont,
    SettingsAppearanceAiFont,
    SettingsAiAgent,
    SettingsAiAskAi,
    SettingsAiGenerating,
    SettingsAiThinking,
}

/// The key under which a resource defines the message `key`.
pub open spec fn key_id(key: I18nKey) -> Seq<char> {
    match key {
        I18nKey::CommonBack => "common.back"@,
        I18nKey::CommonCancel => "common.cancel"@,
        I18nKey::CommonClose => "common.close"@,
        I18nKey::CommonDelete => "common.delete"@,
        I18nKey::CommonDone => "common.done"@,
        I18nKey::CommonNext => "common.next"@,
        I18nKey::CommonOpen => "common.open"@,
        I18nKey::CommonSave => "common.save"@,
        I18nKey::CommonSettings => "common.settings"@,
        I18nKey::CommonAppearance => "common.appearance"@,
        I18nKey::CommonPrivacy => "common.privacy"@,
        I18nKey::CommonFeatures => "common.features"@,
        I18nKey::CommonKeybindings => "common.keybindings"@,
        I18nKey::CommonAccept => "common.accept"@,
        I18nKey::CommonReject => "common.reject"@,
        I18nKey::CommonApply => "common.apply"@,
        I18nKey::CommonRun => "common.run"@,
        I18nKey::CommonStop => "common.stop"@,
        I18nKey::CommonResume => "common.resume"@,
        I18nKey::CommonApprove => "common.approve"@,
        I18nKey::SettingsSectionAccount => "settings.section.account"@,
        I18nKey::SettingsSectionAppearance => "settings.section.appearance"@,
        I18nKey::SettingsSectionFeatures => "settings.section.features"@,
        I18nKey::SettingsSectionKeybindings => "settings.section.keybindings"@,
        I18nKey::SettingsSectionPrivacy => "settings.section.privacy"@,
        I18nKey::SettingsSectionBillingAndUsage => "settings.section.billing_and_usage"@,
        I18nKey::SettingsSectionSharedBlocks => "settings.section.shared_blocks"@,
        I18nKey::SettingsSectionMcpServers => "settings.section.mcp_servers"@,
        I18nKey::SettingsSectionWarpDrive => "settings.section.warp_drive"@,
        I18nKey::SettingsSectionWarpAgent => "settings.section.warp_agent"@,
        I18nKey::SettingsSectionAgentProfiles => "settings.section.agent_profiles"@,
        I18nKey::SettingsSectionAgentMcpServers => "settings.section.agent_mcp_servers"@,
        I18nKey::SettingsSectionKnowledge => "settings.section.knowledge"@,
        I18nKey::SettingsSectionThirdPartyCliAgents => "settings.section.third_party_cli_agents"@,
        I18nKey::SettingsSectionCodeIndexing => "settings.section.code_indexing"@,
        I18nKey::SettingsSectionEditorAndCodeReview => "settings.section.editor_and_code_review"@,
        I18nKey::SettingsSectionCloudEnvironments => "settings.section.cloud_environments"@,
        I18nKey::SettingsSectionCloudApiKeys => "settings.section.cloud_api_keys"@,
        I18nKey::SettingsSectionTeams => "settings.section.teams"@,
        I18nKey::SettingsSectionWarpify => "settings.section.warpify"@,
        I18nKey::SettingsSectionReferrals => "settings.section.referrals"@,
        I18nKey::SettingsSectionAbout => "settings.section.about"@,
        I18nKey::SettingsSectionAi => "settings.section.ai"@,
        I18nKey::SettingsSectionCode => "settings.section.code"@,
        I18nKey::SettingsUmbrellaAgents => "settings.umbrella.agents"@,
        I18nKey::SettingsUmbrellaCode => "settings.umbrella.code"@,
        I18nKey::SettingsUmbrellaCloudPlatform => "settings.umbrella.cloud_platform"@,
        I18nKey::SettingsAppearanceCategoryLanguage => "settings.appearance.category.language"@,
        I18nKey::SettingsAppearanceCategoryThemes => "settings.appearance.category.themes"@,
        I18nKey::SettingsAppearanceCategoryIcon => "settings.appearance.category.icon"@,
        I18nKey::SettingsAppearanceCategoryWindow => "settings.appearance.category.window"@,
        I18nKey::SettingsAppearanceCategoryInput => "settings.appearance.category.input"@,
        I18nKey::SettingsAppearanceCategoryPanes => "settings.appearance.category.panes"@,
        I18nKey::SettingsAppearanceCategoryBlocks => "settings.appearance.category.blocks"@,
        I18nKey::SettingsAppearanceCategoryText => "settings.appearance.category.text"@,
        I18nKey::SettingsAppearanceCategoryCursor => "settings.appearance.category.cursor"@,
        I18nKey::SettingsAppearanceCategoryTabs => "settings.appearance.category.tabs"@,
        I18nKey::SettingsAppearanceCategoryFullScreenApps => "settings.appearance.category.full_screen_apps"@,
        I18nKey::SettingsAppearanceLanguageLabel => "settings.appearance.language.label"@,
        I18nKey::SettingsAppearanceLanguageDescription => "settings.appearance.language.description"@,
        I18nKey::SettingsAppearanceLanguageEnglish => "settings.appearance.language.english"@,
        I18nKey::SettingsAppearanceLanguageZhCn => "settings.appearance.language.zh_cn"@,
        I18nKey::SettingsAppearanceLanguageChanged => "settings.appearance.language.changed"@,
        I18nKey::SettingsAppearanceLanguageSearchTerms => "settings.appearance.language.search_terms"@,
        I18nKey::SettingsAppearanceCreateCustomTheme => "settings.appearance.create_custom_theme"@,
        I18nKey::SettingsAppearanceTheme => "settings.appearance.theme"@,
        I18nKey::SettingsAppearanceSyncWithOs => "settings.appearance.sync_with_os"@,
        I18nKey::SettingsAppearanceSyncWithOsDescription => "settings.appearance.sync_with_os.description"@,
        I18nKey::SettingsAppearanceCustomizeAppIcon => "settings.appearance.customize_app_icon"@,
        I18nKey::SettingsAppearanceAppIconBundleWarning => "settings.appearance.app_icon.bundle_warning"@,
        I18nKey::SettingsAppearanceUseThinStrokes => "settings.appearance.use_thin_strokes"@,
        I18nKey::SettingsAppearanceEnforceMinimumContrast => "settings.appearance.enforce_minimum_contrast"@,
        I18nKey::SettingsAppearanceTabCloseButtonPosition => "settings.appearance.tab_close_button_position"@,
        I18nKey::SettingsAppearanceShowTabBar => "settings.appearance.show_tab_bar"@,
        I18nKey::SettingsAppearanceZoom => "settings.appearance.zoom"@,
        I18nKey::SettingsAppearanceZoomDescription => "settings.appearance.zoom.description"@,
        I18nKey::CommonResetToDefault => "common.reset_to_default"@,
        I18nKey::SettingsAppearanceWindowOpacity => "settings.appearance.window_opacity"@,
        I18nKey::SettingsAppearanceWindowBlur => "settings.appearance.window_blur"@,
        I18nKey::SettingsAppearanceInputPosition => "settings.appearance.input_position"@,
        I18nKey::SettingsAppearanceCursorBlink => "settings.appearance.cursor_blink"@,
        I18nKey::SettingsAppearanceTerminalFont => "settings.appearance.terminal_font"@,
        I18nKey::SettingsAppearanceAiFont => "settings.appearance.ai_font"@,
        I18nKey::SettingsAiAgent => "settings.ai.agent"@,
        I18nKey::SettingsAiAskAi => "settings.ai.ask_ai"@,
        I18nKey::SettingsAiGenerating => "settings.ai.generating"@,
        I18nKey::SettingsAiThinking => "settings.ai.thinking"@,
    }
}

/// The position of `key` in the list of all keys.
pub open spec fn key_index(key: I18nKey) -> int {
    match key {
        I18nKey::CommonBack => 0,
        I18nKey::CommonCancel => 1,
        I18nKey::CommonClose => 2,
        I18nKey::CommonDelete => 3,
        I18nKey::CommonDone => 4,
        I18nKey::CommonNext => 5,
        I18nKey::CommonOpen => 6,
        I18nKey::CommonSave => 7,
        I18nKey::CommonSettings => 8,
        I18nKey::CommonAppearance => 9,
        I18nKey::CommonPrivacy => 10,
        I18nKey::CommonFeatures => 11,
        I18nKey::CommonKeybindings => 12,
        I18nKey::CommonAccept => 13,
        I18nKey::CommonReject => 14,
        I18nKey::CommonApply => 15,
        I18nKey::CommonRun => 16,
        I18nKey::CommonStop => 17,
        I18nKey::CommonResume => 18,
        I18nKey::CommonApprove => 19,
        I18nKey::SettingsSectionAccount => 20,
        I18nKey::SettingsSectionAppearance => 21,
        I18nKey::SettingsSectionFeatures => 22,
        I18nKey::SettingsSectionKeybindings => 23,
        I18nKey::SettingsSectionPrivacy => 24,
        I18nKey::SettingsSectionBillingAndUsage => 25,
        I18nKey::SettingsSectionSharedBlocks => 26,
        I18nKey::SettingsSectionMcpServers => 27,
        I18nKey::SettingsSectionWarpDrive => 28,
        I18nKey::SettingsSectionWarpAgent => 29,
        I18nKey::SettingsSectionAgentProfiles => 30,
        I18nKey::SettingsSectionAgentMcpServers => 31,
        I18nKey::SettingsSectionKnowledge => 32,
        I18nKey::SettingsSectionThirdPartyCliAgents => 33,
        I18nKey::SettingsSectionCodeIndexing => 34,
        I18nKey::SettingsSectionEditorAndCodeReview => 35,
        I18nKey::SettingsSectionCloudEnvironments => 36,
        I18nKey::SettingsSectionCloudApiKeys => 37,
        I18nKey::SettingsSectionTeams => 38,
        I18nKey::SettingsSectionWarpify => 39,
        I18nKey::SettingsSectionReferrals => 40,
        I18nKey::SettingsSectionAbout => 41,
        I18nKey::SettingsSectionAi => 42,
        I18nKey::SettingsSectionCode => 43,
        I18nKey::SettingsUmbrellaAgents => 44,
        I18nKey::SettingsUmbrellaCode => 45,
        I18nKey::SettingsUmbrellaCloudPlatform => 46,
        I18nKey::SettingsAppearanceCategoryLanguage => 47,
        I18nKey::SettingsAppearanceCategoryThemes => 48,
        I18nKey::SettingsAppearanceCategoryIcon => 49,
        I18nKey::SettingsAppearanceCategoryWindow => 50,
        I18nKey::SettingsAppearanceCategoryInput => 51,
        I18nKey::SettingsAppearanceCategoryPanes => 52,
        I18nKey::SettingsAppearanceCategoryBlocks => 53,
        I18nKey::SettingsAppearanceCategoryText => 54,
        I18nKey::SettingsAppearanceCategoryCursor => 55,
        I18nKey::SettingsAppearanceCategoryTabs => 56,
        I18nKey::SettingsAppearanceCategoryFullScreenApps => 57,
        I18nKey::SettingsAppearanceLanguageLabel => 58,
        I18nKey::SettingsAppearanceLanguageDescription => 59,
        I18nKey::SettingsAppearanceLanguageEnglish => 60,
        I18nKey::SettingsAppearanceLanguageZhCn => 61,
        I18nKey::SettingsAppearanceLanguageChanged => 62,
        I18nKey::SettingsAppearanceLanguageSearchTerms => 63,
        I18nKey::SettingsAppearanceCreateCustomTheme => 64,
        I18nKey::SettingsAppearanceTheme => 65,
        I18nKey::SettingsAppearanceSyncWithOs => 66,
        I18nKey::SettingsAppearanceSyncWithOsDescription => 67,
        I18nKey::SettingsAppearanceCustomizeAppIcon => 68,
        I18nKey::SettingsAppearanceAppIconBundleWarning => 69,
        I18nKey::SettingsAppearanceUseThinStrokes => 70,
        I18nKey::SettingsAppearanceEnforceMinimumContrast => 71,
        I18nKey::SettingsAppearanceTabCloseButtonPosition => 72,
        I18nKey::SettingsAppearanceShowTabBar => 73,
        I18nKey::SettingsAppearanceZoom => 74,
        I18nKey::SettingsAppearanceZoomDescription => 75,
        I18nKey::CommonResetToDefault => 76,
        I18nKey::SettingsAppearanceWindowOpacity => 77,
        I18nKey::SettingsAppearanceWindowBlur => 78,
        I18nKey::SettingsAppearanceInputPosition => 79,
        I18nKey::SettingsAppearanceCursorBlink => 80,
        I18nKey::SettingsAppearanceTerminalFont => 81,
        I18nKey::SettingsAppearanceAiFont => 82,
        I18nKey::SettingsAiAgent => 83,
        I18nKey::SettingsAiAskAi => 84,
        I18nKey::SettingsAiGenerating => 85,
        I18nKey::SettingsAiThinking => 86,
    }
}

impl I18nKey {
    /// Every key, each once, in the order of their declaration.
    pub fn required() -> (r: &'static [I18nKey])
        ensures
            r@.len() == 87,
            forall|i: int| 0 <= i < r@.len() ==> key_index(#[trigger] r@[i]) == i,
            forall|k: I18nKey| r@[key_index(k)] == k && #[trigger] r@.contains(k),
            forall|i: int, j: int|
                0 <= i < r@.len() && 0 <= j < r@.len() && #[trigger] r@[i] == #[trigger] r@[j]
                    ==> i == j,
    {
        &[
            I18nKey::CommonBack,
            I18nKey::CommonCancel,
            I18nKey::CommonClose,
            I18nKey::CommonDelete,
            I18nKey::CommonDone,
            I18nKey::CommonNext,
            I18nKey::CommonOpen,
            I18nKey::CommonSave,
            I18nKey::CommonSettings,
            I18nKey::CommonAppearance,
            I18nKey::CommonPrivacy,
            I18nKey::CommonFeatures,
            I18nKey::CommonKeybindings,
            I18nKey::CommonAccept,
            I18nKey::CommonReject,
            I18nKey::CommonApply,
            I18nKey::CommonRun,
            I18nKey::CommonStop,
            I18nKey::CommonResume,
            I18nKey::CommonApprove,
            I18nKey::SettingsSectionAccount,
            I18nKey::SettingsSectionAppearance,
            I18nKey::SettingsSectionFeatures,
            I18nKey::SettingsSectionKeybindings,
            I18nKey::SettingsSectionPrivacy,
            I18nKey::SettingsSectionBillingAndUsage,
            I18nKey::SettingsSectionSharedBlocks,
            I18nKey::SettingsSectionMcpServers,
            I18nKey::SettingsSectionWarpDrive,
            I18nKey::SettingsSectionWarpAgent,
            I18nKey::SettingsSectionAgentProfiles,
            I18nKey::SettingsSectionAgentMcpServers,
            I18nKey::SettingsSectionKnowledge,
            I18nKey::SettingsSectionThirdPartyCliAgents,
            I18nKey::SettingsSectionCodeIndexing,
            I18nKey::SettingsSectionEditorAndCodeReview,
            I18nKey::SettingsSectionCloudEnvironments,
            I18nKey::SettingsSectionCloudApiKeys,
            I18nKey::SettingsSectionTeams,
            I18nKey::SettingsSectionWarpify,
            I18nKey::SettingsSectionReferrals,
            I18nKey::SettingsSectionAbout,
            I18nKey::SettingsSectionAi,
            I18nKey::SettingsSectionCode,
            I18nKey::SettingsUmbrellaAgents,
            I18nKey::SettingsUmbrellaCode,
            I18nKey::SettingsUmbrellaCloudPlatform,
            I18nKey::SettingsAppearanceCategoryLanguage,
            I18nKey::SettingsAppearanceCategoryThemes,
            I18nKey::SettingsAppearanceCategoryIcon,
            I18nKey::SettingsAppearanceCategoryWindow,
            I18nKey::SettingsAppearanceCategoryInput,
            I18nKey::SettingsAppearanceCategoryPanes,
            I18nKey::SettingsAppearanceCategoryBlocks,
            I18nKey::SettingsAppearanceCategoryText,
            I18nKey::SettingsAppearanceCategoryCursor,
            I18nKey::SettingsAppearanceCategoryTabs,
            I18nKey::SettingsAppearanceCategoryFullScreenApps,
            I18nKey::SettingsAppearanceLanguageLabel,
            I18nKey::SettingsAppearanceLanguageDescription,
            I18nKey::SettingsAppearanceLanguageEnglish,
            I18nKey::SettingsAppearanceLanguageZhCn,
            I18nKey::SettingsAppearanceLanguageChanged,
            I18nKey::SettingsAppearanceLanguageSearchTerms,
            I18nKey::SettingsAppearanceCreateCustomTheme,
            I18nKey::SettingsAppearanceTheme,
            I18nKey::SettingsAppearanceSyncWithOs,
            I18nKey::SettingsAppearanceSyncWithOsDescription,
            I18nKey::SettingsAppearanceCustomizeAppIcon,
            I18nKey::SettingsAppearanceAppIconBundleWarning,
            I18nKey::SettingsAppearanceUseThinStrokes,
            I18nKey::SettingsAppearanceEnforceMinimumContrast,
            I18nKey::SettingsAppearanceTabCloseButtonPosition,
            I18nKey::SettingsAppearanceShowTabBar,
            I18nKey::SettingsAppearanceZoom,
            I18nKey::SettingsAppearanceZoomDescription,
            I18nKey::CommonResetToDefault,
            I18nKey::SettingsAppearanceWindowOpacity,
            I18nKey::SettingsAppearanceWindowBlur,
            I18nKey::SettingsAppearanceInputPosition,
            I18nKey::SettingsAppearanceCursorBlink,
            I18nKey::SettingsAppearanceTerminalFont,
            I18nKey::SettingsAppearanceAiFont,
            I18nKey::SettingsAiAgent,
            I18nKey::SettingsAiAskAi,
            I18nKey::SettingsAiGenerating,
            I18nKey::SettingsAiThinking,
        ]
    }

    /// The key under which a resource defines this message.
    pub fn as_str(self) -> (r: &'static str)
        ensures
            r@ == key_id(self),
    {
        match self {
            I18nKey::CommonBack => "common.back",
            I18nKey::CommonCancel => "common.cancel",
            I18nKey::CommonClose => "common.close",
            I18nKey::CommonDelete => "common.delete",
            I18nKey::CommonDone => "common.done",
            I18nKey::CommonNext => "common.next",
            I18nKey::CommonOpen => "common.open",
            I18nKey::CommonSave => "common.save",
            I18nKey::CommonSettings => "common.settings",
            I18nKey::CommonAppearance => "common.appearance",
            I18nKey::CommonPrivacy => "common.privacy",
            I18nKey::CommonFeatures => "common.features",
            I18nKey::CommonKeybindings => "common.keybindings",
            I18nKey::CommonAccept => "common.accept",
            I18nKey::CommonReject => "common.reject",
            I18nKey::CommonApply => "common.apply",
            I18nKey::CommonRun => "common.run",
            I18nKey::CommonStop => "common.stop",
            I18nKey::CommonResume => "common.resume",
            I18nKey::CommonApprove => "common.approve",
            I18nKey::SettingsSectionAccount => "settings.section.account",
            I18nKey::SettingsSectionAppearance => "settings.section.appearance",
            I18nKey::SettingsSectionFeatures => "settings.section.features",
            I18nKey::SettingsSectionKeybindings => "settings.section.keybindings",
            I18nKey::SettingsSectionPrivacy => "settings.section.privacy",
            I18nKey::SettingsSectionBillingAndUsage => "settings.section.billing_and_usage",
            I18nKey::SettingsSectionSharedBlocks => "settings.section.shared_blocks",
            I18nKey::SettingsSectionMcpServers => "settings.section.mcp_servers",
            I18nKey::SettingsSectionWarpDrive => "settings.section.warp_drive",
            I18nKey::SettingsSectionWarpAgent => "settings.section.warp_agent",
            I18nKey::SettingsSectionAgentProfiles => "settings.section.agent_profiles",
            I18nKey::SettingsSectionAgentMcpServers => "settings.section.agent_mcp_servers",
            I18nKey::SettingsSectionKnowledge => "settings.section.knowledge",
            I18nKey::SettingsSectionThirdPartyCliAgents => "settings.section.third_party_cli_agents",
            I18nKey::SettingsSectionCodeIndexing => "settings.section.code_indexing",
            I18nKey::SettingsSectionEditorAndCodeReview => "settings.section.editor_and_code_review",
            I18nKey::SettingsSectionCloudEnvironments => "settings.section.cloud_environments",
            I18nKey::SettingsSectionCloudApiKeys => "settings.section.cloud_api_keys",
            I18nKey::SettingsSectionTeams => "settings.section.teams",
            I18nKey::SettingsSectionWarpify => "settings.section.warpify",
            I18nKey::SettingsSectionReferrals => "settings.section.referrals",
            I18nKey::SettingsSectionAbout => "settings.section.about",
            I18nKey::SettingsSectionAi => "settings.section.ai",
            I18nKey::SettingsSectionCode => "settings.section.code",
            I18nKey::SettingsUmbrellaAgents => "settings.umbrella.agents",
            I18nKey::SettingsUmbrellaCode => "settings.umbrella.code",
            I18nKey::SettingsUmbrellaCloudPlatform => "settings.umbrella.cloud_platform",
            I18nKey::SettingsAppearanceCategoryLanguage => "settings.appearance.category.language",
            I18nKey::SettingsAppearanceCategoryThemes => "settings.appearance.category.themes",
            I18nKey::SettingsAppearanceCategoryIcon => "settings.appearance.category.icon",
            I18nKey::SettingsAppearanceCategoryWindow => "settings.appearance.category.window",
            I18nKey::SettingsAppearanceCategoryInput => "settings.appearance.category.input",
            I18nKey::SettingsAppearanceCategoryPanes => "settings.appearance.category.panes",
            I18nKey::SettingsAppearanceCategoryBlocks => "settings.appearance.category.blocks",
            I18nKey::SettingsAppearanceCategoryText => "settings.appearance.category.text",
            I18nKey::SettingsAppearanceCategoryCursor => "settings.appearance.category.cursor",
            I18nKey::SettingsAppearanceCategoryTabs => "settings.appearance.category.tabs",
            I18nKey::SettingsAppearanceCategoryFullScreenApps => "settings.appearance.category.full_screen_apps",
            I18nKey::SettingsAppearanceLanguageLabel => "settings.appearance.language.label",
            I18nKey::SettingsAppearanceLanguageDescription => "settings.appearance.language.description",
            I18nKey::SettingsAppearanceLanguageEnglish => "settings.appearance.language.english",
            I18nKey::SettingsAppearanceLanguageZhCn => "settings.appearance.language.zh_cn",
            I18nKey::SettingsAppearanceLanguageChanged => "settings.appearance.language.changed",
            I18nKey::SettingsAppearanceLanguageSearchTerms => "settings.appearance.language.search_terms",
            I18nKey::SettingsAppearanceCreateCustomTheme => "settings.appearance.create_custom_theme",
            I18nKey::SettingsAppearanceTheme => "settings.appearance.theme",
            I18nKey::SettingsAppearanceSyncWithOs => "settings.appearance.sync_with_os",
            I18nKey::SettingsAppearanceSyncWithOsDescription => "settings.appearance.sync_with_os.description",
            I18nKey::SettingsAppearanceCustomizeAppIcon => "settings.appearance.customize_app_icon",
            I18nKey::SettingsAppearanceAppIconBundleWarning => "settings.appearance.app_icon.bundle_warning",
            I18nKey::SettingsAppearanceUseThinStrokes => "settings.appearance.use_thin_strokes",
            I18nKey::SettingsAppearanceEnforceMinimumContrast => "settings.appearance.enforce_minimum_contrast",
            I18nKey::SettingsAppearanceTabCloseButtonPosition => "settings.appearance.tab_close_button_position",
            I18nKey::SettingsAppearanceShowTabBar => "settings.appearance.show_tab_bar",
            I18nKey::SettingsAppearanceZoom => "settings.appearance.zoom",
            I18nKey::SettingsAppearanceZoomDescription => "settings.appearance.zoom.description",
            I18nKey::CommonResetToDefault => "common.reset_to_default",
            I18nKey::SettingsAppearanceWindowOpacity => "settings.appearance.window_opacity",
            I18nKey::SettingsAppearanceWindowBlur => "settings.appearance.window_blur",
            I18nKey::SettingsAppearanceInputPosition => "settings.appearance.input_position",
            I18nKey::SettingsAppearanceCursorBlink => "settings.appearance.cursor_blink",
            I18nKey::SettingsAppearanceTerminalFont => "settings.appearance.terminal_font",
            I18nKey::SettingsAppearanceAiFont => "settings.appearance.ai_font",
            I18nKey::SettingsAiAgent => "settings.ai.agent",
            I18nKey::SettingsAiAskAi => "settings.ai.ask_ai",
            I18nKey::SettingsAiGenerating => "settings.ai.generating",
            I18nKey::SettingsAiThinking => "settings.ai.thinking",
        }
    }
}


/// The resource name of every typed key, as the key table declares it.
pub proof fn lemma_key_table()
    ensures
        key_id(I18nKey::CommonBack) == "common.back"@,
        key_id(I18nKey::CommonCancel) == "common.cancel"@,
        key_id(I18nKey::CommonClose) == "common.close"@,
        key_id(I18nKey::CommonDelete) == "common.delete"@,
        key_id(I18nKey::CommonDone) == "common.done"@,
        key_id(I18nKey::CommonNext) == "common.next"@,
        key_id(I18nKey::CommonOpen) == "common.open"@,
        key_id(I18nKey::CommonSave) == "common.save"@,
        key_id(I18nKey::CommonSettings) == "common.settings"@,
        key_id(I18nKey::CommonAppearance) == "common.appearance"@,
        key_id(I18nKey::CommonPrivacy) == "common.privacy"@,
        key_id(I18nKey::CommonFeatures) == "common.features"@,
        key_id(I18nKey::CommonKeybindings) == "common.keybindings"@,
        key_id(I18nKey::CommonAccept) == "common.accept"@,
        key_id(I18nKey::CommonReject) == "common.reject"@,
        key_id(I18nKey::CommonApply) == "common.apply"@,
        key_id(I18nKey::CommonRun) == "common.run"@,
        key_id(I18nKey::CommonStop) == "common.stop"@,
        key_id(I18nKey::CommonResume) == "common.resume"@,
        key_id(I18nKey::CommonApprove) == "common.approve"@,
        key_id(I18nKey::SettingsSectionAccount) == "settings.section.account"@,
        key_id(I18nKey::SettingsSectionAppearance) == "settings.section.appearance"@,
        key_id(I18nKey::SettingsSectionFeatures) == "settings.section.features"@,
        key_id(I18nKey::SettingsSectionKeybindings) == "settings.section.keybindings"@,
        key_id(I18nKey::SettingsSectionPrivacy) == "settings.section.privacy"@,
        key_id(I18nKey::SettingsSectionBillingAndUsage) == "settings.section.billing_and_usage"@,
        key_id(I18nKey::SettingsSectionSharedBlocks) == "settings.section.shared_blocks"@,
        key_id(I18nKey::SettingsSectionMcpServers) == "settings.section.mcp_servers"@,
        key_id(I18nKey::SettingsSectionWarpDrive) == "settings.section.warp_drive"@,
        key_id(I18nKey::SettingsSectionWarpAgent) == "settings.section.warp_agent"@,
        key_id(I18nKey::SettingsSectionAgentProfiles) == "settings.section.agent_profiles"@,
        key_id(I18nKey::SettingsSectionAgentMcpServers) == "settings.section.agent_mcp_servers"@,
        key_id(I18nKey::SettingsSectionKnowledge) == "settings.section.knowledge"@,
        key_id(I18nKey::SettingsSectionThirdPartyCliAgents) == "settings.section.third_party_cli_agents"@,
        key_id(I18nKey::SettingsSectionCodeIndexing) == "settings.section.code_indexing"@,
        key_id(I18nKey::SettingsSectionEditorAndCodeReview) == "settings.section.editor_and_code_review"@,
        key_id(I18nKey::SettingsSectionCloudEnvironments) == "settings.section.cloud_environments"@,
        key_id(I18nKey::SettingsSectionCloudApiKeys) == "settings.section.cloud_api_keys"@,
        key_id(I18nKey::SettingsSectionTeams) == "settings.section.teams"@,
        key_id(I18nKey::SettingsSectionWarpify) == "settings.section.warpify"@,
        key_id(I18nKey::SettingsSectionReferrals) == "settings.section.referrals"@,
        key_id(I18nKey::SettingsSectionAbout) == "settings.section.about"@,
        key_id(I18nKey::SettingsSectionAi) == "settings.section.ai"@,
        key_id(I18nKey::SettingsSectionCode) == "settings.section.code"@,
        key_id(I18nKey::SettingsUmbrellaAgents) == "settings.umbrella.agents"@,
        key_id(I18nKey::SettingsUmbrellaCode) == "settings.umbrella.code"@,
        key_id(I18nKey::SettingsUmbrellaCloudPlatform) == "settings.umbrella.cloud_platform"@,
        key_id(I18nKey::SettingsAppearanceCategoryLanguage) == "settings.appearance.category.language"@,
        key_id(I18nKey::SettingsAppearanceCategoryThemes) == "settings.appearance.category.themes"@,
        key_id(I18nKey::SettingsAppearanceCategoryIcon) == "settings.appearance.category.icon"@,
        key_id(I18nKey::SettingsAppearanceCategoryWindow) == "settings.appearance.category.window"@,
        key_id(I18nKey::SettingsAppearanceCategoryInput) == "settings.appearance.category.input"@,
        key_id(I18nKey::SettingsAppearanceCategoryPanes) == "settings.appearance.category.panes"@,
        key_id(I18nKey::SettingsAppearanceCategoryBlocks) == "settings.appearance.category.blocks"@,
        key_id(I18nKey::SettingsAppearanceCategoryText) == "settings.appearance.category.text"@,
        key_id(I18nKey::SettingsAppearanceCategoryCursor) == "settings.appearance.category.cursor"@,
        key_id(I18nKey::SettingsAppearanceCategoryTabs) == "settings.appearance.category.tabs"@,
        key_id(I18nKey::SettingsAppearanceCategoryFullScreenApps) == "settings.appearance.category.full_screen_apps"@,
        key_id(I18nKey::SettingsAppearanceLanguageLabel) == "settings.appearance.language.label"@,
        key_id(I18nKey::SettingsAppearanceLanguageDescription) == "settings.appearance.language.description"@,
        key_id(I18nKey::SettingsAppearanceLanguageEnglish) == "settings.appearance.language.english"@,
        key_id(I18nKey::SettingsAppearanceLanguageZhCn) == "settings.appearance.language.zh_cn"@,
        key_id(I18nKey::SettingsAppearanceLanguageChanged) == "settings.appearance.language.changed"@,
        key_id(I18nKey::SettingsAppearanceLanguageSearchTerms) == "settings.appearance.language.search_terms"@,
        key_id(I18nKey::SettingsAppearanceCreateCustomTheme) == "settings.appearance.create_custom_theme"@,
        key_id(I18nKey::SettingsAppearanceTheme) == "settings.appearance.theme"@,
        key_id(I18nKey::SettingsAppearanceSyncWithOs) == "settings.appearance.sync_with_os"@,
        key_id(I18nKey::SettingsAppearanceSyncWithOsDescription) == "settings.appearance.sync_with_os.description"@,
        key_id(I18nKey::SettingsAppearanceCustomizeAppIcon) == "settings.appearance.customize_app_icon"@,
        key_id(I18nKey::SettingsAppearanceAppIconBundleWarning) == "settings.appearance.app_icon.bundle_warning"@,
        key_id(I18nKey::SettingsAppearanceUseThinStrokes) == "settings.appearance.use_thin_strokes"@,
        key_id(I18nKey::SettingsAppearanceEnforceMinimumContrast) == "settings.appearance.enforce_minimum_contrast"@,
        key_id(I18nKey::SettingsAppearanceTabCloseButtonPosition) == "settings.appearance.tab_close_button_position"@,
        key_id(I18nKey::SettingsAppearanceShowTabBar) == "settings.appearance.show_tab_bar"@,
        key_id(I18nKey::SettingsAppearanceZoom) == "settings.appearance.zoom"@,
        key_id(I18nKey::SettingsAppearanceZoomDescription) == "settings.appearance.zoom.description"@,
        key_id(I18nKey::CommonResetToDefault) == "common.reset_to_default"@,
        key_id(I18nKey::SettingsAppearanceWindowOpacity) == "settings.appearance.window_opacity"@,
        key_id(I18nKey::SettingsAppearanceWindowBlur) == "settings.appearance.window_blur"@,
        key_id(I18nKey::SettingsAppearanceInputPosition) == "settings.appearance.input_position"@,
        key_id(I18nKey::SettingsAppearanceCursorBlink) == "settings.appearance.cursor_blink"@,
        key_id(I18nKey::SettingsAppearanceTerminalFont) == "settings.appearance.terminal_font"@,
        key_id(I18nKey::SettingsAppearanceAiFont) == "settings.appearance.ai_font"@,
        key_id(I18nKey::SettingsAiAgent) == "settings.ai.agent"@,
        key_id(I18nKey::SettingsAiAskAi) == "settings.ai.ask_ai"@,
        key_id(I18nKey::SettingsAiGenerating) == "settings.ai.generating"@,
        key_id(I18nKey::SettingsAiThinking) == "settings.ai.thinking"@,
{
}

} // verus!
