use warp_i18n::manager::TextSource;
use warp_i18n::manager::catalog_from_resource;
use warp_i18n::{Catalog, I18n, I18nKey, LoadError, Locale};

#[test]
fn translates_from_active_locale() {
    let i18n = I18n::from_catalogs_for_test(
        Locale::ZhCn,
        Catalog::parse("common.save = Save"),
        Some(Catalog::parse("common.save = 保存")),
    );

    assert_eq!(i18n.tr(I18nKey::CommonSave), "保存");
    assert_eq!(i18n.locale(), Locale::ZhCn);
}

#[test]
fn falls_back_to_english_when_active_locale_key_is_missing() {
    let i18n = I18n::from_catalogs_for_test(
        Locale::ZhCn,
        Catalog::parse("common.save = Save"),
        Some(Catalog::parse("common.cancel = 取消")),
    );

    assert_eq!(i18n.tr(I18nKey::CommonSave), "Save");
}

#[test]
fn falls_back_to_key_when_english_key_is_missing() {
    let i18n = I18n::from_catalogs_for_test(Locale::EnUs, Catalog::default(), None);

    assert_eq!(i18n.tr(I18nKey::CommonSave), "common.save");
}

#[test]
fn formats_with_named_arguments() {
    let i18n = I18n::from_catalogs_for_test(
        Locale::ZhCn,
        Catalog::parse("settings.appearance.language.changed = Warp will use {language}."),
        Some(Catalog::parse(
            "settings.appearance.language.changed = Warp 将使用 {language}。",
        )),
    );

    assert_eq!(
        i18n.tr_args(
            I18nKey::SettingsAppearanceLanguageChanged,
            &[("language", "简体中文")]
        ),
        "Warp 将使用 简体中文。"
    );
}

#[test]
fn formats_english_message_when_active_lacks_it() {
    let i18n = I18n::from_catalogs_for_test(
        Locale::ZhCn,
        Catalog::parse("settings.appearance.language.changed = Warp will use {language}."),
        Some(Catalog::parse("common.save = 保存")),
    );
    assert_eq!(
        i18n.tr_args(
            I18nKey::SettingsAppearanceLanguageChanged,
            &[("language", "English")]
        ),
        "Warp will use English."
    );
}

#[test]
fn formatting_a_missing_message_shows_the_key() {
    let i18n = I18n::from_catalogs_for_test(Locale::ZhCn, Catalog::default(), None);
    assert_eq!(
        i18n.tr_args(I18nKey::CommonSave, &[("common", "x")]),
        "common.save"
    );
}

#[test]
fn no_arguments_gives_the_plain_translation() {
    let i18n = I18n::from_catalogs_for_test(
        Locale::ZhCn,
        Catalog::parse("common.save = Save {x}\ncommon.close = Close"),
        Some(Catalog::parse("common.close = 关闭")),
    );
    for key in [I18nKey::CommonSave, I18nKey::CommonClose, I18nKey::CommonDone] {
        assert_eq!(i18n.tr_args(key, &[]), i18n.tr(key));
    }
}

#[test]
fn keys_have_their_resource_names() {
    assert_eq!(I18nKey::CommonBack.as_str(), "common.back");
    assert_eq!(
        I18nKey::SettingsSectionThirdPartyCliAgents.as_str(),
        "settings.section.third_party_cli_agents"
    );
    assert_eq!(I18nKey::SettingsAiThinking.as_str(), "settings.ai.thinking");
}

#[test]
fn reads_catalog_from_utf8_resource() {
    let catalog = catalog_from_resource(Locale::ZhCn, Some("common.save = 保存".as_bytes()))
        .expect("valid resource");
    assert_eq!(catalog.get("common.save"), Some("保存"));
}

#[test]
fn reports_missing_and_invalid_resources() {
    match catalog_from_resource(Locale::ZhCn, None) {
        Err(LoadError::MissingResource(path)) => assert_eq!(path, "bundled/i18n/zh-CN.ftl"),
        other => panic!("unexpected {other:?}"),
    }
    match catalog_from_resource(Locale::EnUs, Some(&[0x61, 0xff, 0x3d])) {
        Err(LoadError::InvalidUtf8 { valid_up_to, error_len }) => {
            assert_eq!(valid_up_to, 1);
            assert_eq!(error_len, Some(1));
        }
        other => panic!("unexpected {other:?}"),
    }
    match catalog_from_resource(Locale::ZhCn, Some(&[0x61, 0x62, 0xe4, 0xbf])) {
        Err(LoadError::InvalidUtf8 { valid_up_to, error_len }) => {
            assert_eq!(valid_up_to, 2);
            assert_eq!(error_len, None);
        }
        other => panic!("unexpected {other:?}"),
    }
}

#[test]
fn english_locale_loads_only_the_fallback() {
    let (i18n, error) = I18n::load(
        Locale::EnUs,
        Some("common.save = Save".as_bytes()),
        Some("common.save = 保存".as_bytes()),
    );
    assert!(error.is_none());
    assert_eq!(i18n.locale(), Locale::EnUs);
    assert_eq!(i18n.tr(I18nKey::CommonSave), "Save");
}

#[test]
fn active_locale_loads_over_english() {
    let (i18n, error) = I18n::load(
        Locale::ZhCn,
        Some("common.save = Save\ncommon.next = Next".as_bytes()),
        Some("common.save = 保存".as_bytes()),
    );
    assert!(error.is_none());
    assert_eq!(i18n.tr(I18nKey::CommonSave), "保存");
    assert_eq!(i18n.tr(I18nKey::CommonNext), "Next");
}

#[test]
fn missing_active_resource_falls_back_to_english_and_reports() {
    let (i18n, error) = I18n::load(Locale::ZhCn, Some("common.save = Save".as_bytes()), None);
    match error {
        Some(LoadError::MissingResource(path)) => assert_eq!(path, "bundled/i18n/zh-CN.ftl"),
        other => panic!("unexpected {other:?}"),
    }
    assert_eq!(i18n.tr(I18nKey::CommonSave), "Save");
}

#[test]
fn unreadable_english_resource_leaves_keys() {
    let (i18n, error) = I18n::load(Locale::EnUs, Some(&[0xc3]), None);
    assert!(error.is_none());
    assert_eq!(i18n.tr(I18nKey::CommonSave), "common.save");
}

#[test]
fn reports_where_the_text_comes_from() {
    let i18n = I18n::from_catalogs_for_test(
        Locale::ZhCn,
        Catalog::parse("common.save = Save\ncommon.open = Open"),
        Some(Catalog::parse("common.save = 保存")),
    );
    assert_eq!(
        i18n.tr_with_source(I18nKey::CommonSave),
        ("保存".to_owned(), TextSource::Active)
    );
    assert_eq!(
        i18n.tr_with_source(I18nKey::CommonOpen),
        ("Open".to_owned(), TextSource::Fallback)
    );
    assert_eq!(
        i18n.tr_with_source(I18nKey::CommonClose),
        ("common.close".to_owned(), TextSource::Key)
    );
}

#[test]
fn lists_placeholders_left_unfilled() {
    let i18n = I18n::from_catalogs_for_test(
        Locale::ZhCn,
        Catalog::parse("settings.appearance.language.changed = {who} uses {language} {who}"),
        None,
    );
    let key = I18nKey::SettingsAppearanceLanguageChanged;
    assert_eq!(
        i18n.unfilled_arguments(key, &[("language", "English")]),
        vec!["who".to_owned(), "who".to_owned()]
    );
    assert!(i18n
        .unfilled_arguments(key, &[("language", "x"), ("who", "y")])
        .is_empty());
    assert!(i18n.unfilled_arguments(I18nKey::CommonSave, &[]).is_empty());
}

#[test]
fn load_errors_have_messages() {
    assert_eq!(
        LoadError::MissingResource("bundled/i18n/zh-CN.ftl".to_owned()).message(),
        "missing i18n resource bundled/i18n/zh-CN.ftl"
    );
    let bytes: &[u8] = &[0x61, 0xff, 0x3d];
    let std_error = std::str::from_utf8(bytes).unwrap_err();
    assert_eq!(
        LoadError::InvalidUtf8 { valid_up_to: 1, error_len: Some(1) }.message(),
        std_error.to_string()
    );
    assert_eq!(
        LoadError::InvalidUtf8 { valid_up_to: 1, error_len: Some(1) }.message(),
        "invalid utf-8 sequence of 1 bytes from index 1"
    );
    let bytes: &[u8] = &[0x61, 0x62, 0xe4, 0xbf];
    let std_error = std::str::from_utf8(bytes).unwrap_err();
    assert_eq!(
        LoadError::InvalidUtf8 { valid_up_to: 2, error_len: None }.message(),
        std_error.to_string()
    );
    assert_eq!(
        LoadError::InvalidUtf8 { valid_up_to: 1234, error_len: Some(3) }.message(),
        "invalid utf-8 sequence of 3 bytes from index 1234"
    );
}

#[test]
fn required_lists_every_key_once() {
    let keys = I18nKey::required();
    assert_eq!(keys.len(), 87);
    for (i, a) in keys.iter().enumerate() {
        for b in &keys[i + 1..] {
            assert_ne!(a, b);
            assert_ne!(a.as_str(), b.as_str());
        }
    }
    assert!(keys.contains(&I18nKey::CommonSave));
    assert!(keys.contains(&I18nKey::SettingsAiThinking));
}
