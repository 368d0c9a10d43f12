use warp_i18n::Locale;

#[test]
fn parses_supported_locale_identifiers() {
    assert_eq!(Locale::parse("en-US"), Some(Locale::EnUs));
    assert_eq!(Locale::parse("en-us"), Some(Locale::EnUs));
    assert_eq!(Locale::parse("zh-CN"), Some(Locale::ZhCn));
    assert_eq!(Locale::parse("zh_cn"), Some(Locale::ZhCn));
}

#[test]
fn rejects_unknown_locale_identifiers() {
    assert_eq!(Locale::parse("zh-TW"), None);
    assert_eq!(Locale::parse("fr-FR"), None);
    assert_eq!(Locale::parse(""), None);
}

#[test]
fn exposes_stable_ids_and_display_names() {
    assert_eq!(Locale::EnUs.as_str(), "en-US");
    assert_eq!(Locale::ZhCn.as_str(), "zh-CN");
    assert_eq!(Locale::EnUs.display_name(), "English");
    assert_eq!(Locale::ZhCn.display_name(), "简体中文");
}

#[test]
fn supported_locales_are_ordered_for_settings() {
    assert_eq!(Locale::supported(), &[Locale::EnUs, Locale::ZhCn]);
}

#[test]
fn accepts_short_and_script_identifiers_in_any_case() {
    assert_eq!(Locale::parse("EN"), Some(Locale::EnUs));
    assert_eq!(Locale::parse("en_US"), Some(Locale::EnUs));
    assert_eq!(Locale::parse("zh"), Some(Locale::ZhCn));
    assert_eq!(Locale::parse("ZH_Hans"), Some(Locale::ZhCn));
    assert_eq!(Locale::parse("zh-hans"), Some(Locale::ZhCn));
}

#[test]
fn rejects_identifiers_with_extra_text() {
    assert_eq!(Locale::parse(" en"), None);
    assert_eq!(Locale::parse("en-US "), None);
    assert_eq!(Locale::parse("en--us"), None);
    assert_eq!(Locale::parse("english"), None);
}

#[test]
fn stored_identifier_reads_back() {
    for locale in Locale::supported() {
        assert_eq!(Locale::parse(locale.as_str()), Some(*locale));
    }
}

#[test]
fn resource_paths_name_the_locale() {
    assert_eq!(Locale::EnUs.resource_path(), "bundled/i18n/en-US.ftl");
    assert_eq!(Locale::ZhCn.resource_path(), "bundled/i18n/zh-CN.ftl");
}

#[test]
fn english_is_default_and_fallback() {
    assert_eq!(Locale::default(), Locale::EnUs);
    assert_eq!(Locale::FALLBACK, Locale::EnUs);
}
