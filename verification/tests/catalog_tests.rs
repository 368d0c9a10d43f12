use warp_i18n::placeholders::unfilled_placeholders;
use warp_i18n::catalog::format_template;
use warp_i18n::Catalog;

#[test]
fn parses_key_value_resources() {
    let catalog = Catalog::parse("common.save = Save\n# comment\ncommon.cancel = Cancel");
    assert_eq!(catalog.get("common.save"), Some("Save"));
    assert_eq!(catalog.get("common.cancel"), Some("Cancel"));
    assert_eq!(catalog.get("missing"), None);
}

#[test]
fn ignores_empty_lines_and_malformed_lines() {
    let catalog = Catalog::parse("\nmalformed\ncommon.open = Open\n");
    assert_eq!(catalog.get("common.open"), Some("Open"));
    assert_eq!(catalog.get("malformed"), None);
}

#[test]
fn interpolates_named_arguments() {
    let catalog = Catalog::parse("message = Hello {name}");
    assert_eq!(
        catalog.format("message", &[("name", "Warp")]),
        Some("Hello Warp".to_owned())
    );
}

#[test]
fn preserves_missing_interpolation_arguments() {
    let catalog = Catalog::parse("message = Hello {name}");
    assert_eq!(
        catalog.format("message", &[]),
        Some("Hello {name}".to_owned())
    );
}

#[test]
fn later_definition_of_a_key_wins() {
    let catalog = Catalog::parse("a = first\nb = other\na = second");
    assert_eq!(catalog.get("a"), Some("second"));
    assert_eq!(catalog.get("b"), Some("other"));
}

#[test]
fn splits_at_the_first_equals_sign_and_trims() {
    let catalog = Catalog::parse("  key.one \t=  a = b  \r\n=empty key\nno value =\n");
    assert_eq!(catalog.get("key.one"), Some("a = b"));
    assert_eq!(catalog.get(""), Some("empty key"));
    assert_eq!(catalog.get("no value"), Some(""));
    assert!(catalog.contains("no value"));
    assert!(!catalog.contains("key.one "));
}

#[test]
fn comment_marker_counts_only_at_line_start() {
    let catalog = Catalog::parse("   # hidden = yes\nshown = a # b\n#also = hidden");
    assert_eq!(catalog.get("# hidden"), None);
    assert_eq!(catalog.get("hidden"), None);
    assert_eq!(catalog.get("#also"), None);
    assert_eq!(catalog.get("shown"), Some("a # b"));
}

#[test]
fn trims_unicode_white_space() {
    let catalog = Catalog::parse("\u{3000}title\u{a0}=\u{2003}标题\u{3000}");
    assert_eq!(catalog.get("title"), Some("标题"));
}

#[test]
fn empty_resource_has_no_messages() {
    let catalog = Catalog::parse("");
    assert!(!catalog.contains(""));
    let default = Catalog::default();
    assert_eq!(default.get("common.save"), None);
    assert_eq!(default.format("common.save", &[]), None);
}

#[test]
fn format_of_missing_key_is_none() {
    let catalog = Catalog::parse("message = Hello {name}");
    assert_eq!(catalog.format("other", &[("name", "Warp")]), None);
}

#[test]
fn replaces_every_occurrence_left_to_right() {
    assert_eq!(
        format_template("{a}-{a}-{b}", &[("a", "x"), ("b", "y")]),
        "x-x-y"
    );
    assert_eq!(format_template("{{a}}", &[("a", "x")]), "{x}");
    assert_eq!(format_template("{a}{a}", &[("a", "{a}")]), "{a}{a}");
}

#[test]
fn arguments_apply_in_order() {
    // The value put in for `a` holds `{b}`, which the next argument fills.
    assert_eq!(
        format_template("<{a}>", &[("a", "{b}"), ("b", "z")]),
        "<z>"
    );
    assert_eq!(
        format_template("<{a}>", &[("b", "z"), ("a", "{b}")]),
        "<{b}>"
    );
}

#[test]
fn unfilled_placeholders_are_kept() {
    assert_eq!(format_template("Hi {name}", &[("other", "x")]), "Hi {name}");
    assert_eq!(format_template("", &[("a", "x")]), "");
    assert_eq!(format_template("{}", &[("", "empty")]), "empty");
}

#[test]
fn joined_resources_override_in_order() {
    let first = "a = 1\nb = 2";
    let second = "b = 3\nc = 4";
    let joined = Catalog::parse(&format!("{first}\n{second}"));
    assert_eq!(joined.get("a"), Some("1"));
    assert_eq!(joined.get("b"), Some("3"));
    assert_eq!(joined.get("c"), Some("4"));
}

#[test]
fn keys_and_messages_are_trimmed_and_keys_hold_no_equals() {
    let catalog = Catalog::parse("a=b=c\n x = y ");
    assert_eq!(catalog.get("a"), Some("b=c"));
    assert_eq!(catalog.get("a=b"), None);
    assert_eq!(catalog.get("x"), Some("y"));
}

#[test]
fn finds_placeholder_names_in_order() {
    assert_eq!(
        unfilled_placeholders("{a} and {b}, {{c}} {d", &[]),
        vec!["a".to_owned(), "b".to_owned(), "c".to_owned()]
    );
    assert_eq!(
        unfilled_placeholders("{a} and {b}", &[("b", "x")]),
        vec!["a".to_owned()]
    );
    assert_eq!(unfilled_placeholders("{}", &[]), vec!["".to_owned()]);
    assert!(unfilled_placeholders("no placeholders } {", &[]).is_empty());
}
