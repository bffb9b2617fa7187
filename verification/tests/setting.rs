use committed_fee::setting::{is_enabled, parse_setting, Setting, USE_COMMITTED_FEES_ENV};

#[test]
fn replay_is_off_unless_turned_on() {
    assert!(!is_enabled(None));
    assert!(!is_enabled(Some("")));
    assert!(!is_enabled(Some("2")));
    assert!(!is_enabled(Some("on")));
    assert!(!is_enabled(Some(" true")));
    assert!(is_enabled(Some("1")));
    assert!(is_enabled(Some("true")));
    assert!(is_enabled(Some("yes")));
}

#[test]
fn case_of_the_setting_does_not_matter() {
    assert_eq!(parse_setting("TRUE"), Setting::Enabled);
    assert_eq!(parse_setting("Yes"), Setting::Enabled);
    assert_eq!(parse_setting("False"), Setting::Disabled);
    assert_eq!(parse_setting("nO"), Setting::Disabled);
    assert_eq!(parse_setting("0"), Setting::Disabled);
    assert_eq!(parse_setting("ｔrue"), Setting::Invalid);
    assert_eq!(parse_setting("enabled"), Setting::Invalid);
}

#[test]
fn setting_has_its_variable() {
    assert_eq!(USE_COMMITTED_FEES_ENV, "SNOS_REPLAY_USE_COMMITTED_FEES");
}
