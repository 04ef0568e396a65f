use icoding_client::i18n::{is_neutral_locale, Language};

#[test]
fn detects_chinese_locale_variants() {
    assert_eq!(Language::from_locale("zh-CN"), Language::Chinese);
    assert_eq!(Language::from_locale("zh_TW.UTF-8"), Language::Chinese);
}

#[test]
fn defaults_non_chinese_locales_to_english() {
    assert_eq!(Language::from_locale("en-US"), Language::English);
    assert_eq!(Language::from_locale("C"), Language::English);
    assert_eq!(Language::from_locale(""), Language::English);
}

#[test]
fn select_picks_the_text_for_the_language() {
    assert_eq!(Language::English.select("Logged out.", "已退出登录。"), "Logged out.");
    assert_eq!(Language::Chinese.select("Logged out.", "已退出登录。"), "已退出登录。");
}

#[test]
fn neutral_locales_leave_the_choice_to_the_system() {
    assert!(is_neutral_locale("C"));
    assert!(is_neutral_locale("POSIX"));
    assert!(!is_neutral_locale("en_US.UTF-8"));
}

#[test]
fn environment_overrides_the_system_locale() {
    assert_eq!(
        Language::from_environment(Some("zh".to_string()), None, None, None),
        Some(Language::Chinese)
    );
    assert_eq!(Language::from_system_locale(Some("zh-Hans-CN".to_string())), Language::Chinese);
    assert_eq!(Language::from_system_locale(None), Language::English);
}
