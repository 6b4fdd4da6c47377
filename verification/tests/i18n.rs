use flyline::i18n::{
    detect_language, localize_help_text, parse_language, translate, translate_fmt, zh_help_template,
    zh_help_translation, zh_help_translation_exact, zh_translation, Language,
};
use unicode_width::UnicodeWidthChar;

#[test]
fn detects_chinese_language_variants() {
    assert_eq!(parse_language("zh"), Some(Language::Zh));
    assert_eq!(parse_language("zh_CN"), Some(Language::Zh));
    assert_eq!(parse_language("zh-CN.UTF-8"), Some(Language::Zh));
}

#[test]
fn detects_english_and_default_locales() {
    assert_eq!(parse_language("en"), Some(Language::En));
    assert_eq!(parse_language("en_US.UTF-8"), Some(Language::En));
    assert_eq!(parse_language("C"), Some(Language::En));
    assert_eq!(parse_language("ja_JP"), None);
}

#[test]
fn unknown_keys_fall_back_to_english() {
    assert_eq!(translate(Language::En, "No such translation"), "No such translation");
    assert_eq!(translate(Language::Zh, "No such translation"), "No such translation");
}

#[test]
fn known_keys_translate_to_chinese() {
    assert_eq!(
        zh_translation("Press Enter to start the tutorial"),
        Some("按 Enter 开始教程")
    );
    assert_eq!(
        zh_help_translation("Show version information"),
        Some("显示版本信息")
    );
}

#[test]
fn right_click_menu_help_translations_match() {
    assert_eq!(
        zh_help_translation(
            "Enable or disable the right-click context menu. Disabled by default; enable it to show the copy/cut/paste menu when right-clicking"
        ),
        Some("启用或禁用右键上下文菜单。默认禁用；启用后右键点击会显示复制/剪切/粘贴菜单。")
    );
    assert_eq!(
        zh_help_translation(
            "Enable or disable the right-click context menu. Disabled by default"
        ),
        Some("启用或禁用右键上下文菜单。默认禁用。")
    );
}

#[test]
fn dump_character_widths_for_diagnostics() {
    for ch in ['你', '好', '。', '●', '✅', '⚠', '💡', '•', '—', '…', '·'] {
        println!(
            "U+{:04X} {} width={}",
            ch as u32,
            ch,
            ch.width().unwrap_or(0)
        );
    }
}

#[test]
fn completion_descriptions_have_chinese_translations() {
    let keys = [
        "Move cursor left",
        "Accept the currently selected suggestion",
        "Syntax highlighting for recognised shell commands (e.g. ls, git)",
        "Tab completion overlay is active and has at least one candidate",
        "Always true; the catch-all context for unconditional bindings",
        "Style for matched opening/closing bracket or quote pairs",
        "Run a Bash command",
        "⎘ Copy (buffer)",
        "↶ Undo",
        "alias: {}",
        "builtin: {}",
    ];
    for key in keys {
        assert!(
            zh_help_translation(key).is_some() || zh_translation(key).is_some(),
            "missing translation for: {key}"
        );
    }
}

#[test]
fn parse_language_ignores_ascii_case() {
    assert_eq!(parse_language("ZH_cn"), Some(Language::Zh));
    assert_eq!(parse_language("EN_GB"), Some(Language::En));
    assert_eq!(parse_language("posix"), Some(Language::En));
    assert_eq!(parse_language(""), None);
}

#[test]
fn flyline_lang_overrides_locale_variables() {
    assert_eq!(
        detect_language(Some("zh_CN"), Some("en_US.UTF-8"), None, Some("en_US")),
        Language::Zh
    );
    assert_eq!(
        detect_language(Some("en"), Some("zh_CN"), Some("zh_CN"), Some("zh_CN")),
        Language::En
    );
}

#[test]
fn unrecognised_settings_are_skipped_in_order() {
    assert_eq!(
        detect_language(Some("klingon"), Some("ja_JP"), Some("zh_TW"), Some("en_US")),
        Language::Zh
    );
    assert_eq!(detect_language(None, None, None, Some("zh")), Language::Zh);
    assert_eq!(detect_language(None, Some("de_DE"), None, None), Language::En);
}

#[test]
fn default_language_is_english() {
    assert_eq!(detect_language(None, None, None, None), Language::En);
}

#[test]
fn english_is_never_translated() {
    assert_eq!(
        translate(Language::En, "Press Enter to start the tutorial"),
        "Press Enter to start the tutorial"
    );
    assert_eq!(
        localize_help_text(Language::En, "Show version information"),
        "Show version information".to_string()
    );
}

#[test]
fn chinese_translation_of_known_key() {
    assert_eq!(
        translate(Language::Zh, "Press Enter to start the tutorial"),
        "按 Enter 开始教程"
    );
    assert_eq!(
        localize_help_text(Language::Zh, "Show version information"),
        "显示版本信息".to_string()
    );
}

#[test]
fn untranslated_help_text_is_kept() {
    assert_eq!(
        localize_help_text(Language::Zh, "Nothing matches this help text"),
        "Nothing matches this help text".to_string()
    );
}

#[test]
fn help_text_trailing_full_stop_is_ignored() {
    assert_eq!(zh_help_translation_exact("Show version information."), None);
    assert_eq!(
        zh_help_translation("Show version information."),
        Some("显示版本信息")
    );
    assert_eq!(zh_help_translation("Nothing matches."), None);
}

#[test]
fn help_template_is_chinese() {
    assert_eq!(
        zh_help_template(),
        "{before-help}{about-with-newline}\n用法：{usage}\n\n{all-args}{after-help}"
    );
}

#[test]
fn translate_fmt_substitutes_arguments_in_order() {
    let args = vec!["ls".to_string(), "extra".to_string()];
    assert_eq!(translate_fmt(Language::En, "alias: {}", &args), "alias: ls");
    let two = vec!["a".to_string(), "b".to_string()];
    assert_eq!(
        translate_fmt(Language::En, "first {} then {:?} done", &two),
        "first a then b done"
    );
}

#[test]
fn translate_fmt_keeps_placeholders_without_arguments() {
    let none: Vec<String> = Vec::new();
    assert_eq!(translate_fmt(Language::En, "x {} y {:?}", &none), "x {} y {:?}");
    let one = vec!["1".to_string()];
    assert_eq!(translate_fmt(Language::En, "{} and {}", &one), "1 and {}");
}

#[test]
fn translate_fmt_keeps_unclosed_brace() {
    let args = vec!["zzz".to_string()];
    assert_eq!(translate_fmt(Language::En, "open { brace", &args), "open { brace");
    assert_eq!(translate_fmt(Language::En, "no placeholders", &args), "no placeholders");
}

#[test]
fn translate_fmt_uses_the_translation() {
    let args = vec!["ls".to_string()];
    let zh = translate(Language::Zh, "alias: {}");
    let filled = translate_fmt(Language::Zh, "alias: {}", &args);
    assert_eq!(filled, zh.replacen("{}", "ls", 1));
    assert_ne!(zh, "alias: {}");
}

#[test]
fn translations_keep_their_placeholders() {
    assert!(flyline::i18n::table_keeps_placeholders(&flyline::zh_tables::ZH_TRANSLATIONS));
    assert!(flyline::i18n::help_translations_keep_placeholders());
}
