use gpui_ui_kit::i18n::{all_keys, I18nState, Language, TranslationKey, Translations};

#[test]
fn language_metadata() {
    assert_eq!(Language::all().len(), 5);
    assert_eq!(Language::all()[0], Language::English);
    assert_eq!(Language::default(), Language::English);
    assert_eq!(Language::French.native_name(), "Francais");
    assert_eq!(Language::Japanese.code(), "ja");
    assert_eq!(Language::English.flag(), "GB");
    assert_eq!(Language::German.code(), "de");
    assert_eq!(Language::Spanish.flag(), "ES");
}

#[test]
fn built_in_texts() {
    let t = Translations::new();
    assert_eq!(t.get(Language::English, TranslationKey::AppTitle), "GPUI UI Kit Showcase");
    assert_eq!(t.get(Language::French, TranslationKey::MenuFile), "Fichier");
    assert_eq!(t.get(Language::German, TranslationKey::ButtonCancel), "Abbrechen");
    assert_eq!(t.get(Language::Spanish, TranslationKey::ThemeDark), "Oscuro");
    assert_eq!(t.get(Language::Japanese, TranslationKey::AccordionFeatures), "\u{6a5f}\u{80fd}");
}

#[test]
fn every_key_has_a_text_in_every_language() {
    let t = Translations::default();
    for lang in Language::all() {
        for key in all_keys() {
            let s = t.get(lang, key);
            assert_ne!(s, "???");
            assert!(!s.is_empty());
        }
    }
    assert_eq!(all_keys().len(), 84);
}

#[test]
fn missing_text_falls_back_to_english_then_marks() {
    let mut t = Translations::new();
    let french_title = t.get(Language::French, TranslationKey::AppTitle);
    assert_ne!(french_title, "GPUI UI Kit Showcase");
    t.translations.retain(|slot, _| *slot != 100);
    assert_eq!(t.get(Language::French, TranslationKey::AppTitle), "GPUI UI Kit Showcase");
    t.translations.retain(|slot, _| *slot != 0);
    assert_eq!(t.get(Language::French, TranslationKey::AppTitle), "???");
}

#[test]
fn state_follows_the_language() {
    let mut s = I18nState::new();
    assert_eq!(s.language, Language::English);
    assert_eq!(s.t(TranslationKey::MenuQuit), "Quit");
    s.set_language(Language::German);
    assert_eq!(s.language, Language::German);
    assert_eq!(s.t(TranslationKey::MenuQuit), "Beenden");
    let d = I18nState::default();
    assert_eq!(d.t(TranslationKey::ButtonSave), "Save");
}
