use plz::i18n::{first_supported, interface_lang, resolve, Lang};

#[test]
fn a_locale_tag_names_its_language_in_the_primary_subtag() {
    // The encoding and the modifier are noise and must not block the match.
    assert_eq!(Lang::from_tag("ru_RU.UTF-8"), Some(Lang::Ru));
    assert_eq!(Lang::from_tag("es_ES@euro"), Some(Lang::Es));
    assert_eq!(Lang::from_tag("de_DE.UTF-8"), Some(Lang::De));
    // BCP 47 with a dash, which is what Windows reports.
    assert_eq!(Lang::from_tag("fr-CA"), Some(Lang::Fr));
    assert_eq!(Lang::from_tag("DE"), Some(Lang::De));
}

#[test]
fn a_language_plz_does_not_ship_is_not_recognised() {
    for tag in ["C", "POSIX", "", "   ", "it_IT.UTF-8", "fi_FI", "tt_RU", "@euro"] {
        assert_eq!(Lang::from_tag(tag), None, "{tag}");
    }
}

#[test]
fn a_language_list_takes_the_first_supported_entry() {
    // GNU sets LANGUAGE to a priority list; reading only its head would give
    // English to someone who asked for Italian first, German second.
    assert_eq!(first_supported("it:de_DE:en_US"), Some(Lang::De));
    assert_eq!(first_supported("it,fi"), None);
}

#[test]
fn an_override_wins_over_the_detected_language() {
    assert_eq!(resolve(Some("es"), Some("ru_RU.UTF-8")), Lang::Es);
    // An unsupported override is not a veto on the OS.
    assert_eq!(resolve(Some("it"), Some("ru_RU.UTF-8")), Lang::Ru);
}

#[test]
fn an_undetectable_or_unsupported_language_falls_back_to_english() {
    assert_eq!(resolve(None, None), Lang::En);
    assert_eq!(resolve(None, Some("C")), Lang::En);
    assert_eq!(resolve(None, Some("it_IT.UTF-8")), Lang::En);
    assert_eq!(resolve(Some(""), Some("fi_FI")), Lang::En);
}

#[test]
fn every_language_has_its_own_code() {
    let codes: Vec<&str> = Lang::ALL.iter().map(|l| l.code()).collect();
    assert_eq!(codes, vec!["en", "ru", "es", "fr", "de"]);
    for lang in Lang::ALL {
        assert_eq!(Lang::from_tag(lang.code()), Some(lang));
    }
}

#[test]
fn plz_lang_then_the_config_then_the_os_decide_the_language() {
    assert_eq!(interface_lang(Some("de"), Some("fr"), Some("ru_RU.UTF-8")), Lang::De);
    // An unsupported override does not hide the pinned language.
    assert_eq!(interface_lang(Some("it"), Some("fr"), Some("ru_RU.UTF-8")), Lang::Fr);
    // `auto` leaves the choice to the OS.
    assert_eq!(interface_lang(None, Some("auto"), Some("es_ES@euro")), Lang::Es);
    assert_eq!(interface_lang(None, None, Some("C")), Lang::En);
    assert_eq!(interface_lang(None, None, None), Lang::En);
    assert_eq!(Lang::Ru.name(), "Russian");
}
