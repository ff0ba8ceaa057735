use plz::input::line_answer;
use plz::input::chosen_index;
use plz::input::{SecretInput, SecretStep};
use plz::ui::{Key, KeyCode, Modifiers};
use plz::i18n::Lang;
use plz::input::is_affirmative;

#[test]
fn the_english_yes_is_accepted_in_every_language() {
    // The layout in front of the user is not always the one their language
    // implies, and `y` is not a word in any of the others.
    for lang in Lang::ALL {
        assert!(is_affirmative("y", lang), "{lang:?}");
        assert!(is_affirmative(" YES \n", lang), "{lang:?}");
    }
}

#[test]
fn a_localized_yes_is_accepted_in_its_own_language() {
    // The uppercase Cyrillic form is the one ASCII lowercasing would leave
    // alone and reject; `si` is `sí` typed without the accent.
    assert!(is_affirmative("Д", Lang::Ru));
    assert!(is_affirmative("да", Lang::Ru));
    assert!(is_affirmative("si", Lang::Es));
    assert!(is_affirmative("SÍ", Lang::Es));
    assert!(is_affirmative("oui", Lang::Fr));
    assert!(is_affirmative("Ja", Lang::De));
}

#[test]
fn a_yes_from_another_language_is_not_accepted() {
    // Otherwise `o` — French for yes — would confirm for a Spanish user.
    assert!(!is_affirmative("oui", Lang::Es));
    assert!(!is_affirmative("да", Lang::De));
    assert!(!is_affirmative("ja", Lang::Ru));
}

#[test]
fn everything_else_is_a_no() {
    for lang in Lang::ALL {
        for answer in ["", "  ", "n", "no", "нет", "non", "nein", "\n", "yep"] {
            assert!(!is_affirmative(answer, lang), "{lang:?}/{answer}");
        }
    }
}

#[test]
fn an_empty_line_takes_the_default() {
    assert_eq!(line_answer("  \n", Some("https://x")), "https://x");
    assert_eq!(line_answer("\n", None), "");
    assert_eq!(line_answer(" m1 \n", Some("m0")), "m1");
}

#[test]
fn a_choice_is_a_number_from_the_list() {
    assert_eq!(chosen_index("1", 5), Some(0));
    assert_eq!(chosen_index("5", 5), Some(4));
    assert_eq!(chosen_index("0", 5), None);
    assert_eq!(chosen_index("6", 5), None);
    assert_eq!(chosen_index("two", 5), None);
}

#[test]
fn a_secret_is_typed_blind_and_trimmed() {
    let plain = |code| Key { code, modifiers: Modifiers::none() };
    let mut input = SecretInput::new();
    for c in " sk-1x".chars() {
        assert!(matches!(input.key(plain(KeyCode::Char(c))), SecretStep::Continue));
    }
    input.key(plain(KeyCode::Backspace));
    match input.key(plain(KeyCode::Enter)) {
        SecretStep::Done(secret) => assert_eq!(secret, "sk-1"),
        _ => panic!("Enter ends the secret"),
    }
    assert!(matches!(input.key(plain(KeyCode::Esc)), SecretStep::Cancelled));
    let ctrl_c = Key { code: KeyCode::Char('c'), modifiers: Modifiers::control() };
    assert!(matches!(input.key(ctrl_c), SecretStep::Aborted));
}
