use vntyper::input::Input;
use vntyper::input_method::InputMethod;
use vntyper::input_method::KeyType;
use vntyper::modifier::Modifier;
use vntyper::vword::consonants;
use vntyper::vword::Flag;
use vntyper::vword::Raw;
use vntyper::vword::Tone;
use vntyper::vword::VChar;
use vntyper::vword::VResult;
use vntyper::vword::VWord;

#[test]
fn round_trip_mixed_text() {
    assert_eq!(VWord::from_str("").to_string(), "");
    assert_eq!(VWord::from_str("Tiếng Việt 123!").to_string(), "Tiếng Việt 123!");
    assert_eq!(VWord::from_str("SƯỚNG quá đi").to_string(), "SƯỚNG quá đi");
    assert_eq!(
        VWord::from_str("aàáảãạ AĂÂEÊIOÔƠUƯY ,.;:-_()[]{}#@/\\\"'").to_string(),
        "aàáảãạ AĂÂEÊIOÔƠUƯY ,.;:-_()[]{}#@/\\\"'"
    );
}

#[test]
fn toggle_tone_twice_restores() {
    let mut w = VWord::from_str("cha");
    assert_eq!(w.toggle_tone(&Tone::R), VResult::Applied);
    assert_eq!(w.to_string(), "chả");
    assert_eq!(w.toggle_tone(&Tone::R), VResult::Unset);
    assert_eq!(w.to_string(), "cha");

    let mut w = VWord::from_str("sương");
    assert_eq!(w.toggle_tone(&Tone::S), VResult::Applied);
    assert_eq!(w.to_string(), "sướng");
    assert_eq!(w.toggle_tone(&Tone::S), VResult::Unset);
    assert_eq!(w.to_string(), "sương");
}

#[test]
fn toggle_vovel_twice_restores() {
    let mut w = VWord::from_str("o");
    assert_eq!(w.toggle_vovel(&Raw::O, &Flag::W), VResult::Applied);
    assert_eq!(w.to_string(), "ơ");
    assert_eq!(w.toggle_vovel(&Raw::O, &Flag::W), VResult::Unset);
    assert_eq!(w.to_string(), "o");
}

#[test]
fn toggle_d_twice_restores() {
    let mut w = VWord::from_str("dang");
    assert_eq!(w.toggle_d(), VResult::Applied);
    assert_eq!(w.to_string(), "đang");
    assert_eq!(w.toggle_d(), VResult::Unset);
    assert_eq!(w.to_string(), "dang");

    let mut w = VWord::from_str("x");
    assert_eq!(w.toggle_d(), VResult::NoTarget);
    assert_eq!(w.to_string(), "x");
}

#[test]
fn foreign_case_folding() {
    // a character outside the library's own alphabet goes through the
    // standard case functions: Σ folds to σ with the case flag kept
    assert_eq!(
        VWord::from_str("Σ"),
        VWord::new_raw(vec![VChar::Invalid('σ')], vec![true])
    );
    assert_eq!(VWord::from_str("Σ").to_string(), "Σ");
}

#[test]
fn foreign_letters_stay_in_word() {
    // λ is alphabetic, so it stays part of the candidate word, which is
    // then no legal syllable
    let out = Input::new("λa".to_owned(), 's', InputMethod::telex()).output();
    assert_eq!(out, Err("λa".to_owned()));
}

#[test]
fn uppercase_modifier_folds() {
    let out = Input::new("chau".to_owned(), 'S', InputMethod::telex()).output();
    assert_eq!(out, Ok("cháu".to_owned()));
}

#[test]
fn telex_key_actions() {
    let telex = InputMethod::telex();
    assert_eq!(
        telex.get_type('w'),
        vec![
            KeyType::Toggle(Raw::A, Flag::W),
            KeyType::Toggle(Raw::O, Flag::W),
            KeyType::Toggle(Raw::U, Flag::W),
            KeyType::NoAction,
        ]
    );
    assert_eq!(
        telex.get_type('d'),
        vec![KeyType::ToggleD, KeyType::NoAction]
    );
    assert_eq!(telex.get_type('z'), vec![KeyType::NoAction]);
    assert_eq!(
        InputMethod::new(['a', 'w', 'e', 'o', 'w', 'w', 'd', 's', 'f', 'r', 'x', 'j']),
        telex
    );
}

#[test]
fn consonant_table() {
    let cs = consonants();
    assert_eq!(
        cs,
        vec!['b', 'c', 'd', 'đ', 'g', 'h', 'k', 'l', 'm', 'n', 'p', 'q', 'r', 's', 't', 'v', 'x']
    );
}

#[test]
fn modifier_keeps_key() {
    assert_eq!(Modifier::new('w').key, 'w');
}

#[test]
fn qu_exception_consumes_sole_vowel() {
    let out = Input::new("qu".to_owned(), 's', InputMethod::telex()).output();
    assert_eq!(out, Err("qu".to_owned()));
}
