use vntyper::vword::Flag;
use vntyper::vword::Raw;
use vntyper::vword::Tone;
use vntyper::vword::VChar;
use vntyper::vword::VResult;
use vntyper::vword::VWord;

#[test]
fn test_vchar_to_string() {
    assert_eq!(VChar::Vovel(Raw::A, Flag::W, Tone::F).to_string(), "ằ");
    assert_eq!(VChar::Vovel(Raw::O, Flag::N, Tone::N).to_string(), "o");
    assert_eq!(VChar::Vovel(Raw::E, Flag::D, Tone::J).to_string(), "ệ");
    assert_eq!(&VChar::Consonant('x').to_string(), "x");
    assert_eq!(&VChar::Consonant('đ').to_string(), "đ");
    assert_eq!(&VChar::Invalid('_').to_string(), "_");
}

#[test]
fn test_vchar_toggle_tone() {
    let mut tmp = VChar::Vovel(Raw::A, Flag::N, Tone::F);
    assert_eq!(("á", tmp.toggle_tone(&Tone::S)), ("á", VResult::Applied));
    assert_eq!(tmp.to_string(), "á");

    let mut tmp = VChar::Vovel(Raw::O, Flag::W, Tone::N);
    assert_eq!(("ợ", tmp.toggle_tone(&Tone::J)), ("ợ", VResult::Applied));
    assert_eq!(tmp.to_string(), "ợ");

    let mut tmp = VChar::Vovel(Raw::U, Flag::N, Tone::S);
    assert_eq!(("u", tmp.toggle_tone(&Tone::S)), ("u", VResult::Unset));
    assert_eq!(tmp.to_string(), "u");

    let mut tmp = VChar::Vovel(Raw::E, Flag::D, Tone::N);
    assert_eq!(("ề", tmp.toggle_tone(&Tone::F)), ("ề", VResult::Applied));
    assert_eq!(tmp.to_string(), "ề");

    let mut tmp = VChar::Vovel(Raw::I, Flag::N, Tone::N);
    assert_eq!(("ĩ", tmp.toggle_tone(&Tone::X)), ("ĩ", VResult::Applied));
    assert_eq!(tmp.to_string(), "ĩ");

    let mut tmp = VChar::Vovel(Raw::A, Flag::D, Tone::S);
    assert_eq!(("ẩ", tmp.toggle_tone(&Tone::R)), ("ẩ", VResult::Applied));
    assert_eq!(tmp.to_string(), "ẩ");
}

#[test]
fn test_vword_parse() {
    assert_eq!(
        VWord::from_str("Ệ"),
        VWord::new_raw(vec![VChar::Vovel(Raw::E, Flag::D, Tone::J)], vec![true])
    );
    assert_eq!(
        VWord::from_str("a"),
        VWord::new_raw(vec![VChar::Vovel(Raw::A, Flag::N, Tone::N)], vec![false])
    );
    assert_eq!(
        VWord::from_str("İ"),
        VWord::new_raw(vec![VChar::Invalid('İ')], vec![false])
    );
    assert_eq!(
        VWord::from_str("d"),
        VWord::new_raw(vec![VChar::Consonant('d')], vec![false])
    );
    assert_eq!(
        VWord::from_str("Đ"),
        VWord::new_raw(vec![VChar::Consonant('đ')], vec![true])
    );

    assert_eq!(VWord::from_str(".cháu").to_string(), ".cháu");
    assert_eq!(VWord::from_str(" _asx").to_string(), " _asx");
    assert_eq!(VWord::from_str("tiếng ViỆt").to_string(), "tiếng ViỆt");
    assert_eq!(VWord::from_str("ĐộNg").to_string(), "ĐộNg");
}

#[test]
fn test_vword_toggle_tone() {
    // single vowel
    let mut tmp = VWord::from_str("cha");
    assert_eq!(("cha", tmp.toggle_tone(&Tone::R)), ("cha", VResult::Applied));
    assert_eq!(tmp.to_string(), "chả");

    let mut tmp = VWord::from_str("chản");
    assert_eq!(("chản", tmp.toggle_tone(&Tone::S)), ("chản", VResult::Applied));
    assert_eq!(tmp.to_string(), "chán");

    let mut tmp = VWord::from_str("quy");
    assert_eq!(("quy", tmp.toggle_tone(&Tone::S)), ("quy", VResult::Applied));
    assert_eq!(tmp.to_string(), "quý");

    let mut tmp = VWord::from_str("u");
    assert_eq!(("u", tmp.toggle_tone(&Tone::S)), ("u", VResult::Applied));
    assert_eq!(tmp.to_string(), "ú");

    let mut tmp = VWord::from_str("qu");
    assert_eq!(("qu", tmp.toggle_tone(&Tone::S)), ("qu", VResult::NoTarget));
    assert_eq!(tmp.to_string(), "qu");

    let mut tmp = VWord::from_str("chả");
    assert_eq!(("chả", tmp.toggle_tone(&Tone::R)), ("chả", VResult::Unset));
    assert_eq!(tmp.to_string(), "cha");

    // double vowel
    let mut tmp = VWord::from_str("tiêu");
    assert_eq!(("tiêu", tmp.toggle_tone(&Tone::S)), ("tiêu", VResult::Applied));
    assert_eq!(tmp.to_string(), "tiếu");

    let mut tmp = VWord::from_str("yêu");
    assert_eq!(("yêu", tmp.toggle_tone(&Tone::S)), ("yêu", VResult::Applied));
    assert_eq!(tmp.to_string(), "yếu");

    let mut tmp = VWord::from_str("uông");
    assert_eq!(("uông", tmp.toggle_tone(&Tone::S)), ("uông", VResult::Applied));
    assert_eq!(tmp.to_string(), "uống");

    let mut tmp = VWord::from_str("ua");
    assert_eq!(("ua", tmp.toggle_tone(&Tone::R)), ("ua", VResult::Applied));
    assert_eq!(tmp.to_string(), "ủa");

    let mut tmp = VWord::from_str("sương");
    assert_eq!(("sương", tmp.toggle_tone(&Tone::S)), ("sương", VResult::Applied));
    assert_eq!(tmp.to_string(), "sướng");

    let mut tmp = VWord::from_str("ia");
    assert_eq!(("ia", tmp.toggle_tone(&Tone::R)), ("ia", VResult::Applied));
    assert_eq!(tmp.to_string(), "ỉa");

    let mut tmp = VWord::from_str("hôi");
    assert_eq!(("hôi", tmp.toggle_tone(&Tone::J)), ("hôi", VResult::Applied));
    assert_eq!(tmp.to_string(), "hội");

    let mut tmp = VWord::from_str("ưa");
    assert_eq!(("ưa", tmp.toggle_tone(&Tone::F)), ("ưa", VResult::Applied));
    assert_eq!(tmp.to_string(), "ừa");

    // other cases
    let mut tmp = VWord::from_str("thuy");
    assert_eq!(("thuy", tmp.toggle_tone(&Tone::S)), ("thuy", VResult::Applied));
    assert_eq!(tmp.to_string(), "thúy");

    let mut tmp = VWord::from_str("toan");
    assert_eq!(("toan", tmp.toggle_tone(&Tone::S)), ("toan", VResult::Applied));
    assert_eq!(tmp.to_string(), "toán");

    let mut tmp = VWord::from_str("oan");
    assert_eq!(("oan", tmp.toggle_tone(&Tone::S)), ("oan", VResult::Applied));
    assert_eq!(tmp.to_string(), "oán");

    let mut tmp = VWord::from_str("tau");
    assert_eq!(("tau", tmp.toggle_tone(&Tone::F)), ("tau", VResult::Applied));
    assert_eq!(tmp.to_string(), "tàu");

    let mut tmp = VWord::from_str("ay");
    assert_eq!(("ay", tmp.toggle_tone(&Tone::R)), ("ay", VResult::Applied));
    assert_eq!(tmp.to_string(), "ảy");

    let mut tmp = VWord::from_str("nguyên");
    assert_eq!(("nguyên", tmp.toggle_tone(&Tone::X)), ("nguyên", VResult::Applied));
    assert_eq!(tmp.to_string(), "nguyễn");

    let mut tmp = VWord::from_str(".chau");
    assert_eq!((".chau", tmp.toggle_tone(&Tone::S)), (".chau", VResult::Applied));
    assert_eq!(tmp.to_string(), ".cháu");

    let mut tmp = VWord::from_str("gi");
    assert_eq!(("gi", tmp.toggle_tone(&Tone::F)), ("gi", VResult::Applied));
    assert_eq!(tmp.to_string(), "gì");

    let mut tmp = VWord::from_str("dxf");
    assert_eq!(("dxf", tmp.toggle_tone(&Tone::S)), ("dxf", VResult::NoTarget));
    assert_eq!(tmp.to_string(), "dxf");

    let mut tmp = VWord::from_str("có");
    assert_eq!(("có", tmp.toggle_tone(&Tone::S)), ("có", VResult::Unset));
    assert_eq!(tmp.to_string(), "co");
}

#[test]
fn test_vword_toggle() {
    let mut tmp = VWord::from_str("x");
    assert_eq!(tmp.toggle_d(), VResult::NoTarget);
    assert_eq!(tmp.to_string(), "x");

    let mut tmp = VWord::from_str("dang");
    assert_eq!(tmp.toggle_d(), VResult::Applied);
    assert_eq!(tmp.to_string(), "đang");

    let mut tmp = VWord::from_str("đang");
    assert_eq!(tmp.toggle_d(), VResult::Unset);
    assert_eq!(tmp.to_string(), "dang");

    let mut tmp = VWord::from_str("e");
    assert_eq!(tmp.toggle_vovel(&Raw::E, &Flag::D), VResult::Applied);
    assert_eq!(tmp.to_string(), "ê");

    let mut tmp = VWord::from_str("â");
    assert_eq!(tmp.toggle_vovel(&Raw::A, &Flag::D), VResult::Unset);
    assert_eq!(tmp.to_string(), "a");

    let mut tmp = VWord::from_str("ố");
    assert_eq!(tmp.toggle_vovel(&Raw::O, &Flag::W), VResult::Applied);
    assert_eq!(tmp.to_string(), "ớ");

    let mut tmp = VWord::from_str("ồ");
    assert_eq!(tmp.toggle_vovel(&Raw::O, &Flag::D), VResult::Unset);
    assert_eq!(tmp.to_string(), "ò");

    let mut tmp = VWord::from_str("u");
    assert_eq!(tmp.toggle_vovel(&Raw::U, &Flag::W), VResult::Applied);
    assert_eq!(tmp.to_string(), "ư");

    let mut tmp = VWord::from_str("ư");
    assert_eq!(tmp.toggle_vovel(&Raw::U, &Flag::W), VResult::Unset);
    assert_eq!(tmp.to_string(), "u");

    let mut tmp = VWord::from_str("o");
    assert_eq!(tmp.toggle_vovel(&Raw::O, &Flag::W), VResult::Applied);
    assert_eq!(tmp.to_string(), "ơ");

    let mut tmp = VWord::from_str("ơ");
    assert_eq!(tmp.toggle_vovel(&Raw::O, &Flag::W), VResult::Unset);
    assert_eq!(tmp.to_string(), "o");
}
