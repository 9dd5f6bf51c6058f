use vntyper::util::is_vietnamese;
use vntyper::vword::VWord;

#[test]
fn test_is_vietnamese() {
    // nonsense
    assert_eq!(("hi!", is_vietnamese(&VWord::from_str("hi!"))), ("hi!", false));
    assert_eq!((" x", is_vietnamese(&VWord::from_str(" x"))), (" x", false));
    // foreign words
    assert_eq!(("way", is_vietnamese(&VWord::from_str("way"))), ("way", false));
    assert_eq!(("fact", is_vietnamese(&VWord::from_str("fact"))), ("fact", false));
    assert_eq!(("las", is_vietnamese(&VWord::from_str("las"))), ("las", false));
    assert_eq!(("sheet", is_vietnamese(&VWord::from_str("sheet"))), ("sheet", false));
    assert_eq!(("cor", is_vietnamese(&VWord::from_str("cor"))), ("cor", false));
    assert_eq!(("xas", is_vietnamese(&VWord::from_str("xas"))), ("xas", false));
    assert_eq!(("phugn", is_vietnamese(&VWord::from_str("phugn"))), ("phugn", false));

    assert_eq!(("giao", is_vietnamese(&VWord::from_str("giao"))), ("giao", true));
}
