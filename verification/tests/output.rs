use vntyper::output::Output;

#[test]
fn output() {
    let x = Output::new("some string".to_owned()).encode();
    assert!(x == "{\"word\":\"some string\"}");
}

#[test]
fn encode() {
    let x = Output::new("some string".to_owned()).encode();
    assert_eq!(x, "{\"word\":\"some string\"}");
}

#[test]
fn encode_escapes() {
    let x = Output::new("a\"b\\c\nd".to_owned()).encode();
    assert_eq!(x, "{\"word\":\"a\\\"b\\\\c\\nd\"}");
}

#[test]
fn encode_control_chars() {
    let x = Output::new("\u{1}\u{1f}".to_owned()).encode();
    assert_eq!(x, "{\"word\":\"\\u0001\\u001f\"}");
}
