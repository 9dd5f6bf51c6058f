use vntyper::input::Input;
use vntyper::input_method::InputMethod;

#[test]
fn non_vietnamese() {
    let input = Input::new("what".to_owned(), 's', InputMethod::telex());
    let output = input.output();
    assert_eq!(output, Err("what".to_owned()));
}

#[test]
fn vietnamese() {
    assert_eq!(
        Input::new("chau".to_owned(), 's', InputMethod::telex()).output(),
        Ok("cháu".to_owned())
    );
    assert_eq!(
        Input::new("sương".to_owned(), 's', InputMethod::telex()).output(),
        Ok("sướng".to_owned())
    );
    assert_eq!(
        Input::new("dm nha".to_owned(), 's', InputMethod::telex()).output(),
        Ok("dm nhá".to_owned())
    );
    assert_eq!(
        Input::new(".chau".to_owned(), 's', InputMethod::telex()).output(),
        Ok(".cháu".to_owned())
    );
    assert_eq!(
        Input::new("giao".to_owned(), 's', InputMethod::telex()).output(),
        Ok("giáo".to_owned())
    );
    assert_eq!(
        Input::new("gi".to_owned(), 'f', InputMethod::telex()).output(),
        Ok("gì".to_owned())
    );
    assert_eq!(
        Input::new("cháu".to_owned(), 's', InputMethod::telex()).output(),
        Err("chau".to_owned())
    );
    assert_eq!(
        Input::new("cháu!".to_owned(), 's', InputMethod::telex()).output(),
        Err("cháu!".to_owned())
    );

    assert_eq!(
        Input::new("u".to_owned(), 'w', InputMethod::telex()).output(),
        Ok("ư".to_owned())
    );
}
