use polkacli::error::CustomError;

#[test]
fn text_errors_carry_their_message() {
    let from_str = CustomError::from("file not found");
    assert_eq!(from_str.message(), "file not found");

    let from_string = CustomError::from("bad input".to_string());
    assert_eq!(from_string.message(), "bad input");
}

#[test]
fn empty_messages_are_kept() {
    let e = CustomError::from("");
    assert_eq!(e.message(), "");
}
