use indy_didresolver::text::{percent_decode, split_on};

#[test]
fn percent_decode_turns_escapes_into_characters() {
    assert_eq!(percent_decode("My%20Schema"), Some("My Schema".to_string()));
    assert_eq!(percent_decode("a%2fb%2Fc"), Some("a/b/c".to_string()));
    assert_eq!(percent_decode("plain"), Some("plain".to_string()));
    assert_eq!(percent_decode(""), Some(String::new()));
    assert_eq!(percent_decode("caf%C3%A9"), Some("café".to_string()));
    assert_eq!(percent_decode("é"), Some("é".to_string()));
}

#[test]
fn percent_decode_rejects_broken_escapes() {
    assert_eq!(percent_decode("%"), None);
    assert_eq!(percent_decode("ab%2"), None);
    assert_eq!(percent_decode("%zz"), None);
    assert_eq!(percent_decode("%FF"), None);
    assert_eq!(percent_decode("%C3"), None);
}

#[test]
fn split_on_keeps_empty_pieces() {
    assert_eq!(split_on("a/b//c", '/'), vec!["a", "b", "", "c"]);
    assert_eq!(split_on("", '/'), vec![""]);
    assert_eq!(split_on("abc", '/'), vec!["abc"]);
}
