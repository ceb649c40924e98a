use my_music::text::{
    after_first_slash, chars_of, copy_strings, has_slash, push_decimal, push_signed_decimal,
    replace_slashes, string_of,
};

fn decimal(n: u64) -> String {
    let mut out = String::new();
    push_decimal(&mut out, n);
    out
}

fn signed(n: i64) -> String {
    let mut out = String::new();
    push_signed_decimal(&mut out, n);
    out
}

#[test]
fn decimal_rendering() {
    assert_eq!(decimal(0), "0");
    assert_eq!(decimal(7), "7");
    assert_eq!(decimal(10), "10");
    assert_eq!(decimal(1234567890), "1234567890");
    assert_eq!(decimal(u64::MAX), "18446744073709551615");
    let mut out = String::from("n=");
    push_decimal(&mut out, 604800);
    assert_eq!(out, "n=604800");
}

#[test]
fn signed_decimal_rendering() {
    assert_eq!(signed(0), "0");
    assert_eq!(signed(42), "42");
    assert_eq!(signed(-1), "-1");
    assert_eq!(signed(-120), "-120");
    assert_eq!(signed(i64::MAX), "9223372036854775807");
    assert_eq!(signed(i64::MIN), "-9223372036854775808");
}

#[test]
fn slashes_are_replaced() {
    assert_eq!(replace_slashes("AC/DC"), "AC~slash~DC");
    assert_eq!(replace_slashes("no slash"), "no slash");
    assert_eq!(replace_slashes(""), "");
    assert_eq!(replace_slashes("/"), "~slash~");
    assert_eq!(replace_slashes("a//b/"), "a~slash~~slash~b~slash~");
    assert_eq!(replace_slashes("Björk/Ünï"), "Björk~slash~Ünï");
}

#[test]
fn text_after_first_slash() {
    assert_eq!(after_first_slash("audio/flac"), Some("flac".to_string()));
    assert_eq!(after_first_slash("a/b/c"), Some("b/c".to_string()));
    assert_eq!(after_first_slash("audio/"), Some(String::new()));
    assert_eq!(after_first_slash("/x"), Some("x".to_string()));
    assert_eq!(after_first_slash("audio"), None);
    assert_eq!(after_first_slash(""), None);
}

#[test]
fn slash_detection() {
    assert!(has_slash("image/png"));
    assert!(has_slash("/"));
    assert!(!has_slash("imagepng"));
    assert!(!has_slash(""));
}

#[test]
fn characters_and_back() {
    let chars = chars_of("héllo");
    assert_eq!(chars, vec!['h', 'é', 'l', 'l', 'o']);
    assert_eq!(string_of(&chars, 0), "héllo");
    assert_eq!(string_of(&chars, 2), "llo");
    assert_eq!(string_of(&chars, 5), "");
}

#[test]
fn strings_are_copied() {
    let names = vec!["a".to_string(), "bc".to_string()];
    assert_eq!(copy_strings(&names), names);
    assert_eq!(copy_strings(&Vec::new()), Vec::<String>::new());
}
