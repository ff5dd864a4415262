use cargo_credential_netrc::text::{
    chars_of, digit, push_decimal, push_hexadecimal, same_text, text_between,
};

#[test]
fn characters_in_order() {
    assert_eq!(chars_of(""), Vec::<char>::new());
    assert_eq!(chars_of("a\u{e9}\u{1F511}z"), vec!['a', '\u{e9}', '\u{1F511}', 'z']);
}

#[test]
fn same_text_compares_characters() {
    assert!(same_text("", ""));
    assert!(same_text("login", "login"));
    assert!(!same_text("login", "logim"));
    assert!(!same_text("login", "logi"));
    assert!(!same_text("login", "login "));
    assert!(!same_text("Login", "login"));
}

#[test]
fn text_between_two_indices() {
    let chars = chars_of("h\u{e9}llo world");
    assert_eq!(text_between(&chars, 0, 5), "h\u{e9}llo");
    assert_eq!(text_between(&chars, 6, 11), "world");
    assert_eq!(text_between(&chars, 3, 3), "");
    assert_eq!(text_between(&chars, 0, 11), "h\u{e9}llo world");
}

#[test]
fn digits() {
    let all: String = (0..16).map(digit).collect();
    assert_eq!(all, "0123456789abcdef");
}

fn decimal(n: usize) -> String {
    let mut out = String::from("n=");
    push_decimal(&mut out, n);
    out
}

fn hexadecimal(n: usize) -> String {
    let mut out = String::from("x=");
    push_hexadecimal(&mut out, n);
    out
}

#[test]
fn decimal_numbers() {
    assert_eq!(decimal(0), "n=0");
    assert_eq!(decimal(7), "n=7");
    assert_eq!(decimal(10), "n=10");
    assert_eq!(decimal(255), "n=255");
    assert_eq!(decimal(1000), "n=1000");
    assert_eq!(decimal(4294967295), "n=4294967295");
    assert_eq!(decimal(usize::MAX), format!("n={}", usize::MAX));
}

#[test]
fn hexadecimal_numbers() {
    assert_eq!(hexadecimal(0), "x=0");
    assert_eq!(hexadecimal(15), "x=f");
    assert_eq!(hexadecimal(16), "x=10");
    assert_eq!(hexadecimal(0xdb8), "x=db8");
    assert_eq!(hexadecimal(0xffff), "x=ffff");
    assert_eq!(hexadecimal(0x1000), "x=1000");
    assert_eq!(hexadecimal(usize::MAX), format!("x={:x}", usize::MAX));
}

#[test]
fn push_appends_one_character() {
    let mut text = String::from("ab");
    text.push('c');
    assert_eq!(text, "abc");
}
