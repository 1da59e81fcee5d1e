use alarm_clock::text::{push_decimal, take_first_line};

fn decimal_of(n: usize) -> String {
    let mut text = String::new();
    push_decimal(&mut text, n);
    text
}

#[test]
fn decimal_of_small_numbers() {
    assert_eq!(decimal_of(0), "0");
    assert_eq!(decimal_of(1), "1");
    assert_eq!(decimal_of(9), "9");
    assert_eq!(decimal_of(10), "10");
    assert_eq!(decimal_of(11), "11");
    assert_eq!(decimal_of(99), "99");
    assert_eq!(decimal_of(100), "100");
    assert_eq!(decimal_of(1234567890), "1234567890");
}

#[test]
fn decimal_agrees_with_std() {
    for n in 0..2000usize {
        assert_eq!(decimal_of(n), n.to_string());
    }
    assert_eq!(decimal_of(usize::MAX), usize::MAX.to_string());
}

#[test]
fn decimal_is_appended() {
    let mut text = String::from("id=");
    push_decimal(&mut text, 507);
    assert_eq!(text, "id=507");
    push_decimal(&mut text, 0);
    assert_eq!(text, "id=5070");
}

#[test]
fn first_line_of_text() {
    assert_eq!(take_first_line(""), "");
    assert_eq!(take_first_line("\n"), "");
    assert_eq!(take_first_line("title"), "title");
    assert_eq!(take_first_line("title\n"), "title");
    assert_eq!(take_first_line("title\nrest"), "title");
    assert_eq!(take_first_line("\ntitle"), "");
    assert_eq!(take_first_line("a\n\nb"), "a");
}

#[test]
fn first_line_keeps_other_characters() {
    assert_eq!(take_first_line("Été à l'île\r\nsuite"), "Été à l'île\r");
    assert_eq!(take_first_line("日本語 タイトル\nx"), "日本語 タイトル");
    assert_eq!(take_first_line("tab\there"), "tab\there");
}
