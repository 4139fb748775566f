use netgauge::text::{chars_of, is_whitespace_char, split_chars, string_of, strip_nuls, trim_chars};

fn chars(text: &str) -> Vec<char> {
    text.chars().collect()
}

fn text(chars: &[char]) -> String {
    chars.iter().collect()
}

#[test]
fn whitespace_agrees_with_std_on_every_char() {
    let mut code: u32 = 0;
    while code <= 0x10FFFF {
        if let Some(c) = char::from_u32(code) {
            assert_eq!(is_whitespace_char(c), c.is_whitespace(), "U+{:04X}", code);
        }
        code += 1;
    }
}

#[test]
fn whitespace_named_cases() {
    assert!(is_whitespace_char(' '));
    assert!(is_whitespace_char('\t'));
    assert!(is_whitespace_char('\n'));
    assert!(is_whitespace_char('\r'));
    assert!(is_whitespace_char('\u{A0}'));
    assert!(is_whitespace_char('\u{3000}'));
    assert!(!is_whitespace_char('\0'));
    assert!(!is_whitespace_char(':'));
    assert!(!is_whitespace_char('0'));
    assert!(!is_whitespace_char('\u{200B}'));
}

#[test]
fn chars_and_strings_convert_both_ways() {
    assert_eq!(chars_of("a:b"), vec!['a', ':', 'b']);
    assert_eq!(chars_of(""), Vec::<char>::new());
    assert_eq!(chars_of("é↓"), vec!['é', '↓']);
    assert_eq!(string_of(&vec!['1', '.', '5']), "1.5");
    assert_eq!(string_of(&Vec::new()), "");
    assert_eq!(string_of(&chars_of("eth1:1500.0:3000.0")), "eth1:1500.0:3000.0");
}

#[test]
fn strip_nuls_removes_every_nul() {
    assert_eq!(text(&strip_nuls(&chars("a\0b\0\0c"))), "abc");
    assert_eq!(text(&strip_nuls(&chars("\0\0"))), "");
    assert_eq!(text(&strip_nuls(&chars("abc"))), "abc");
    assert_eq!(text(&strip_nuls(&chars(""))), "");
}

#[test]
fn trim_agrees_with_std() {
    let cases = [
        "",
        " ",
        "   \t\n",
        "abc",
        "  abc",
        "abc  ",
        " \t abc \r\n",
        " a b ",
        "\u{A0}x\u{3000}",
        "\0 x",
        "a\u{2003}",
    ];
    for case in cases {
        assert_eq!(text(&trim_chars(&chars(case))), case.trim(), "{:?}", case);
    }
}

#[test]
fn split_agrees_with_std() {
    let cases = ["", ":", "a", "a:b", "a:b:c", "a::c", ":a:", "::", "eth1:1500.0:3000.0:extra", "no separator"];
    for case in cases {
        let got: Vec<String> = split_chars(&chars(case), ':').iter().map(|part| text(part)).collect();
        let want: Vec<String> = case.split(':').map(|part| part.to_string()).collect();
        assert_eq!(got, want, "{:?}", case);
    }
}

#[test]
fn split_counts_one_piece_more_than_separators() {
    assert_eq!(split_chars(&chars(""), ':').len(), 1);
    assert_eq!(split_chars(&chars("a:b"), ':').len(), 2);
    assert_eq!(split_chars(&chars("a:b:c"), ':').len(), 3);
    assert_eq!(split_chars(&chars(":::"), ':').len(), 4);
}
