use kilo_airdrop::lines::{is_whitespace, read_lines};

fn by_std(text: &str) -> Vec<String> {
    text.split('\n')
        .map(|line| line.trim())
        .filter(|line| !line.is_empty())
        .map(|line| line.to_string())
        .collect()
}

#[test]
fn whitespace_agrees_with_std_on_every_character() {
    for code in 0..=0x10FFFFu32 {
        if let Some(c) = char::from_u32(code) {
            assert_eq!(is_whitespace(c), c.is_whitespace(), "U+{:04X}", code);
        }
    }
}

#[test]
fn whitespace_examples() {
    assert!(is_whitespace(' '));
    assert!(is_whitespace('\t'));
    assert!(is_whitespace('\n'));
    assert!(is_whitespace('\r'));
    assert!(is_whitespace('\u{00A0}'));
    assert!(is_whitespace('\u{3000}'));
    assert!(!is_whitespace('a'));
    assert!(!is_whitespace('0'));
    assert!(!is_whitespace('\u{200B}'));
    assert!(!is_whitespace('\u{0}'));
}

#[test]
fn one_address_per_line() {
    assert_eq!(read_lines("0xaaa\n0xbbb\n0xccc\n"), vec!["0xaaa", "0xbbb", "0xccc"]);
}

#[test]
fn last_line_needs_no_line_feed() {
    assert_eq!(read_lines("0xaaa\n0xbbb"), vec!["0xaaa", "0xbbb"]);
}

#[test]
fn empty_text_has_no_lines() {
    assert_eq!(read_lines(""), Vec::<String>::new());
}

#[test]
fn blank_lines_are_dropped() {
    assert_eq!(read_lines("\n\n0xaaa\n\n\n0xbbb\n\n"), vec!["0xaaa", "0xbbb"]);
}

#[test]
fn lines_of_white_space_are_dropped() {
    assert_eq!(read_lines("   \n\t\t\n0xaaa\n \u{00A0} \n"), vec!["0xaaa"]);
}

#[test]
fn only_blank_lines_give_nothing() {
    assert_eq!(read_lines("\n \n\t\n\r\n"), Vec::<String>::new());
}

#[test]
fn lines_are_trimmed_on_both_sides() {
    assert_eq!(read_lines("  0xaaa  \n\t0xbbb\t\n"), vec!["0xaaa", "0xbbb"]);
}

#[test]
fn carriage_returns_are_trimmed() {
    assert_eq!(read_lines("0xaaa\r\n0xbbb\r\n"), vec!["0xaaa", "0xbbb"]);
}

#[test]
fn inner_white_space_is_kept() {
    assert_eq!(read_lines("  a  b \n"), vec!["a  b"]);
}

#[test]
fn order_and_duplicates_are_kept() {
    assert_eq!(read_lines("b\na\nb\n"), vec!["b", "a", "b"]);
}

#[test]
fn nothing_else_is_filtered() {
    assert_eq!(read_lines("# note\n!!\n127.0.0.1:8080\n"), vec!["# note", "!!", "127.0.0.1:8080"]);
}

#[test]
fn characters_beyond_ascii_are_kept() {
    assert_eq!(read_lines("\u{3000}адрес\u{2003}\n héllo \n"), vec!["адрес", "héllo"]);
}

#[test]
fn agrees_with_std_on_samples() {
    let samples = [
        "",
        "\n",
        "a",
        "a\n",
        "\na",
        " a \n b \n\n c",
        "one two\r\nthree\r\n\r\n",
        "\u{85}x\u{85}\n\u{2028}y\u{2029}\n",
        "x\u{0B}\u{0C}\n\u{1680}\n z",
        "tab\tinside\n\ttab outside\t",
    ];
    for sample in samples {
        assert_eq!(read_lines(sample), by_std(sample), "{:?}", sample);
    }
}

#[test]
fn line_reader_is_at_the_root_of_the_crate() {
    assert_eq!(kilo_airdrop::read_lines(" 0xaaa \n\n0xbbb"), vec!["0xaaa", "0xbbb"]);
}
