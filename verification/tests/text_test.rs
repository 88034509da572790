use endpointo::text::{
    char_index, chars_of, contains, ends_with, find_text, insert_sorted, lines_of, rank, seek,
    split_on, starts_with, trim, width_of, Cursor, Rank, Trim,
};

fn chars(s: &str) -> Vec<char> {
    s.chars().collect()
}

fn texts(rows: &Vec<Vec<char>>) -> Vec<String> {
    rows.iter().map(|r| r.iter().collect()).collect()
}

#[test]
fn chars_of_keeps_every_character() {
    assert_eq!(chars_of("a\u{e9}\u{1F600}z"), vec!['a', '\u{e9}', '\u{1F600}', 'z']);
    assert_eq!(chars_of(""), Vec::<char>::new());
}

#[test]
fn contains_finds_substrings_and_the_empty_text() {
    assert!(contains(&chars("/v1/graphql"), "graphql"));
    assert!(contains(&chars("abc"), ""));
    assert!(contains(&chars(""), ""));
    assert!(!contains(&chars("graphq"), "graphql"));
    assert!(!contains(&chars(""), "a"));
}

#[test]
fn starts_and_ends_compare_whole_needles() {
    assert!(starts_with(&chars("ws://host"), "ws://"));
    assert!(!starts_with(&chars("ws:/"), "ws://"));
    assert!(ends_with(&chars("logo.png"), ".png"));
    assert!(!ends_with(&chars("png"), ".png"));
    assert!(ends_with(&chars("x"), ""));
}

#[test]
fn find_text_gives_the_first_occurrence() {
    assert_eq!(find_text(&chars("abcabc"), &chars("bc")), Some(1));
    assert_eq!(find_text(&chars("abcabc"), &chars("")), Some(0));
    assert_eq!(find_text(&chars("abc"), &chars("abcd")), None);
    assert_eq!(find_text(&chars("aab"), &chars("ab")), Some(1));
}

#[test]
fn trim_quotes_cuts_both_ends_only() {
    assert_eq!(trim(&chars("\"'`/api`'\""), Trim::Quotes), chars("/api"));
    assert_eq!(trim(&chars("a\"b"), Trim::Quotes), chars("a\"b"));
    assert_eq!(trim(&chars("\"\"\""), Trim::Quotes), chars(""));
    assert_eq!(trim(&chars(""), Trim::Quotes), chars(""));
    assert_eq!(trim(&chars(" \"x\""), Trim::Quotes), chars(" \"x"));
}

#[test]
fn trim_whitespace_knows_unicode_spaces() {
    assert_eq!(trim(&chars(" \t\r\n x y \u{a0}\u{2003}\u{3000}"), Trim::Whitespace), chars("x y"));
    assert_eq!(trim(&chars("\u{200b}x"), Trim::Whitespace), chars("\u{200b}x"));
    assert_eq!(trim(&chars("   "), Trim::Whitespace), chars(""));
}

#[test]
fn trim_agrees_with_std_on_samples() {
    for s in ["", " a ", "\u{85}b\u{1680}", "\u{2028}\u{2029}c\u{202f}\u{205f}", "d\u{b}\u{c}"] {
        let ours: String = trim(&chars(s), Trim::Whitespace).iter().collect();
        assert_eq!(ours, s.trim());
    }
}

#[test]
fn split_keeps_empty_pieces() {
    assert_eq!(texts(&split_on(&chars("a=1&&b"), '&')), vec!["a=1", "", "b"]);
    assert_eq!(texts(&split_on(&chars(""), '&')), vec![""]);
    assert_eq!(texts(&split_on(&chars("&"), '&')), vec!["", ""]);
    assert_eq!(texts(&split_on(&chars("abc"), '&')), vec!["abc"]);
}

#[test]
fn lines_follow_the_line_feed_rules() {
    assert_eq!(texts(&lines_of(&chars("a\nb\r\nc"))), vec!["a", "b", "c"]);
    assert_eq!(texts(&lines_of(&chars("a\n"))), vec!["a"]);
    assert_eq!(texts(&lines_of(&chars("a\n\nb"))), vec!["a", "", "b"]);
    assert_eq!(texts(&lines_of(&chars("a\r"))), vec!["a\r"]);
    assert_eq!(texts(&lines_of(&chars("\r\n"))), vec![""]);
    assert_eq!(lines_of(&chars("")).len(), 0);
}

#[test]
fn lines_agree_with_std_on_samples() {
    for s in ["", "x", "x\n", "\n", "a\r\nb\n\r\nc\r", "\r", "a\rb\n"] {
        let ours = texts(&lines_of(&chars(s)));
        let theirs: Vec<String> = s.lines().map(|l| l.to_string()).collect();
        assert_eq!(ours, theirs);
    }
}

#[test]
fn width_is_the_utf8_length() {
    for c in ['a', '\u{7f}', '\u{80}', '\u{7ff}', '\u{800}', '\u{ffff}', '\u{10000}', '\u{10ffff}'] {
        assert_eq!(width_of(c), c.len_utf8());
    }
}

#[test]
fn char_index_counts_characters_before_a_byte() {
    let s = chars("a\u{e9}\u{1F600}z");
    assert_eq!(char_index(&s, 0), 0);
    assert_eq!(char_index(&s, 1), 1);
    assert_eq!(char_index(&s, 2), 2);
    assert_eq!(char_index(&s, 3), 2);
    assert_eq!(char_index(&s, 4), 3);
    assert_eq!(char_index(&s, 7), 3);
    assert_eq!(char_index(&s, 8), 4);
    assert_eq!(char_index(&s, 1000), 4);
}

#[test]
fn seek_goes_on_from_its_cursor() {
    let s = chars("ab\u{e9}cd");
    let (at, cursor) = seek(&s, Cursor::start(), 4);
    assert_eq!(at, 3);
    assert_eq!((cursor.index, cursor.offset), (3, 4));
    let (at, cursor) = seek(&s, cursor, 5);
    assert_eq!(at, 4);
    assert_eq!((cursor.index, cursor.offset), (4, 5));
    let (at, cursor) = seek(&s, Cursor::start(), 3);
    assert_eq!(at, 3);
    assert_eq!((cursor.index, cursor.offset), (2, 2));
}

#[test]
fn rank_is_dictionary_order_by_code_point() {
    assert_eq!(rank(&chars("a"), &chars("b")), Rank::Before);
    assert_eq!(rank(&chars("b"), &chars("a")), Rank::After);
    assert_eq!(rank(&chars("ab"), &chars("ab")), Rank::Same);
    assert_eq!(rank(&chars("a"), &chars("ab")), Rank::Before);
    assert_eq!(rank(&chars(""), &chars("")), Rank::Same);
    assert_eq!(rank(&chars("Z"), &chars("a")), Rank::Before);
    assert_eq!(rank(&chars("\u{e9}"), &chars("z")), Rank::After);
}

#[test]
fn insert_sorted_keeps_order_and_drops_repeats() {
    let mut out: Vec<Vec<char>> = Vec::new();
    for s in ["m", "b", "z", "b", "a", "m"] {
        insert_sorted(&mut out, chars(s));
    }
    assert_eq!(texts(&out), vec!["a", "b", "m", "z"]);
}

#[test]
fn whitespace_is_what_std_calls_whitespace() {
    for code in 0u32..=0x10ffff {
        if let Some(c) = char::from_u32(code) {
            assert_eq!(Trim::Whitespace.cuts_char(c), c.is_whitespace(), "U+{:04X}", code);
            assert_eq!(Trim::Quotes.cuts_char(c), c == '"' || c == '\'' || c == '`');
        }
    }
}

#[test]
fn rank_orders_as_strings_do() {
    let samples = ["", "a", "ab", "b", "Z", "\u{e9}", "z\u{1F600}", "z\u{ffff}", "\u{10000}", "\u{ffff}"];
    for a in samples {
        for b in samples {
            let expected = match a.cmp(b) {
                std::cmp::Ordering::Less => Rank::Before,
                std::cmp::Ordering::Equal => Rank::Same,
                std::cmp::Ordering::Greater => Rank::After,
            };
            assert_eq!(rank(&chars(a), &chars(b)), expected, "{:?} against {:?}", a, b);
        }
    }
}
