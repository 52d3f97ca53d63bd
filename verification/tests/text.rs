use speed_reader::text::{separates_words, split_words, word_shape};

#[test]
fn split_on_blanks() {
    assert_eq!(
        split_words("Hello, world. This is RSVP."),
        vec!["Hello,", "world.", "This", "is", "RSVP."]
    );
}

#[test]
fn split_drops_empty_tokens() {
    assert_eq!(split_words("  one   two\t\tthree \n"), vec!["one", "two", "three"]);
    assert_eq!(split_words("one"), vec!["one"]);
    assert_eq!(split_words(" one"), vec!["one"]);
    assert_eq!(split_words("one "), vec!["one"]);
}

#[test]
fn split_of_nothing_is_nothing() {
    assert!(split_words("").is_empty());
    assert!(split_words(" ").is_empty());
    assert!(split_words(" \t\r\n\u{a0}\u{3000}").is_empty());
}

#[test]
fn split_on_every_kind_of_white_space() {
    let text = "a\u{9}b\u{a}c\u{b}d\u{c}e\u{d}f\u{20}g\u{85}h\u{a0}i\u{1680}j\u{2000}k\u{200a}l\u{2028}m\u{2029}n\u{202f}o\u{205f}p\u{3000}q";
    let expected: Vec<String> = "abcdefghijklmnopq".chars().map(|c| c.to_string()).collect();
    assert_eq!(split_words(text), expected);
}

#[test]
fn split_agrees_with_the_standard_library() {
    let texts = [
        "The quick brown fox",
        "  leading and trailing  ",
        "tabs\tand\nnewlines\r\nmixed",
        "zero\u{200b}width is no space",
        "ideographic\u{3000}space",
        "",
        "   ",
        "x",
    ];
    for text in texts {
        let expected: Vec<String> = text.split_whitespace().map(|w| w.to_string()).collect();
        assert_eq!(split_words(text), expected, "{:?}", text);
    }
}

#[test]
fn white_space_is_what_the_standard_library_says() {
    for code in 0u32..0x11_0000 {
        if let Some(c) = char::from_u32(code) {
            assert_eq!(separates_words(c), c.is_whitespace(), "U+{:04X}", code);
        }
    }
}

#[test]
fn words_joined_are_the_text_without_white_space() {
    let text = " So  much\tdepends \n upon ";
    let joined: String = split_words(text).concat();
    let kept: String = text.chars().filter(|c| !c.is_whitespace()).collect();
    assert_eq!(joined, kept);
}

#[test]
fn shape_of_words() {
    let s = word_shape("Hello,");
    assert_eq!((s.len, s.stop, s.comma), (6, false, true));
    let s = word_shape("end.");
    assert_eq!((s.len, s.stop, s.comma), (4, true, false));
    let s = word_shape("a,b;c");
    assert_eq!((s.len, s.stop, s.comma), (5, true, true));
    let s = word_shape("plain");
    assert_eq!((s.len, s.stop, s.comma), (5, false, false));
    let s = word_shape("");
    assert_eq!((s.len, s.stop, s.comma), (0, false, false));
    let s = word_shape("日本語!");
    assert_eq!((s.len, s.stop, s.comma), (4, true, false));
}
