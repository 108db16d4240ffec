use minipress::text::{excerpt, is_space};

fn numbered_words(count: usize) -> String {
    let mut words: Vec<String> = Vec::new();
    for i in 0..count {
        words.push(format!("w{}", i));
    }
    words.join(" ")
}

/// The excerpt as the standard library's splitting gives it.
fn expected(content: &str) -> String {
    let words: Vec<&str> = content.split_whitespace().collect();
    if words.len() < 55 {
        content.to_string()
    } else {
        words[..55].join(" ")
    }
}

#[test]
fn white_space_is_what_unicode_calls_white_space() {
    for code in 0..=0x10FFFFu32 {
        if let Some(c) = char::from_u32(code) {
            assert_eq!(is_space(c), c.is_whitespace(), "U+{:04X}", code);
        }
    }
    assert!(is_space(' '));
    assert!(is_space('\t'));
    assert!(is_space('\n'));
    assert!(is_space('\u{3000}'));
    assert!(!is_space('a'));
    assert!(!is_space('\u{200B}'));
}

#[test]
fn excerpt_of_short_content_is_the_content() {
    assert_eq!(excerpt("hello brave new world"), "hello brave new world");
    assert_eq!(excerpt(""), "");
    assert_eq!(excerpt("  two\twords \n"), "  two\twords \n");
    let content = numbered_words(54);
    assert_eq!(excerpt(&content), content);
    let spaced = format!("\n\n{}  \t", numbered_words(54).replace(' ', " \n "));
    assert_eq!(excerpt(&spaced), spaced);
}

#[test]
fn excerpt_of_exactly_55_words_is_the_words_joined_by_single_spaces() {
    let content = numbered_words(55);
    assert_eq!(excerpt(&content), content);
    let spaced = format!("  {}\n", numbered_words(55).replace(' ', "\t\t"));
    assert_eq!(excerpt(&spaced), numbered_words(55));
}

#[test]
fn excerpt_of_long_content_is_its_first_55_words() {
    let content = numbered_words(80);
    assert_eq!(excerpt(&content), numbered_words(55));
    let content = numbered_words(56);
    assert_eq!(excerpt(&content), numbered_words(55));
}

#[test]
fn excerpt_takes_words_parted_by_any_white_space() {
    let one_per_line = numbered_words(56).replace(' ', "\n");
    assert_eq!(excerpt(&one_per_line), numbered_words(55));
    let tabs = numbered_words(70).replace(' ', "\t");
    assert_eq!(excerpt(&tabs), numbered_words(55));
    let runs = numbered_words(60).replace(' ', "   ");
    assert_eq!(excerpt(&runs), numbered_words(55));
    let mixed = format!(" \r\n{}\u{3000}", numbered_words(60).replace(' ', " \u{a0}\n"));
    assert_eq!(excerpt(&mixed), numbered_words(55));
}

#[test]
fn white_space_alone_holds_no_word() {
    let content = " ".repeat(60);
    assert_eq!(excerpt(&content), content);
    let content = "\n".repeat(200);
    assert_eq!(excerpt(&content), content);
}

#[test]
fn excerpt_keeps_non_ascii_words() {
    let content = "línea\tuno\nlínea dos — fin";
    assert_eq!(excerpt(content), content);
    let long = format!("{} ñandú", numbered_words(54));
    assert_eq!(excerpt(&format!("{}\ntail", long)), long);
}

#[test]
fn excerpt_agrees_with_splitting_at_white_space() {
    let samples = [
        String::new(),
        "a".to_string(),
        " a ".to_string(),
        numbered_words(54),
        numbered_words(55),
        numbered_words(56),
        numbered_words(300).replace(' ', "\n\t "),
        format!("\u{2003}{}\u{2028}", numbered_words(55).replace(' ', "\u{2009}")),
        "x ".repeat(54),
        "x ".repeat(55),
        " x".repeat(55),
    ];
    for sample in samples.iter() {
        assert_eq!(excerpt(sample), expected(sample));
    }
}
