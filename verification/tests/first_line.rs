use commit_msg_hook::commit_msg::first_line::line_is_significant;
use commit_msg_hook::commit_msg::{get_commit_msg_first_line, significant_line_bounds};
use commit_msg_hook::text::{
    char_is_whitespace, chars_of, find, find_from, slice, trimmed_len, CharClass,
};

/// The first significant line written with the string functions of std.
fn first_line_by_std(text: &str) -> Option<&str> {
    text.lines().find(|line| !line.trim_start().starts_with('#') && !line.trim().is_empty())
}

#[test]
fn first_line_skips_blank_lines_and_comments() {
    assert_eq!(get_commit_msg_first_line("feat: x"), Some("feat: x"));
    assert_eq!(get_commit_msg_first_line("\n\nfeat: x\nfix: y"), Some("feat: x"));
    assert_eq!(get_commit_msg_first_line("# comment\nfeat: x"), Some("feat: x"));
    assert_eq!(get_commit_msg_first_line("   # indented comment\n\t\nfeat: x"), Some("feat: x"));
    assert_eq!(get_commit_msg_first_line("  feat: x  \n"), Some("  feat: x  "));
    assert_eq!(get_commit_msg_first_line("a#b\n"), Some("a#b"));
}

#[test]
fn empty_messages_have_no_first_line() {
    for text in ["", "\n", "\n\n\n", "   ", " \t \n  \n", "# only a comment", "#\n #\n\t# x\n", "\r\n\r\n", "\u{3000}\n\u{2028}"] {
        assert_eq!(get_commit_msg_first_line(text), None, "{text:?}");
    }
}

#[test]
fn line_endings_are_no_part_of_the_line() {
    assert_eq!(get_commit_msg_first_line("feat: x\r\nfix: y"), Some("feat: x"));
    assert_eq!(get_commit_msg_first_line("\r\n\r\nfeat: x\r\n"), Some("feat: x"));
    assert_eq!(get_commit_msg_first_line("feat: x\r"), Some("feat: x\r"));
    assert_eq!(get_commit_msg_first_line("feat: x\r\r\n"), Some("feat: x\r"));
    assert_eq!(get_commit_msg_first_line("a\rb\nc"), Some("a\rb"));
}

#[test]
fn first_line_of_other_scripts() {
    assert_eq!(get_commit_msg_first_line("# 注释\n功能: 新增\n"), Some("功能: 新增"));
    assert_eq!(get_commit_msg_first_line("\u{a0}\n é: ü\n"), Some(" é: ü"));
}

#[test]
fn first_line_agrees_with_std_on_all_short_texts() {
    let alphabet = ['a', '#', ' ', '\n', '\r'];
    let mut last = vec![String::new()];
    assert_eq!(get_commit_msg_first_line(""), first_line_by_std(""));
    for _ in 0..7 {
        let mut next = Vec::new();
        for s in &last {
            for c in alphabet {
                let t = format!("{s}{c}");
                assert_eq!(get_commit_msg_first_line(&t), first_line_by_std(&t), "{t:?}");
                next.push(t);
            }
        }
        last = next;
    }
}

#[test]
fn line_bounds_are_counted_in_codepoints() {
    let text = chars_of("# é\nüü: x\nrest");
    assert_eq!(significant_line_bounds(&text), Some((4, 9)));
    assert_eq!(slice(&text, 4, 9), vec!['ü', 'ü', ':', ' ', 'x']);
    assert_eq!(significant_line_bounds(&chars_of(" \n#\n")), None);
    assert!(line_is_significant(&chars_of("  x")));
    assert!(!line_is_significant(&chars_of("  #x")));
    assert!(!line_is_significant(&chars_of("  ")));
    assert!(!line_is_significant(&chars_of("")));
}

#[test]
fn whitespace_is_what_std_calls_whitespace() {
    let mut count = 0;
    for u in 0..=0x10FFFFu32 {
        if let Some(c) = char::from_u32(u) {
            assert_eq!(char_is_whitespace(c), c.is_whitespace(), "U+{u:04X}");
            if char_is_whitespace(c) {
                count += 1;
            }
        }
    }
    assert_eq!(count, 25);
}

#[test]
fn chars_of_gives_every_codepoint() {
    assert_eq!(chars_of(""), Vec::<char>::new());
    assert_eq!(chars_of("aé中😀"), vec!['a', 'é', '中', '😀']);
}

#[test]
fn searches_find_the_first_of_a_class() {
    let s = chars_of("  ab(c):d)");
    assert_eq!(find(&s, CharClass::Visible), 2);
    assert_eq!(find(&s, CharClass::Paren), 4);
    assert_eq!(find(&s, CharClass::Exactly(':')), 7);
    assert_eq!(find(&s, CharClass::Exactly('z')), 10);
    assert_eq!(find_from(&s, CharClass::Paren, 5), 6);
    assert_eq!(find_from(&s, CharClass::Paren, 7), 9);
    assert_eq!(find_from(&s, CharClass::Paren, 10), 10);
    assert_eq!(find_from(&s, CharClass::Paren, 99), 10);
    assert!(CharClass::Paren.test('('));
    assert!(CharClass::Paren.test(')'));
    assert!(!CharClass::Paren.test('['));
    assert!(CharClass::Exactly('x').test('x'));
    assert!(!CharClass::Visible.test('\u{2003}'));
}

#[test]
fn trimmed_length_counts_what_trim_leaves() {
    for s in ["", " ", "a", " a ", "\t a b \r\n", "  é  ", "\u{3000}x\u{3000}y\u{3000}", " \n "] {
        assert_eq!(trimmed_len(&chars_of(s)), s.trim().chars().count(), "{s:?}");
    }
}
