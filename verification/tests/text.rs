use roam::text::{
    comes_before, holds, last_part, lines, replace, spaces, trim, trim_end_char, trim_end_part,
};

#[test]
fn whitespace_goes_from_both_ends() {
    assert_eq!(trim("  a b \t\n"), "a b");
    assert_eq!(trim("\u{2003}x\u{a0}"), "x");
    assert_eq!(trim("   "), "");
    assert_eq!(trim(""), "");
}

#[test]
fn only_whitespace_is_trimmed() {
    let white: Vec<u32> = (0..=0x10ffffu32)
        .filter_map(char::from_u32)
        .filter(|c| trim(&c.to_string()).is_empty())
        .map(|c| c as u32)
        .collect();
    let mut want: Vec<u32> = (0x9..=0xd).collect();
    want.extend([0x20, 0x85, 0xa0, 0x1680]);
    want.extend(0x2000..=0x200a);
    want.extend([0x2028, 0x2029, 0x202f, 0x205f, 0x3000]);
    assert_eq!(white, want);
}

#[test]
fn lines_end_at_line_feeds() {
    assert_eq!(lines("a\nb\r\n\nc"), ["a", "b", "", "c"]);
    assert_eq!(lines("a\n"), ["a"]);
    assert_eq!(lines("a\r"), ["a\r"]);
    assert!(lines("").is_empty());
    assert_eq!(lines("\n"), [""]);
}

#[test]
fn what_stands_after_the_last_colon() {
    assert_eq!(last_part("a.b.C: went wrong: badly"), "badly");
    assert_eq!(last_part("plain"), "plain");
    for text in ["a: b: c", ": ", "a:b", "", "a: : b", "::  x: "] {
        let short = last_part(text);
        assert!(text.ends_with(&short) && !short.contains(": "));
        assert_eq!(last_part(&short), short);
    }
}

#[test]
fn ends_are_taken_off() {
    assert_eq!(trim_end_char("name\0\0", '\0'), "name");
    assert_eq!(trim_end_char("\0name", '\0'), "\0name");
    assert_eq!(trim_end_part("xabab", "ab"), "x");
    assert_eq!(trim_end_part("abx", "ab"), "abx");
}

#[test]
fn parts_are_replaced_from_the_left() {
    assert_eq!(replace("aaa", "aa", "b"), "ba");
    assert_eq!(replace("x-y-z", "-", "--"), "x--y--z");
    assert_eq!(replace("xyz", "-", "+"), "xyz");
}

#[test]
fn texts_are_ordered_as_in_a_list_of_names() {
    assert!(comes_before("alpha", "beta"));
    assert!(comes_before("a", "ab"));
    assert!(!comes_before("ab", "a"));
    assert!(!comes_before("a", "a"));
    assert!(comes_before("", "a"));
}

#[test]
fn a_list_holds_what_is_on_it() {
    let list = vec!["a".to_string(), "b".to_string()];
    assert!(holds(&list, "b"));
    assert!(!holds(&list, "c"));
    assert_eq!(spaces(3), "   ");
    assert_eq!(spaces(0), "");
}
