use babello::text::{
    chars_of, join_lines, push_decimal, replace_text, same_text, split_lines, split_text_lines,
    str_less, text_contains, is_blank,
};

fn strings(v: &[&str]) -> Vec<String> {
    v.iter().map(|s| s.to_string()).collect()
}

#[test]
fn split_lines_keeps_empty_pieces() {
    assert_eq!(split_lines("a\nb\n"), strings(&["a", "b", ""]));
    assert_eq!(split_lines(""), strings(&[""]));
    assert_eq!(split_lines("\n\n"), strings(&["", "", ""]));
    assert_eq!(split_lines("héllo wörld"), strings(&["héllo wörld"]));
}

#[test]
fn join_lines_puts_newlines_between() {
    assert_eq!(join_lines(&strings(&["a", "b", ""])), "a\nb\n");
    assert_eq!(join_lines(&strings(&[])), "");
    assert_eq!(join_lines(&strings(&["only"])), "only");
}

#[test]
fn join_of_split_gives_the_text_back() {
    for text in ["", "x", "a\nb", "a\n\nb\n", "\n", "ünï\ncödé\r\n"] {
        assert_eq!(join_lines(&split_lines(text)), text);
    }
}

#[test]
fn text_lines_follow_str_lines() {
    for text in ["", "a", "a\n", "a\r\nb\n", "a\n\nb", "a\r", "x\r\ny\r\n", "\n"] {
        let expected: Vec<String> = text.lines().map(|l| l.to_string()).collect();
        assert_eq!(split_text_lines(text), expected, "text {:?}", text);
    }
}

#[test]
fn replace_follows_str_replace() {
    for (s, p, r) in [
        ("aaa", "aa", "b"),
        ("hello world", "o", "0"),
        ("__X__ and __X__", "__X__", "EN-US"),
        ("abc", "z", "y"),
        ("ababab", "aba", "-"),
        ("", "a", "b"),
    ] {
        assert_eq!(replace_text(s, p, r), s.replace(p, r), "replace {:?} {:?} {:?}", s, p, r);
    }
}

#[test]
fn order_of_texts_follows_str_order() {
    let words = ["", "A", "AB", "B", "DE", "DE-CH", "DE-DE", "EL", "é", "z", "Auto"];
    for a in words {
        for b in words {
            assert_eq!(str_less(a, b), a < b, "{:?} < {:?}", a, b);
            assert_eq!(same_text(a, b), a == b);
        }
    }
}

#[test]
fn contains_follows_str_contains() {
    for (h, n) in [("italian", "ital"), ("italian", ""), ("", ""), ("", "a"), ("abc", "bd"), ("aab", "ab")] {
        assert_eq!(text_contains(h, n), h.contains(n));
    }
}

#[test]
fn decimal_notation() {
    for n in [0usize, 7, 10, 99, 100, 123456, usize::MAX] {
        let mut s = String::from("n=");
        push_decimal(&mut s, n);
        assert_eq!(s, format!("n={}", n));
    }
}

#[test]
fn blank_means_trim_is_empty() {
    for t in ["", " ", " \t\n", "\u{a0}\u{3000}", " a ", "x", "\u{200b}"] {
        assert_eq!(is_blank(t), t.trim().is_empty(), "{:?}", t);
    }
}

#[test]
fn chars_of_keeps_every_character() {
    assert_eq!(chars_of("bokmål"), vec!['b', 'o', 'k', 'm', 'å', 'l']);
}
