use ssh_blog::text::{
    chars_of, contains, copy_range, is_whitespace, line_spans, same_chars, same_text,
    split_whitespace, starts_with, trim, trim_bounds,
};

fn chars(s: &str) -> Vec<char> {
    s.chars().collect()
}

fn text(v: &[char]) -> String {
    v.iter().collect()
}

fn lines_by_spans(s: &str) -> Vec<String> {
    let v = chars(s);
    line_spans(&v).iter().map(|&(from, to)| text(&v[from..to])).collect()
}

fn words_by_split(s: &str) -> Vec<String> {
    split_whitespace(&chars(s)).iter().map(|w| text(w)).collect()
}

const SAMPLES: [&str; 16] = [
    "",
    " ",
    "a",
    "  a  ",
    "\t\na b\r\n",
    "ssh-ed25519 AAAA alice@host",
    "  ssh-rsa\tBBBB\n\ncomment with words  ",
    "one\ntwo\r\nthree",
    "one\ntwo\r\nthree\n",
    "\n",
    "\r\n",
    "\n\n",
    "tail\r",
    "a\rb\nc",
    "\u{a0}wide\u{3000}space\u{2003}here\u{85}",
    "é \u{1680} ü\u{2028}x\u{205f}",
];

#[test]
fn whitespace_is_the_white_space_property() {
    let mut code: u32 = 0;
    while code <= 0x10ffff {
        if let Some(c) = char::from_u32(code) {
            assert_eq!(is_whitespace(c), c.is_whitespace(), "U+{:04X}", code);
        }
        code += 1;
    }
}

#[test]
fn whitespace_edges() {
    assert!(is_whitespace(' '));
    assert!(is_whitespace('\t'));
    assert!(is_whitespace('\n'));
    assert!(is_whitespace('\r'));
    assert!(is_whitespace('\u{b}'));
    assert!(is_whitespace('\u{c}'));
    assert!(is_whitespace('\u{2000}'));
    assert!(is_whitespace('\u{200a}'));
    assert!(!is_whitespace('\u{200b}'));
    assert!(!is_whitespace('\u{8}'));
    assert!(!is_whitespace('\u{e}'));
    assert!(!is_whitespace('a'));
    assert!(!is_whitespace('-'));
}

#[test]
fn chars_of_gives_every_character() {
    for s in SAMPLES {
        assert_eq!(chars_of(s), chars(s));
    }
    assert_eq!(chars_of("héllo"), vec!['h', 'é', 'l', 'l', 'o']);
}

#[test]
fn trim_agrees_with_std() {
    for s in SAMPLES {
        assert_eq!(trim(s), s.trim(), "{:?}", s);
    }
}

#[test]
fn trim_exact_values() {
    assert_eq!(trim("  alice \n"), "alice");
    assert_eq!(trim("\t\t"), "");
    assert_eq!(trim(""), "");
    assert_eq!(trim("a b"), "a b");
    assert_eq!(trim("\u{3000}x y\u{a0}"), "x y");
}

#[test]
fn trim_bounds_exact_values() {
    assert_eq!(trim_bounds(&chars("  ab ")), (2, 4));
    assert_eq!(trim_bounds(&chars("ab")), (0, 2));
    assert_eq!(trim_bounds(&chars("")), (0, 0));
    let (from, to) = trim_bounds(&chars("   "));
    assert_eq!(from, to);
}

#[test]
fn split_whitespace_agrees_with_std() {
    for s in SAMPLES {
        let expected: Vec<String> = s.split_whitespace().map(|w| w.to_string()).collect();
        assert_eq!(words_by_split(s), expected, "{:?}", s);
    }
}

#[test]
fn split_whitespace_exact_values() {
    assert_eq!(words_by_split("ssh-rsa  AAAA\tme@host\n"), vec!["ssh-rsa", "AAAA", "me@host"]);
    assert_eq!(words_by_split("   "), Vec::<String>::new());
    assert_eq!(words_by_split("one"), vec!["one"]);
}

#[test]
fn lines_agree_with_std() {
    for s in SAMPLES {
        let expected: Vec<String> = s.lines().map(|l| l.to_string()).collect();
        assert_eq!(lines_by_spans(s), expected, "{:?}", s);
    }
}

#[test]
fn lines_exact_values() {
    assert_eq!(lines_by_spans("a\nb\r\nc"), vec!["a", "b", "c"]);
    assert_eq!(lines_by_spans("a\n"), vec!["a"]);
    assert_eq!(lines_by_spans("\n"), vec![""]);
    assert_eq!(lines_by_spans(""), Vec::<String>::new());
    assert_eq!(lines_by_spans("a\n\nb"), vec!["a", "", "b"]);
    assert_eq!(lines_by_spans("a\rb"), vec!["a\rb"]);
    assert_eq!(line_spans(&chars("ab\r\ncd")), vec![(0, 2), (4, 6)]);
}

#[test]
fn starts_with_agrees_with_std() {
    for s in SAMPLES {
        for p in ["", "ssh-", "a", " ", "one\n"] {
            assert_eq!(starts_with(&chars(s), &chars(p)), s.starts_with(p), "{:?} {:?}", s, p);
        }
    }
    assert!(starts_with(&chars("ssh-rsa"), &chars("ssh-")));
    assert!(!starts_with(&chars("ssh"), &chars("ssh-")));
    assert!(!starts_with(&chars(" ssh-rsa"), &chars("ssh-")));
}

#[test]
fn contains_agrees_with_std() {
    for s in SAMPLES {
        for p in ["", "ssh-", "a", " ", "\r\n", "three", "here\u{85}"] {
            assert_eq!(contains(&chars(s), &chars(p)), s.contains(p), "{:?} {:?}", s, p);
        }
    }
    assert!(contains(&chars("command ssh-rsa AAAA"), &chars("ssh-")));
    assert!(contains(&chars("xssh-"), &chars("ssh-")));
    assert!(!contains(&chars("ssh_rsa"), &chars("ssh-")));
    assert!(!contains(&chars(""), &chars("ssh-")));
}

#[test]
fn copy_range_and_equality() {
    let v = chars("abcdef");
    assert_eq!(copy_range(&v, 1, 4), chars("bcd"));
    assert_eq!(copy_range(&v, 2, 2), chars(""));
    assert_eq!(copy_range(&v, 0, 6), v);
    assert!(same_chars(&chars("abc"), &chars("abc")));
    assert!(!same_chars(&chars("abc"), &chars("abd")));
    assert!(!same_chars(&chars("abc"), &chars("ab")));
    assert!(same_chars(&chars(""), &chars("")));
    assert!(same_text("alice", "alice"));
    assert!(!same_text("alice", "Alice"));
    assert!(!same_text("alice", "alice "));
}
