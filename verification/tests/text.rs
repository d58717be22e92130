use jlink_config::text::{contains, decimal_chars, first_word, lines, trim};

fn chars(s: &str) -> Vec<char> {
    s.chars().collect()
}

fn text(v: &[char]) -> String {
    v.iter().collect()
}

#[test]
fn trim_matches_std() {
    for s in ["", "   ", " a b ", "\t\nx\r\n", "\u{3000}wide\u{a0}", "abc"] {
        assert_eq!(text(&trim(&chars(s))), s.trim());
    }
}

#[test]
fn lines_match_std() {
    for s in ["", "\n", "a", "a\n", "a\r\nb", "a\rb\n\nc\r", "x\n\ny\n"] {
        let got: Vec<String> = lines(&chars(s)).iter().map(|l| text(l)).collect();
        let want: Vec<String> = s.lines().map(|l| l.to_string()).collect();
        assert_eq!(got, want, "input {:?}", s);
    }
}

#[test]
fn first_word_matches_split_whitespace() {
    for s in ["", "  ", " 7.94e (Compiled", "abc", "\ta b"] {
        assert_eq!(text(&first_word(&chars(s))), s.split_whitespace().next().unwrap_or(""));
    }
}

#[test]
fn contains_matches_std() {
    for (h, n) in [("abc", ""), ("abc", "bc"), ("abc", "abcd"), ("aab", "ab"), ("", "a")] {
        assert_eq!(contains(&chars(h), &chars(n)), h.contains(n));
    }
}

#[test]
fn decimal_matches_display() {
    for n in [0usize, 7, 10, 99, 1000, 123456789, usize::MAX] {
        assert_eq!(text(&decimal_chars(n)), n.to_string());
    }
}
