use zdict::text::{
    contains_str, join_strings, push_decimal, replace_str, rsplit_once_char, split_lines,
    split_whitespace, trim_str,
};

fn strings(xs: &[&str]) -> Vec<String> {
    xs.iter().map(|s| s.to_string()).collect()
}

#[test]
fn trim_matches_std() {
    for s in ["  love \n", "", "   ", "\u{3000}愛\u{a0}", "a b", "\tx\r\n"] {
        assert_eq!(trim_str(s), s.trim());
    }
}

#[test]
fn split_whitespace_matches_std() {
    for s in ["KK[lʌv]  DJ[lʌv]", "", "  a  b ", "\u{2003}x\u{85}y", "one"] {
        let expected: Vec<String> = s.split_whitespace().map(|w| w.to_string()).collect();
        assert_eq!(split_whitespace(s), expected);
    }
}

#[test]
fn lines_match_std() {
    for s in ["a\nb", "a\r\nb\r\n", "", "\n", "a\n\n", "a\r", "x\ry\n"] {
        let expected: Vec<String> = s.lines().map(|l| l.to_string()).collect();
        assert_eq!(split_lines(s), expected);
    }
}

#[test]
fn rsplit_once_matches_std() {
    for s in ["I love you 我愛你", "nospace", " lead", "trail ", ""] {
        let expected = s.rsplit_once(' ').map(|(a, b)| (a.to_string(), b.to_string()));
        assert_eq!(rsplit_once_char(s, ' '), expected);
    }
}

#[test]
fn contains_matches_std() {
    for (h, n) in [("btn pos_button", "pos_button"), ("abc", ""), ("", "a"), ("aab", "ab"), ("ab", "abc")] {
        assert_eq!(contains_str(h, n), h.contains(n));
    }
}

#[test]
fn replace_matches_std() {
    for (s, p, w) in [("a{word}b{word}", "{word}", "X"), ("aaa", "aa", "b"), ("", "x", "y"), ("xyz", "q", "r")] {
        assert_eq!(replace_str(s, p, w), s.replace(p, w));
    }
}

#[test]
fn join_matches_std() {
    assert_eq!(join_strings(&strings(&["a", "b", "c"]), ", "), "a, b, c");
    assert_eq!(join_strings(&strings(&[]), ", "), "");
    assert_eq!(join_strings(&strings(&["only"]), "; "), "only");
}

#[test]
fn decimal_matches_display() {
    for n in [0usize, 7, 10, 42, 1000, 123456789] {
        let mut s = String::from("#");
        push_decimal(&mut s, n);
        assert_eq!(s, format!("#{}", n));
    }
}
