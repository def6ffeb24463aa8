use livechat::text::{split_whitespace, trim_str};

#[test]
fn trim_matches_std() {
    for t in ["", "  a b  ", "\u{3000}x\u{85}", "\t\n", "x", " \u{a0}y\u{2009}"] {
        assert_eq!(trim_str(t), t.trim());
    }
}

#[test]
fn split_matches_std() {
    for t in ["", "a", "  a  bb\tccc\n", "x\u{2003}y", "   "] {
        let got = split_whitespace(t);
        let want: Vec<String> = t.split_whitespace().map(|w| w.to_string()).collect();
        assert_eq!(got, want);
    }
}

#[test]
fn trim_twice_is_trim_once() {
    for t in ["  a  ", "\u{2028}b c\t", ""] {
        assert_eq!(trim_str(&trim_str(t)), trim_str(t));
    }
}
