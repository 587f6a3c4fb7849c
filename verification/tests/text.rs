use zos::text::{count_leading, count_trailing_from, starts_with_char, strip_start_str, strip_str, CharClass};

fn samples() -> Vec<String> {
    let pieces = ["", " ", "/", "a", "\u{3000}", "é/", "\n", "//b"];
    let mut out = Vec::new();
    for p in pieces {
        for q in pieces {
            for r in pieces {
                out.push(format!("{p}{q}{r}"));
            }
        }
    }
    out
}

#[test]
fn stripping_agrees_with_std() {
    for s in samples() {
        assert_eq!(strip_str(&s, CharClass::Whitespace), s.trim(), "{s:?}");
        assert_eq!(strip_str(&s, CharClass::Slash), s.trim_matches('/'), "{s:?}");
        assert_eq!(strip_start_str(&s, CharClass::Slash), s.trim_start_matches('/'), "{s:?}");
        assert_eq!(starts_with_char(&s, '/'), s.starts_with('/'), "{s:?}");
    }
}

#[test]
fn counting_class_runs() {
    assert_eq!(count_leading("//a/", CharClass::Slash), 2);
    assert_eq!(count_leading("a//", CharClass::Slash), 0);
    assert_eq!(count_leading(" \t x", CharClass::Whitespace), 3);
    assert_eq!(count_trailing_from("a//", 0, CharClass::Slash), 2);
    assert_eq!(count_trailing_from("///", 1, CharClass::Slash), 2);
    assert_eq!(count_trailing_from("ab", 2, CharClass::Slash), 0);
    assert!(CharClass::Slash.contains('/'));
    assert!(!CharClass::Slash.contains(' '));
    assert!(CharClass::Whitespace.contains('\u{2028}'));
}
