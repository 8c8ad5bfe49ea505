use zngur_autozng::text::{chars_of, join, push_decimal, trim_start_matches};

fn decimal(n: u64) -> String {
    let mut s = String::new();
    push_decimal(&mut s, n);
    s
}

#[test]
fn decimal_renders_like_display() {
    for n in [0u64, 7, 10, 99, 100, 1234567890, u64::MAX] {
        assert_eq!(decimal(n), n.to_string());
    }
}

#[test]
fn push_decimal_appends() {
    let mut s = String::from("size: ");
    push_decimal(&mut s, 24);
    assert_eq!(s, "size: 24");
}

#[test]
fn trim_removes_every_leading_copy() {
    assert_eq!(trim_start_matches("aaa", "aa"), "a");
    assert_eq!(trim_start_matches("abab-x", "ab"), "-x");
    assert_eq!(trim_start_matches("Example::inner", "Example::"), "inner");
}

#[test]
fn trim_matches_std() {
    for (s, p) in [("", "x"), ("x", ""), ("xyz", "xyzw"), ("::a::b", "::"), ("héllo", "hé")] {
        assert_eq!(trim_start_matches(s, p), s.trim_start_matches(p));
    }
}

#[test]
fn join_matches_std() {
    let parts: Vec<String> = vec!["&Example".into(), "&str".into(), "u8".into()];
    assert_eq!(join(&parts, ", "), "&Example, &str, u8");
    assert_eq!(join(&Vec::new(), ", "), "");
    assert_eq!(join(&vec!["one".to_string()], ", "), "one");
}

#[test]
fn chars_of_unicode() {
    assert_eq!(chars_of("aé"), vec!['a', 'é']);
}
