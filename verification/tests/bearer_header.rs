use eshop_auth::bearer::{is_whitespace, parse_bearer, split_whitespace};

fn words_of(s: &str) -> Vec<String> {
    split_whitespace(s).into_iter().map(|w| w.into_iter().collect()).collect()
}

fn std_words(s: &str) -> Vec<String> {
    s.split_whitespace().map(|w| w.to_string()).collect()
}

#[test]
fn whitespace_is_the_unicode_property() {
    let mut c = 0u32;
    while c <= 0x10FFFF {
        if let Some(ch) = char::from_u32(c) {
            assert_eq!(is_whitespace(ch), ch.is_whitespace(), "U+{:04X}", c);
        }
        c += 1;
    }
}

#[test]
fn whitespace_examples() {
    assert!(is_whitespace(' '));
    assert!(is_whitespace('\t'));
    assert!(is_whitespace('\n'));
    assert!(is_whitespace('\u{A0}'));
    assert!(is_whitespace('\u{3000}'));
    assert!(!is_whitespace('a'));
    assert!(!is_whitespace('\u{200B}'));
    assert!(!is_whitespace('\0'));
}

#[test]
fn split_gives_the_words() {
    assert_eq!(words_of("Bearer abc"), vec!["Bearer", "abc"]);
    assert_eq!(words_of("  a  bb \t ccc\n"), vec!["a", "bb", "ccc"]);
    assert_eq!(words_of("one"), vec!["one"]);
    assert_eq!(words_of(""), Vec::<String>::new());
    assert_eq!(words_of(" \t\r\n"), Vec::<String>::new());
    assert_eq!(words_of("x\u{2003}y"), vec!["x", "y"]);
}

#[test]
fn split_agrees_with_std() {
    let samples = [
        "",
        " ",
        "a",
        " a",
        "a ",
        "a b",
        "Bearer  token",
        "\tBearer\ttoken\t",
        "Bearer token extra",
        "h\u{e9}llo w\u{f6}rld \u{1F600} end",
        "a\u{A0}b\u{1680}c\u{2028}d\u{2029}e\u{202F}f\u{205F}g\u{3000}h\u{85}i",
        "no-space-at-all",
        "   \n\n   ",
    ];
    for s in samples {
        assert_eq!(words_of(s), std_words(s), "{:?}", s);
    }
}

#[test]
fn bearer_header_with_token() {
    assert_eq!(parse_bearer("Bearer abc123"), Some("abc123".to_string()));
}

#[test]
fn bearer_header_with_long_token() {
    let token = "aZ09".repeat(32);
    assert_eq!(token.len(), 128);
    assert_eq!(parse_bearer(&format!("Bearer {}", token)), Some(token));
}

#[test]
fn bearer_header_tolerates_surrounding_space() {
    assert_eq!(parse_bearer("  Bearer \t tok  "), Some("tok".to_string()));
}

#[test]
fn bearer_alone_is_malformed() {
    assert_eq!(parse_bearer("Bearer"), None);
    assert_eq!(parse_bearer("Bearer "), None);
}

#[test]
fn bearer_with_extra_segment_is_malformed() {
    assert_eq!(parse_bearer("Bearer a b"), None);
}

#[test]
fn bearer_scheme_is_case_sensitive() {
    assert_eq!(parse_bearer("bearer abc"), None);
    assert_eq!(parse_bearer("BEARER abc"), None);
    assert_eq!(parse_bearer("Bearer: abc"), None);
    assert_eq!(parse_bearer("Basic abc"), None);
    assert_eq!(parse_bearer("Bearerabc def"), None);
}

#[test]
fn empty_header_is_malformed() {
    assert_eq!(parse_bearer(""), None);
    assert_eq!(parse_bearer("   "), None);
}

#[test]
fn token_first_is_malformed() {
    assert_eq!(parse_bearer("abc Bearer"), None);
}
