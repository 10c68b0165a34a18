use archivio_search::text::{is_blank, sanitize_match, strip_spaces, trim, wrap_like};

#[test]
fn sanitize_replaces_punctuation_keeps_stars() {
    assert_eq!(sanitize_match("O'Brien *test* 123"), "O Brien *test* 123");
}

#[test]
fn sanitize_collapses_runs_to_one_space() {
    assert_eq!(sanitize_match("a--b"), "a b");
    assert_eq!(sanitize_match("a-%$?b"), "a b");
    assert_eq!(sanitize_match("!!!a"), " a");
    assert_eq!(sanitize_match("a!!"), "a ");
    assert_eq!(sanitize_match(""), "");
    assert_eq!(sanitize_match("€€€"), " ");
}

#[test]
fn sanitize_keeps_the_allowed_set() {
    assert_eq!(sanitize_match("ab_* \"c\" 9"), "ab_* \"c\" 9");
    assert_eq!(sanitize_match("rossi mario"), "rossi mario");
}

#[test]
fn sanitize_keeps_whitespace_runs() {
    assert_eq!(sanitize_match("a  b\t c"), "a  b\t c");
}

#[test]
fn trim_removes_edges_only() {
    assert_eq!(trim("  ciao  "), "ciao");
    assert_eq!(trim("\t\n x \r"), "x");
    assert_eq!(trim("   "), "");
    assert_eq!(trim(""), "");
    assert_eq!(trim("a b"), "a b");
    assert_eq!(trim("  è  "), "è");
}

#[test]
fn strip_spaces_removes_every_ascii_space() {
    assert_eq!(strip_spaces("333 123 4567"), "3331234567");
    assert_eq!(strip_spaces("  a b  "), "ab");
    assert_eq!(strip_spaces("nospace"), "nospace");
    assert_eq!(strip_spaces("\tx y"), "\txy");
}

#[test]
fn is_blank_on_whitespace_only() {
    assert!(is_blank(""));
    assert!(is_blank("   "));
    assert!(is_blank(" \t\r\n "));
    assert!(!is_blank(" a "));
    assert!(!is_blank("x"));
}

#[test]
fn wrap_like_adds_percent_marks() {
    assert_eq!(wrap_like("Roma"), "%Roma%");
    assert_eq!(wrap_like(""), "%%");
}
