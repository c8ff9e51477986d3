//! Tests for the community-query text rewrite.

use language_config::query_text::to_portable_query;

#[test]
fn rewrite_literal_case() {
    // Both string-match predicate spellings and all four non-highlighting
    // capture markers, with surrounding text that must stay unchanged.
    let input = "a @none b @conceal c @spell d @nospell e #lua-match? f #vim-match? g";
    let expected = "a  b  c  d  e #match? f #match? g";
    assert_eq!(to_portable_query(input), expected);
}

#[test]
fn rewrite_predicates_in_query_shape() {
    let input = "((comment) @comment (#lua-match? @comment \"^TODO\"))\n((string) @string (#vim-match? @string \"x\"))";
    let expected = "((comment) @comment (#match? @comment \"^TODO\"))\n((string) @string (#match? @string \"x\"))";
    assert_eq!(to_portable_query(input), expected);
}

#[test]
fn rewrite_removes_markers_verbatim() {
    let out = to_portable_query("(word) @spell (word) @nospell (x) @none (y) @conceal");
    assert!(!out.contains("@none"));
    assert!(!out.contains("@conceal"));
    assert!(!out.contains("@spell"));
    assert!(!out.contains("@nospell"));
}

#[test]
fn rewrite_idempotent_on_realistic_query() {
    let input = "((comment) @comment @spell (#lua-match? @comment \"^!\")) @none (s) @string";
    let once = to_portable_query(input);
    let twice = to_portable_query(&once);
    assert_eq!(twice, once);
}

#[test]
fn rewrite_leaves_plain_query_unchanged() {
    let input = "(string) @string (comment) @comment";
    assert_eq!(to_portable_query(input), input);
}

#[test]
fn rewrite_empty_text() {
    assert_eq!(to_portable_query(""), "");
}
