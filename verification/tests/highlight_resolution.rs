//! Tests for grammar resolution and the highlight-query fallback.

use language_config::config::LanguageConfig;
use language_config::grammar::{
    resolve_grammar, CargoLinkedTreesitterLanguage, GrammarConfig, GrammarConfigKind, GrammarError,
};
use language_config::highlight::select_query_candidate;

fn config_with(kind: GrammarConfigKind) -> LanguageConfig {
    let mut config = LanguageConfig::new();
    config.tree_sitter_grammar_config = Some(GrammarConfig { id: "test".to_string(), kind });
    config
}

fn json_config() -> LanguageConfig {
    config_with(GrammarConfigKind::CargoLinked(CargoLinkedTreesitterLanguage::JSON))
}

fn from_source_kind() -> GrammarConfigKind {
    GrammarConfigKind::FromSource {
        url: "https://invalid.invalid/grammar".to_string(),
        commit: "0000000".to_string(),
        subpath: None,
    }
}

#[test]
fn fallback_prefers_valid_community_query() {
    let config = json_config();
    let community = "(string) @string";
    let resolved = config.highlight_query(
        Some(community),
        Err(GrammarError::FetchFailed),
        None,
    );
    // The community query compiles against the JSON grammar, so it wins
    // over the bundled default.
    assert_eq!(resolved, Some(community.to_string()));
    assert_ne!(resolved, Some(tree_sitter_json::HIGHLIGHTS_QUERY.to_string()));
}

#[test]
fn compilation_failure_falls_back_to_default() {
    let config = json_config();
    // No such node type in the JSON grammar: compilation fails.
    let community = "(no_such_node_kind) @x";
    let resolved = config.highlight_query(
        Some(community),
        Err(GrammarError::FetchFailed),
        None,
    );
    assert_eq!(resolved, Some(tree_sitter_json::HIGHLIGHTS_QUERY.to_string()));
}

#[test]
fn compilation_failure_without_default_yields_none() {
    // Julia ships no bundled default query.
    let config = config_with(GrammarConfigKind::CargoLinked(CargoLinkedTreesitterLanguage::Julia));
    let resolved = config.highlight_query(
        Some("(no_such_node_kind) @x"),
        Err(GrammarError::FetchFailed),
        None,
    );
    assert_eq!(resolved, None);
}

#[test]
fn no_grammar_reference_yields_none() {
    let config = LanguageConfig::new();
    let resolved = config.highlight_query(
        Some("(string) @string"),
        Err(GrammarError::FetchFailed),
        Some("(line) @keyword".to_string()),
    );
    assert_eq!(resolved, None);
}

#[test]
fn static_grammars_resolve() {
    let linked = vec![
        CargoLinkedTreesitterLanguage::Typescript,
        CargoLinkedTreesitterLanguage::TSX,
        CargoLinkedTreesitterLanguage::Python,
        CargoLinkedTreesitterLanguage::Julia,
        CargoLinkedTreesitterLanguage::Scheme,
        CargoLinkedTreesitterLanguage::OCaml,
        CargoLinkedTreesitterLanguage::OCamlInterface,
        CargoLinkedTreesitterLanguage::Rust,
        CargoLinkedTreesitterLanguage::Javascript,
        CargoLinkedTreesitterLanguage::JSX,
        CargoLinkedTreesitterLanguage::Svelte,
        CargoLinkedTreesitterLanguage::JSON,
        CargoLinkedTreesitterLanguage::YAML,
        CargoLinkedTreesitterLanguage::HTML,
        CargoLinkedTreesitterLanguage::XML,
        CargoLinkedTreesitterLanguage::Zig,
        CargoLinkedTreesitterLanguage::Markdown,
        CargoLinkedTreesitterLanguage::Go,
        CargoLinkedTreesitterLanguage::Lua,
        CargoLinkedTreesitterLanguage::Gleam,
        CargoLinkedTreesitterLanguage::Bash,
        CargoLinkedTreesitterLanguage::C,
        CargoLinkedTreesitterLanguage::CPP,
        CargoLinkedTreesitterLanguage::CSS,
        CargoLinkedTreesitterLanguage::Ruby,
        CargoLinkedTreesitterLanguage::Nix,
        CargoLinkedTreesitterLanguage::Diff,
        CargoLinkedTreesitterLanguage::Elixir,
        CargoLinkedTreesitterLanguage::Swift,
        CargoLinkedTreesitterLanguage::Toml,
        CargoLinkedTreesitterLanguage::Haskell,
    ];
    for grammar in linked {
        assert!(grammar.to_tree_sitter_language().is_some());
        let outcome = resolve_grammar(
            &GrammarConfigKind::CargoLinked(grammar),
            Err(GrammarError::FetchFailed),
        );
        assert!(outcome.is_ok());
    }
}

#[test]
fn grammars_not_linked_in_this_build_fail_resolution() {
    let unlinked = vec![
        CargoLinkedTreesitterLanguage::Graphql,
        CargoLinkedTreesitterLanguage::Fish,
        CargoLinkedTreesitterLanguage::Heex,
        CargoLinkedTreesitterLanguage::KiQuickfix,
        CargoLinkedTreesitterLanguage::Hcl,
    ];
    for grammar in unlinked {
        assert!(grammar.to_tree_sitter_language().is_none());
        let outcome = resolve_grammar(
            &GrammarConfigKind::CargoLinked(grammar),
            Err(GrammarError::FetchFailed),
        );
        assert_eq!(outcome, Err(GrammarError::CompileFailed));
    }
}

#[test]
fn remote_failure_is_error_from_resolution_and_none_from_query() {
    let kind = from_source_kind();
    let outcome = resolve_grammar(&kind, Err(GrammarError::FetchFailed));
    assert_eq!(outcome, Err(GrammarError::FetchFailed));

    let config = config_with(from_source_kind());
    let resolved = config.highlight_query(
        Some("(string) @string"),
        Err(GrammarError::FetchFailed),
        Some("(line) @keyword".to_string()),
    );
    assert_eq!(resolved, None);
}

#[test]
fn remote_grammar_uses_runtime_default_unvalidated() {
    let config = config_with(from_source_kind());
    // Stand in for a successfully loaded remote grammar.
    let loaded: tree_sitter::Language = tree_sitter_rust::LANGUAGE.into();
    // No community query: the runtime `highlights` file is returned as it
    // is, without being compiled against the grammar.
    let not_a_valid_query = "certainly not a query".to_string();
    let resolved = config.highlight_query(None, Ok(loaded), Some(not_a_valid_query.clone()));
    assert_eq!(resolved, Some(not_a_valid_query));
}

#[test]
fn remote_grammar_prefers_valid_community_query() {
    let config = config_with(from_source_kind());
    let loaded: tree_sitter::Language = tree_sitter_rust::LANGUAGE.into();
    let resolved = config.highlight_query(
        Some("(function_item) @function"),
        Ok(loaded),
        Some("(line) @keyword".to_string()),
    );
    assert_eq!(resolved, Some("(function_item) @function".to_string()));
}

#[test]
fn community_query_is_rewritten_before_compilation() {
    let config = json_config();
    // The result is the rewritten text, not the raw community text.
    let community = "((string) @string (#lua-match? @string \"a\"))";
    let resolved = config.highlight_query(
        Some(community),
        Err(GrammarError::FetchFailed),
        None,
    );
    assert_eq!(
        resolved,
        Some("((string) @string (#match? @string \"a\"))".to_string())
    );
}

#[test]
fn default_provider_static_grammars() {
    let rust_config =
        config_with(GrammarConfigKind::CargoLinked(CargoLinkedTreesitterLanguage::Rust));
    assert_eq!(
        rust_config.highlight_query_default(None),
        Some(tree_sitter_rust::HIGHLIGHTS_QUERY.to_string())
    );

    let julia_config =
        config_with(GrammarConfigKind::CargoLinked(CargoLinkedTreesitterLanguage::Julia));
    assert_eq!(julia_config.highlight_query_default(None), None);

    let quickfix_config =
        config_with(GrammarConfigKind::CargoLinked(CargoLinkedTreesitterLanguage::KiQuickfix));
    assert_eq!(
        quickfix_config.highlight_query_default(None),
        Some(" (header) @keyword".to_string())
    );

    let fish_config =
        config_with(GrammarConfigKind::CargoLinked(CargoLinkedTreesitterLanguage::Fish));
    assert_eq!(fish_config.highlight_query_default(None), None);
}

#[test]
fn default_provider_remote_grammar_passthrough() {
    let config = config_with(from_source_kind());
    assert_eq!(config.highlight_query_default(None), None);
    assert_eq!(
        config.highlight_query_default(Some("(line) @keyword".to_string())),
        Some("(line) @keyword".to_string())
    );
}

#[test]
fn community_provider_needs_grammar_reference() {
    let config = LanguageConfig::new();
    assert_eq!(
        config.highlight_query_nvim_treesitter(Some("(string) @string")),
        None
    );
    let config = json_config();
    assert_eq!(config.highlight_query_nvim_treesitter(None), None);
    assert_eq!(
        config.highlight_query_nvim_treesitter(Some("(s) @x (#vim-match? @x \"y\")")),
        Some("(s) @x (#match? @x \"y\")".to_string())
    );
}

#[test]
fn select_candidate_rules() {
    let community = Some("community".to_string());
    let fallback = Some("default".to_string());
    assert_eq!(
        select_query_candidate(community.clone(), true, fallback.clone()),
        community
    );
    assert_eq!(
        select_query_candidate(community.clone(), false, fallback.clone()),
        fallback
    );
    assert_eq!(select_query_candidate(None, true, fallback.clone()), fallback);
    assert_eq!(select_query_candidate(None, false, None), None);
    assert_eq!(select_query_candidate(community.clone(), false, None), None);
}

#[test]
fn tree_sitter_language_dispatch() {
    let config = json_config();
    assert!(config.tree_sitter_language(None).is_some());

    let fish_config =
        config_with(GrammarConfigKind::CargoLinked(CargoLinkedTreesitterLanguage::Fish));
    assert!(fish_config.tree_sitter_language(None).is_none());

    let remote_config = config_with(from_source_kind());
    assert!(remote_config.tree_sitter_language(None).is_none());
    let loaded: tree_sitter::Language = tree_sitter_go::LANGUAGE.into();
    assert!(remote_config.tree_sitter_language(Some(loaded)).is_some());

    assert!(LanguageConfig::new().tree_sitter_language(None).is_none());
}

#[test]
fn default_provider_matches_bundled_constants() {
    let cases: Vec<(CargoLinkedTreesitterLanguage, &str)> = vec![
        (CargoLinkedTreesitterLanguage::Typescript, tree_sitter_typescript::HIGHLIGHTS_QUERY),
        (CargoLinkedTreesitterLanguage::TSX, tree_sitter_typescript::HIGHLIGHTS_QUERY),
        (CargoLinkedTreesitterLanguage::Python, tree_sitter_python::HIGHLIGHTS_QUERY),
        (CargoLinkedTreesitterLanguage::OCamlInterface, tree_sitter_ocaml::HIGHLIGHTS_QUERY),
        (CargoLinkedTreesitterLanguage::Javascript, tree_sitter_javascript::HIGHLIGHT_QUERY),
        (CargoLinkedTreesitterLanguage::JSX, tree_sitter_javascript::HIGHLIGHT_QUERY),
        (CargoLinkedTreesitterLanguage::XML, tree_sitter_xml::XML_HIGHLIGHT_QUERY),
        (CargoLinkedTreesitterLanguage::Markdown, tree_sitter_md::HIGHLIGHT_QUERY_BLOCK),
        (CargoLinkedTreesitterLanguage::Bash, tree_sitter_bash::HIGHLIGHT_QUERY),
        (CargoLinkedTreesitterLanguage::CSS, tree_sitter_css::HIGHLIGHTS_QUERY),
        (CargoLinkedTreesitterLanguage::Go, tree_sitter_go::HIGHLIGHTS_QUERY),
        (CargoLinkedTreesitterLanguage::Haskell, tree_sitter_haskell::HIGHLIGHTS_QUERY),
    ];
    for (grammar, expected) in cases {
        let config = config_with(GrammarConfigKind::CargoLinked(grammar));
        assert_eq!(config.highlight_query_default(None), Some(expected.to_string()));
    }
}
