//! The trusted boundary to the tree-sitter engine and to the statically
//! linked grammar crates.
//!
//! Everything here either declares an outside type or hands a compiled-in
//! constant of one grammar crate through unchanged; no decision of this
//! library is made in this module.

use vstd::prelude::*;

use crate::grammar::CargoLinkedTreesitterLanguage;

verus! {

#[verifier::external_type_specification]
#[verifier::external_body]
pub struct ExTsLanguage(tree_sitter::Language);

#[verifier::external_type_specification]
#[verifier::external_body]
pub struct ExTsQuery(tree_sitter::Query);

#[verifier::external_type_specification]
#[verifier::external_body]
pub struct ExTsQueryError(tree_sitter::QueryError);

/// Relies on `tree_sitter::Query::new`: it compiles a pattern-query
/// against a grammar, returning `Ok` exactly when the text is a valid
/// query for that grammar; whether a given text compiles is not modelled
/// here, so callers learn the outcome only by making the call.
pub assume_specification[ tree_sitter::Query::new ](
    language: &tree_sitter::Language,
    source: &str,
) -> Result<tree_sitter::Query, tree_sitter::QueryError>;

/// The highlight query bundled with one statically linked grammar. Its
/// text is fixed at build time by the grammar crate and is not spelled out
/// here; the wrappers below return it verbatim.
pub uninterp spec fn bundled_highlight_query(grammar: CargoLinkedTreesitterLanguage) -> Seq<char>;

/// Relies on `tree_sitter_typescript::LANGUAGE_TYPESCRIPT`: the statically linked TypeScript grammar.
#[verifier::external_body]
pub(crate) fn language_typescript() -> tree_sitter::Language {
    tree_sitter_typescript::LANGUAGE_TYPESCRIPT.into()
}

/// Relies on `tree_sitter_typescript::LANGUAGE_TSX`: the statically linked TSX grammar.
#[verifier::external_body]
pub(crate) fn language_tsx() -> tree_sitter::Language {
    tree_sitter_typescript::LANGUAGE_TSX.into()
}

/// Relies on `tree_sitter_python::LANGUAGE`: the statically linked Python grammar.
#[verifier::external_body]
pub(crate) fn language_python() -> tree_sitter::Language {
    tree_sitter_python::LANGUAGE.into()
}

/// Relies on `tree_sitter_julia::LANGUAGE`: the statically linked Julia grammar.
#[verifier::external_body]
pub(crate) fn language_julia() -> tree_sitter::Language {
    tree_sitter_julia::LANGUAGE.into()
}

/// Relies on `tree_sitter_scheme::LANGUAGE`: the statically linked Scheme grammar.
#[verifier::external_body]
pub(crate) fn language_scheme() -> tree_sitter::Language {
    tree_sitter_scheme::LANGUAGE.into()
}

/// Relies on `tree_sitter_ocaml::LANGUAGE_OCAML`: the statically linked OCaml grammar.
#[verifier::external_body]
pub(crate) fn language_ocaml() -> tree_sitter::Language {
    tree_sitter_ocaml::LANGUAGE_OCAML.into()
}

/// Relies on `tree_sitter_ocaml::LANGUAGE_OCAML_INTERFACE`: the statically linked OCaml interface grammar.
#[verifier::external_body]
pub(crate) fn language_ocaml_interface() -> tree_sitter::Language {
    tree_sitter_ocaml::LANGUAGE_OCAML_INTERFACE.into()
}

/// Relies on `tree_sitter_rust::LANGUAGE`: the statically linked Rust grammar.
#[verifier::external_body]
pub(crate) fn language_rust() -> tree_sitter::Language {
    tree_sitter_rust::LANGUAGE.into()
}

/// Relies on `tree_sitter_javascript::LANGUAGE`: the statically linked JavaScript grammar.
#[verifier::external_body]
pub(crate) fn language_javascript() -> tree_sitter::Language {
    tree_sitter_javascript::LANGUAGE.into()
}

/// Relies on `tree_sitter_svelte_ng::LANGUAGE`: the statically linked Svelte grammar.
#[verifier::external_body]
pub(crate) fn language_svelte() -> tree_sitter::Language {
    tree_sitter_svelte_ng::LANGUAGE.into()
}

/// Relies on `tree_sitter_json::LANGUAGE`: the statically linked JSON grammar.
#[verifier::external_body]
pub(crate) fn language_json() -> tree_sitter::Language {
    tree_sitter_json::LANGUAGE.into()
}

/// Relies on `tree_sitter_yaml::LANGUAGE`: the statically linked YAML grammar.
#[verifier::external_body]
pub(crate) fn language_yaml() -> tree_sitter::Language {
    tree_sitter_yaml::LANGUAGE.into()
}

/// Relies on `tree_sitter_html::LANGUAGE`: the statically linked HTML grammar.
#[verifier::external_body]
pub(crate) fn language_html() -> tree_sitter::Language {
    tree_sitter_html::LANGUAGE.into()
}

/// Relies on `tree_sitter_xml::LANGUAGE_XML`: the statically linked XML grammar.
#[verifier::external_body]
pub(crate) fn language_xml() -> tree_sitter::Language {
    tree_sitter_xml::LANGUAGE_XML.into()
}

/// Relies on `tree_sitter_zig::LANGUAGE`: the statically linked Zig grammar.
#[verifier::external_body]
pub(crate) fn language_zig() -> tree_sitter::Language {
    tree_sitter_zig::LANGUAGE.into()
}

/// Relies on `tree_sitter_md::LANGUAGE`: the statically linked Markdown block grammar.
#[verifier::external_body]
pub(crate) fn language_markdown() -> tree_sitter::Language {
    tree_sitter_md::LANGUAGE.into()
}

/// Relies on `tree_sitter_go::LANGUAGE`: the statically linked Go grammar.
#[verifier::external_body]
pub(crate) fn language_go() -> tree_sitter::Language {
    tree_sitter_go::LANGUAGE.into()
}

/// Relies on `tree_sitter_lua::LANGUAGE`: the statically linked Lua grammar.
#[verifier::external_body]
pub(crate) fn language_lua() -> tree_sitter::Language {
    tree_sitter_lua::LANGUAGE.into()
}

/// Relies on `tree_sitter_gleam::LANGUAGE`: the statically linked Gleam grammar.
#[verifier::external_body]
pub(crate) fn language_gleam() -> tree_sitter::Language {
    tree_sitter_gleam::LANGUAGE.into()
}

/// Relies on `tree_sitter_bash::LANGUAGE`: the statically linked Bash grammar.
#[verifier::external_body]
pub(crate) fn language_bash() -> tree_sitter::Language {
    tree_sitter_bash::LANGUAGE.into()
}

/// Relies on `tree_sitter_c::LANGUAGE`: the statically linked C grammar.
#[verifier::external_body]
pub(crate) fn language_c() -> tree_sitter::Language {
    tree_sitter_c::LANGUAGE.into()
}

/// Relies on `tree_sitter_cpp::LANGUAGE`: the statically linked C++ grammar.
#[verifier::external_body]
pub(crate) fn language_cpp() -> tree_sitter::Language {
    tree_sitter_cpp::LANGUAGE.into()
}

/// Relies on `tree_sitter_css::LANGUAGE`: the statically linked CSS grammar.
#[verifier::external_body]
pub(crate) fn language_css() -> tree_sitter::Language {
    tree_sitter_css::LANGUAGE.into()
}

/// Relies on `tree_sitter_ruby::LANGUAGE`: the statically linked Ruby grammar.
#[verifier::external_body]
pub(crate) fn language_ruby() -> tree_sitter::Language {
    tree_sitter_ruby::LANGUAGE.into()
}

/// Relies on `tree_sitter_nix::LANGUAGE`: the statically linked Nix grammar.
#[verifier::external_body]
pub(crate) fn language_nix() -> tree_sitter::Language {
    tree_sitter_nix::LANGUAGE.into()
}

/// Relies on `tree_sitter_diff::LANGUAGE`: the statically linked diff grammar.
#[verifier::external_body]
pub(crate) fn language_diff() -> tree_sitter::Language {
    tree_sitter_diff::LANGUAGE.into()
}

/// Relies on `tree_sitter_elixir::LANGUAGE`: the statically linked Elixir grammar.
#[verifier::external_body]
pub(crate) fn language_elixir() -> tree_sitter::Language {
    tree_sitter_elixir::LANGUAGE.into()
}

/// Relies on `tree_sitter_swift::LANGUAGE`: the statically linked Swift grammar.
#[verifier::external_body]
pub(crate) fn language_swift() -> tree_sitter::Language {
    tree_sitter_swift::LANGUAGE.into()
}

/// Relies on `tree_sitter_toml_ng::LANGUAGE`: the statically linked TOML grammar.
#[verifier::external_body]
pub(crate) fn language_toml() -> tree_sitter::Language {
    tree_sitter_toml_ng::LANGUAGE.into()
}

/// Relies on `tree_sitter_haskell::LANGUAGE`: the statically linked Haskell grammar.
#[verifier::external_body]
pub(crate) fn language_haskell() -> tree_sitter::Language {
    tree_sitter_haskell::LANGUAGE.into()
}

/// Relies on `tree_sitter_typescript::HIGHLIGHTS_QUERY`: the highlight query bundled with the TypeScript grammar.
#[verifier::external_body]
pub(crate) fn highlights_typescript() -> (r: &'static str)
    ensures
        r@ == bundled_highlight_query(CargoLinkedTreesitterLanguage::Typescript),
{
    tree_sitter_typescript::HIGHLIGHTS_QUERY
}

/// Relies on `tree_sitter_python::HIGHLIGHTS_QUERY`: the highlight query bundled with the Python grammar.
#[verifier::external_body]
pub(crate) fn highlights_python() -> (r: &'static str)
    ensures
        r@ == bundled_highlight_query(CargoLinkedTreesitterLanguage::Python),
{
    tree_sitter_python::HIGHLIGHTS_QUERY
}

/// Relies on `tree_sitter_scheme::HIGHLIGHTS_QUERY`: the highlight query bundled with the Scheme grammar.
#[verifier::external_body]
pub(crate) fn highlights_scheme() -> (r: &'static str)
    ensures
        r@ == bundled_highlight_query(CargoLinkedTreesitterLanguage::Scheme),
{
    tree_sitter_scheme::HIGHLIGHTS_QUERY
}

/// Relies on `tree_sitter_ocaml::HIGHLIGHTS_QUERY`: the highlight query bundled with the OCaml grammar.
#[verifier::external_body]
pub(crate) fn highlights_ocaml() -> (r: &'static str)
    ensures
        r@ == bundled_highlight_query(CargoLinkedTreesitterLanguage::OCaml),
{
    tree_sitter_ocaml::HIGHLIGHTS_QUERY
}

/// Relies on `tree_sitter_rust::HIGHLIGHTS_QUERY`: the highlight query bundled with the Rust grammar.
#[verifier::external_body]
pub(crate) fn highlights_rust() -> (r: &'static str)
    ensures
        r@ == bundled_highlight_query(CargoLinkedTreesitterLanguage::Rust),
{
    tree_sitter_rust::HIGHLIGHTS_QUERY
}

/// Relies on `tree_sitter_javascript::HIGHLIGHT_QUERY`: the highlight query bundled with the JavaScript grammar.
#[verifier::external_body]
pub(crate) fn highlights_javascript() -> (r: &'static str)
    ensures
        r@ == bundled_highlight_query(CargoLinkedTreesitterLanguage::Javascript),
{
    tree_sitter_javascript::HIGHLIGHT_QUERY
}

/// Relies on `tree_sitter_svelte_ng::HIGHLIGHTS_QUERY`: the highlight query bundled with the Svelte grammar.
#[verifier::external_body]
pub(crate) fn highlights_svelte() -> (r: &'static str)
    ensures
        r@ == bundled_highlight_query(CargoLinkedTreesitterLanguage::Svelte),
{
    tree_sitter_svelte_ng::HIGHLIGHTS_QUERY
}

/// Relies on `tree_sitter_json::HIGHLIGHTS_QUERY`: the highlight query bundled with the JSON grammar.
#[verifier::external_body]
pub(crate) fn highlights_json() -> (r: &'static str)
    ensures
        r@ == bundled_highlight_query(CargoLinkedTreesitterLanguage::JSON),
{
    tree_sitter_json::HIGHLIGHTS_QUERY
}

/// Relies on `tree_sitter_yaml::HIGHLIGHTS_QUERY`: the highlight query bundled with the YAML grammar.
#[verifier::external_body]
pub(crate) fn highlights_yaml() -> (r: &'static str)
    ensures
        r@ == bundled_highlight_query(CargoLinkedTreesitterLanguage::YAML),
{
    tree_sitter_yaml::HIGHLIGHTS_QUERY
}

/// Relies on `tree_sitter_html::HIGHLIGHTS_QUERY`: the highlight query bundled with the HTML grammar.
#[verifier::external_body]
pub(crate) fn highlights_html() -> (r: &'static str)
    ensures
        r@ == bundled_highlight_query(CargoLinkedTreesitterLanguage::HTML),
{
    tree_sitter_html::HIGHLIGHTS_QUERY
}

/// Relies on `tree_sitter_xml::XML_HIGHLIGHT_QUERY`: the highlight query bundled with the XML grammar.
#[verifier::external_body]
pub(crate) fn highlights_xml() -> (r: &'static str)
    ensures
        r@ == bundled_highlight_query(CargoLinkedTreesitterLanguage::XML),
{
    tree_sitter_xml::XML_HIGHLIGHT_QUERY
}

/// Relies on `tree_sitter_zig::HIGHLIGHTS_QUERY`: the highlight query bundled with the Zig grammar.
#[verifier::external_body]
pub(crate) fn highlights_zig() -> (r: &'static str)
    ensures
        r@ == bundled_highlight_query(CargoLinkedTreesitterLanguage::Zig),
{
    tree_sitter_zig::HIGHLIGHTS_QUERY
}

/// Relies on `tree_sitter_md::HIGHLIGHT_QUERY_BLOCK`: the block highlight query bundled with the Markdown grammar.
#[verifier::external_body]
pub(crate) fn highlights_markdown() -> (r: &'static str)
    ensures
        r@ == bundled_highlight_query(CargoLinkedTreesitterLanguage::Markdown),
{
    tree_sitter_md::HIGHLIGHT_QUERY_BLOCK
}

/// Relies on `tree_sitter_go::HIGHLIGHTS_QUERY`: the highlight query bundled with the Go grammar.
#[verifier::external_body]
pub(crate) fn highlights_go() -> (r: &'static str)
    ensures
        r@ == bundled_highlight_query(CargoLinkedTreesitterLanguage::Go),
{
    tree_sitter_go::HIGHLIGHTS_QUERY
}

/// Relies on `tree_sitter_lua::HIGHLIGHTS_QUERY`: the highlight query bundled with the Lua grammar.
#[verifier::external_body]
pub(crate) fn highlights_lua() -> (r: &'static str)
    ensures
        r@ == bundled_highlight_query(CargoLinkedTreesitterLanguage::Lua),
{
    tree_sitter_lua::HIGHLIGHTS_QUERY
}

/// Relies on `tree_sitter_gleam::HIGHLIGHT_QUERY`: the highlight query bundled with the Gleam grammar.
#[verifier::external_body]
pub(crate) fn highlights_gleam() -> (r: &'static str)
    ensures
        r@ == bundled_highlight_query(CargoLinkedTreesitterLanguage::Gleam),
{
    tree_sitter_gleam::HIGHLIGHT_QUERY
}

/// Relies on `tree_sitter_bash::HIGHLIGHT_QUERY`: the highlight query bundled with the Bash grammar.
#[verifier::external_body]
pub(crate) fn highlights_bash() -> (r: &'static str)
    ensures
        r@ == bundled_highlight_query(CargoLinkedTreesitterLanguage::Bash),
{
    tree_sitter_bash::HIGHLIGHT_QUERY
}

/// Relies on `tree_sitter_c::HIGHLIGHT_QUERY`: the highlight query bundled with the C grammar.
#[verifier::external_body]
pub(crate) fn highlights_c() -> (r: &'static str)
    ensures
        r@ == bundled_highlight_query(CargoLinkedTreesitterLanguage::C),
{
    tree_sitter_c::HIGHLIGHT_QUERY
}

/// Relies on `tree_sitter_cpp::HIGHLIGHT_QUERY`: the highlight query bundled with the C++ grammar.
#[verifier::external_body]
pub(crate) fn highlights_cpp() -> (r: &'static str)
    ensures
        r@ == bundled_highlight_query(CargoLinkedTreesitterLanguage::CPP),
{
    tree_sitter_cpp::HIGHLIGHT_QUERY
}

/// Relies on `tree_sitter_css::HIGHLIGHTS_QUERY`: the highlight query bundled with the CSS grammar.
#[verifier::external_body]
pub(crate) fn highlights_css() -> (r: &'static str)
    ensures
        r@ == bundled_highlight_query(CargoLinkedTreesitterLanguage::CSS),
{
    tree_sitter_css::HIGHLIGHTS_QUERY
}

/// Relies on `tree_sitter_ruby::HIGHLIGHTS_QUERY`: the highlight query bundled with the Ruby grammar.
#[verifier::external_body]
pub(crate) fn highlights_ruby() -> (r: &'static str)
    ensures
        r@ == bundled_highlight_query(CargoLinkedTreesitterLanguage::Ruby),
{
    tree_sitter_ruby::HIGHLIGHTS_QUERY
}

/// Relies on `tree_sitter_nix::HIGHLIGHTS_QUERY`: the highlight query bundled with the Nix grammar.
#[verifier::external_body]
pub(crate) fn highlights_nix() -> (r: &'static str)
    ensures
        r@ == bundled_highlight_query(CargoLinkedTreesitterLanguage::Nix),
{
    tree_sitter_nix::HIGHLIGHTS_QUERY
}

/// Relies on `tree_sitter_diff::HIGHLIGHTS_QUERY`: the highlight query bundled with the diff grammar.
#[verifier::external_body]
pub(crate) fn highlights_diff() -> (r: &'static str)
    ensures
        r@ == bundled_highlight_query(CargoLinkedTreesitterLanguage::Diff),
{
    tree_sitter_diff::HIGHLIGHTS_QUERY
}

/// Relies on `tree_sitter_elixir::HIGHLIGHTS_QUERY`: the highlight query bundled with the Elixir grammar.
#[verifier::external_body]
pub(crate) fn highlights_elixir() -> (r: &'static str)
    ensures
        r@ == bundled_highlight_query(CargoLinkedTreesitterLanguage::Elixir),
{
    tree_sitter_elixir::HIGHLIGHTS_QUERY
}

/// Relies on `tree_sitter_swift::HIGHLIGHTS_QUERY`: the highlight query bundled with the Swift grammar.
#[verifier::external_body]
pub(crate) fn highlights_swift() -> (r: &'static str)
    ensures
        r@ == bundled_highlight_query(CargoLinkedTreesitterLanguage::Swift),
{
    tree_sitter_swift::HIGHLIGHTS_QUERY
}

/// Relies on `tree_sitter_toml_ng::HIGHLIGHTS_QUERY`: the highlight query bundled with the TOML grammar.
#[verifier::external_body]
pub(crate) fn highlights_toml() -> (r: &'static str)
    ensures
        r@ == bundled_highlight_query(CargoLinkedTreesitterLanguage::Toml),
{
    tree_sitter_toml_ng::HIGHLIGHTS_QUERY
}

/// Relies on `tree_sitter_haskell::HIGHLIGHTS_QUERY`: the highlight query bundled with the Haskell grammar.
#[verifier::external_body]
pub(crate) fn highlights_haskell() -> (r: &'static str)
    ensures
        r@ == bundled_highlight_query(CargoLinkedTreesitterLanguage::Haskell),
{
    tree_sitter_haskell::HIGHLIGHTS_QUERY
}

} // verus!
