//! Grammar references and their resolution to statically linked grammars.

use vstd::prelude::*;

use crate::ts;
use crate::ts::bundled_highlight_query;

verus! {

/// One member of the closed set of grammars that can be compiled into the
/// host process.
#[derive(Debug, Clone, PartialEq, Eq, Structural)]
pub enum CargoLinkedTreesitterLanguage {
    Typescript,
    TSX,
    Python,
    Julia,
    Scheme,
    OCaml,
    OCamlInterface,
    Rust,
    Graphql,
    Javascript,
    JSX,
    Svelte,
    JSON,
    YAML,
    HTML,
    XML,
    Zig,
    Markdown,
    Go,
    Lua,
    Gleam,
    Bash,
    C,
    CPP,
    CSS,
    Ruby,
    Nix,
    Fish,
    Diff,
    Elixir,
    Swift,
    Heex,
    Toml,
    KiQuickfix,
    Haskell,
    Hcl,
}

/// How to obtain the grammar for a language: a statically linked grammar
/// known at build time, or source to be fetched and compiled at runtime.
#[derive(Debug, Clone)]
pub enum GrammarConfigKind {
    /// Recommended over `FromSource`, which is not reliable across
    /// operating systems.
    CargoLinked(CargoLinkedTreesitterLanguage),
    FromSource { url: String, commit: String, subpath: Option<String> },
}

/// A grammar reference: an identifier together with where the grammar
/// comes from.
#[derive(Debug, Clone)]
pub struct GrammarConfig {
    pub id: String,
    pub kind: GrammarConfigKind,
}

/// What the runtime grammar loader needs in order to fetch and build a
/// `FromSource` grammar: the grammar's identifier and its source location.
#[derive(Debug, Clone)]
pub struct RemoteGrammarConfiguration {
    pub id: String,
    pub url: String,
    pub commit: String,
    pub subpath: Option<String>,
}

/// Why resolving a grammar failed.
#[derive(Debug, Clone, PartialEq, Eq, Structural)]
pub enum GrammarError {
    /// The grammar source could not be fetched.
    FetchFailed,
    /// The grammar could not be compiled or is not linked into this build.
    CompileFailed,
}

/// The statically linked grammars whose grammar crate is linked into this
/// build. The remaining identifiers name grammars whose crates are not
/// available here; resolving them fails.
pub open spec fn linked_grammar_available(grammar: CargoLinkedTreesitterLanguage) -> bool {
    !(grammar is Graphql || grammar is Fish || grammar is Heex || grammar is KiQuickfix
        || grammar is Hcl)
}

/// The bundled default highlight query of one statically linked grammar,
/// when the grammar ships one. TSX, JSX and the OCaml interface dialect
/// share the query of their base grammar; the quickfix grammar's query is
/// spelled here directly.
pub open spec fn bundled_default_query(grammar: CargoLinkedTreesitterLanguage) -> Option<
    Seq<char>,
> {
    match grammar {
        CargoLinkedTreesitterLanguage::Julia => None,
        CargoLinkedTreesitterLanguage::Graphql => None,
        CargoLinkedTreesitterLanguage::Hcl => None,
        CargoLinkedTreesitterLanguage::Fish => None,
        CargoLinkedTreesitterLanguage::Heex => None,
        CargoLinkedTreesitterLanguage::KiQuickfix => Some(" (header) @keyword"@),
        CargoLinkedTreesitterLanguage::TSX => Some(
            bundled_highlight_query(CargoLinkedTreesitterLanguage::Typescript),
        ),
        CargoLinkedTreesitterLanguage::JSX => Some(
            bundled_highlight_query(CargoLinkedTreesitterLanguage::Javascript),
        ),
        CargoLinkedTreesitterLanguage::OCamlInterface => Some(
            bundled_highlight_query(CargoLinkedTreesitterLanguage::OCaml),
        ),
        _ => Some(bundled_highlight_query(grammar)),
    }
}

impl CargoLinkedTreesitterLanguage {
    /// The live grammar handle for this identifier, when its grammar crate
    /// is linked into this build.
    pub fn to_tree_sitter_language(&self) -> (r: Option<tree_sitter::Language>)
        ensures
            r is Some <==> linked_grammar_available(*self),
    {
        match self {
            Self::Typescript => Some(ts::language_typescript()),
            Self::TSX => Some(ts::language_tsx()),
            Self::Python => Some(ts::language_python()),
            Self::Julia => Some(ts::language_julia()),
            Self::Scheme => Some(ts::language_scheme()),
            Self::OCaml => Some(ts::language_ocaml()),
            Self::OCamlInterface => Some(ts::language_ocaml_interface()),
            Self::Rust => Some(ts::language_rust()),
            Self::Javascript => Some(ts::language_javascript()),
            Self::JSX => Some(ts::language_javascript()),
            Self::Svelte => Some(ts::language_svelte()),
            Self::JSON => Some(ts::language_json()),
            Self::YAML => Some(ts::language_yaml()),
            Self::HTML => Some(ts::language_html()),
            Self::XML => Some(ts::language_xml()),
            Self::Zig => Some(ts::language_zig()),
            Self::Markdown => Some(ts::language_markdown()),
            Self::Go => Some(ts::language_go()),
            Self::Lua => Some(ts::language_lua()),
            Self::Gleam => Some(ts::language_gleam()),
            Self::Bash => Some(ts::language_bash()),
            Self::C => Some(ts::language_c()),
            Self::CPP => Some(ts::language_cpp()),
            Self::CSS => Some(ts::language_css()),
            Self::Ruby => Some(ts::language_ruby()),
            Self::Nix => Some(ts::language_nix()),
            Self::Diff => Some(ts::language_diff()),
            Self::Elixir => Some(ts::language_elixir()),
            Self::Swift => Some(ts::language_swift()),
            Self::Toml => Some(ts::language_toml()),
            Self::Haskell => Some(ts::language_haskell()),
            // These grammars' crates are not linked into this build.
            Self::Graphql => None,
            Self::Fish => None,
            Self::Heex => None,
            Self::KiQuickfix => None,
            Self::Hcl => None,
        }
    }

    /// The highlight query bundled with this grammar, when it ships one.
    pub fn default_highlight_query(&self) -> (r: Option<String>)
        ensures
            r is Some <==> bundled_default_query(*self) is Some,
            r matches Some(q) ==> bundled_default_query(*self) == Some(q@),
    {
        match self {
            Self::Typescript => Some(ts::highlights_typescript().to_owned()),
            Self::TSX => Some(ts::highlights_typescript().to_owned()),
            Self::Python => Some(ts::highlights_python().to_owned()),
            Self::Julia => None,
            Self::Scheme => Some(ts::highlights_scheme().to_owned()),
            Self::OCaml => Some(ts::highlights_ocaml().to_owned()),
            Self::OCamlInterface => Some(ts::highlights_ocaml().to_owned()),
            Self::Rust => Some(ts::highlights_rust().to_owned()),
            Self::Graphql => None,
            Self::Javascript => Some(ts::highlights_javascript().to_owned()),
            Self::JSX => Some(ts::highlights_javascript().to_owned()),
            Self::Svelte => Some(ts::highlights_svelte().to_owned()),
            Self::JSON => Some(ts::highlights_json().to_owned()),
            Self::YAML => Some(ts::highlights_yaml().to_owned()),
            Self::HTML => Some(ts::highlights_html().to_owned()),
            Self::Haskell => Some(ts::highlights_haskell().to_owned()),
            Self::XML => Some(ts::highlights_xml().to_owned()),
            Self::Zig => Some(ts::highlights_zig().to_owned()),
            Self::Markdown => Some(ts::highlights_markdown().to_owned()),
            Self::Go => Some(ts::highlights_go().to_owned()),
            Self::Lua => Some(ts::highlights_lua().to_owned()),
            Self::Gleam => Some(ts::highlights_gleam().to_owned()),
            Self::Bash => Some(ts::highlights_bash().to_owned()),
            Self::C => Some(ts::highlights_c().to_owned()),
            Self::CPP => Some(ts::highlights_cpp().to_owned()),
            Self::CSS => Some(ts::highlights_css().to_owned()),
            Self::Ruby => Some(ts::highlights_ruby().to_owned()),
            Self::Nix => Some(ts::highlights_nix().to_owned()),
            // The Fish and Heex grammars are not linked into this build,
            // so their bundled queries are not available either.
            Self::Fish => None,
            Self::Heex => None,
            Self::Diff => Some(ts::highlights_diff().to_owned()),
            Self::Elixir => Some(ts::highlights_elixir().to_owned()),
            Self::Swift => Some(ts::highlights_swift().to_owned()),
            Self::Toml => Some(ts::highlights_toml().to_owned()),
            Self::KiQuickfix => Some(" (header) @keyword".to_owned()),
            Self::Hcl => None,
        }
    }
}

/// Resolves a grammar reference to a live grammar handle.
///
/// A statically linked grammar is resolved by pure dispatch into the
/// compiled-in table and fails only when its grammar crate is not linked
/// into this build. A `FromSource` reference is resolved by whatever
/// loader fetched and compiled it; `remote_grammar` is that loader's
/// outcome, and it is passed through unchanged.
pub fn resolve_grammar(
    kind: &GrammarConfigKind,
    remote_grammar: Result<tree_sitter::Language, GrammarError>,
) -> (r: Result<tree_sitter::Language, GrammarError>)
    ensures
        match kind {
            GrammarConfigKind::CargoLinked(grammar) => if linked_grammar_available(*grammar) {
                r is Ok
            } else {
                r == Result::<tree_sitter::Language, GrammarError>::Err(GrammarError::CompileFailed)
            },
            GrammarConfigKind::FromSource { .. } => r == remote_grammar,
        },
{
    match kind {
        GrammarConfigKind::CargoLinked(grammar) => match grammar.to_tree_sitter_language() {
            Some(language) => Ok(language),
            None => Err(GrammarError::CompileFailed),
        },
        GrammarConfigKind::FromSource { .. } => remote_grammar,
    }
}

} // verus!
