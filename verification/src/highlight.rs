//! Highlight-query resolution: an ordered fallback between the community
//! query and the grammar's bundled default, validated against the grammar.

use vstd::prelude::*;

use crate::config::LanguageConfig;
use crate::grammar::resolve_grammar;
use crate::grammar::{
    bundled_default_query, linked_grammar_available, GrammarConfig, GrammarConfigKind, GrammarError,
};
use crate::query_text::rewritten;
use crate::query_text::to_portable_query;

verus! {

/// The default query owed for this grammar reference: the bundled query of
/// a statically linked grammar, or the `highlights` file the runtime
/// loader found for a `FromSource` grammar.
pub open spec fn default_query_view(
    config: Option<GrammarConfig>,
    runtime_highlights: Option<String>,
) -> Option<Seq<char>> {
    match config {
        None => None,
        Some(c) => match c.kind {
            GrammarConfigKind::CargoLinked(grammar) => bundled_default_query(grammar),
            GrammarConfigKind::FromSource { .. } => match runtime_highlights {
                None => None,
                Some(q) => Some(q@),
            },
        },
    }
}

/// The grammar reference resolves to a live grammar: an available
/// statically linked grammar, or a `FromSource` reference whose loader
/// succeeded.
pub open spec fn grammar_resolves(
    config: Option<GrammarConfig>,
    remote_grammar: Result<tree_sitter::Language, GrammarError>,
) -> bool {
    match config {
        None => false,
        Some(c) => match c.kind {
            GrammarConfigKind::CargoLinked(grammar) => linked_grammar_available(grammar),
            GrammarConfigKind::FromSource { .. } => remote_grammar is Ok,
        },
    }
}

/// Chooses between the community candidate and the bundled default: the
/// community candidate is returned exactly when it is present and it
/// compiled; in every other case the default (or its absence) is returned.
pub fn select_query_candidate(
    community: Option<String>,
    community_compiles: bool,
    fallback: Option<String>,
) -> (r: Option<String>)
    ensures
        community is Some && community_compiles ==> r == community,
        !(community is Some && community_compiles) ==> r == fallback,
{
    match community {
        Some(q) => if community_compiles {
            Some(q)
        } else {
            fallback
        },
        None => fallback,
    }
}

impl LanguageConfig {
    /// The live grammar for this language: the statically linked grammar
    /// for a `CargoLinked` reference; for a `FromSource` reference, the
    /// handle the runtime loader produced, passed in as `remote_grammar`.
    pub fn tree_sitter_language(&self, remote_grammar: Option<tree_sitter::Language>) -> (r: Option<
        tree_sitter::Language,
    >)
        ensures
            match self.tree_sitter_grammar_config {
                None => r is None,
                Some(config) => match config.kind {
                    GrammarConfigKind::CargoLinked(grammar) => r is Some
                        <==> linked_grammar_available(grammar),
                    GrammarConfigKind::FromSource { .. } => r == remote_grammar,
                },
            },
    {
        match &self.tree_sitter_grammar_config {
            None => None,
            Some(config) => match &config.kind {
                GrammarConfigKind::CargoLinked(grammar) => grammar.to_tree_sitter_language(),
                GrammarConfigKind::FromSource { .. } => remote_grammar,
            },
        }
    }

    /// The community-maintained highlight query for this language's
    /// grammar, rewritten to the portable dialect. `community_query` is
    /// the raw text the community query store holds under this grammar's
    /// identifier, if any.
    pub fn highlight_query_nvim_treesitter(&self, community_query: Option<&str>) -> (r: Option<
        String,
    >)
        ensures
            self.tree_sitter_grammar_config is None ==> r is None,
            match community_query {
                None => r is None,
                Some(raw) => self.tree_sitter_grammar_config is Some ==> (r matches Some(q) && q@
                    == rewritten(raw@)),
            },
    {
        match &self.tree_sitter_grammar_config {
            None => None,
            Some(_) => match community_query {
                None => None,
                Some(raw) => Some(to_portable_query(raw)),
            },
        }
    }

    /// The grammar's own bundled highlight query: compiled-in for a
    /// statically linked grammar; for a `FromSource` grammar, the
    /// `highlights` file the runtime loader found, passed in as
    /// `runtime_highlights`. Absence is normal, never an error.
    pub fn highlight_query_default(&self, runtime_highlights: Option<String>) -> (r: Option<String>)
        ensures
            r is Some <==> default_query_view(self.tree_sitter_grammar_config, runtime_highlights)
                is Some,
            r matches Some(q) ==> default_query_view(
                self.tree_sitter_grammar_config,
                runtime_highlights,
            ) == Some(q@),
    {
        match &self.tree_sitter_grammar_config {
            None => None,
            Some(config) => match &config.kind {
                GrammarConfigKind::CargoLinked(grammar) => grammar.default_highlight_query(),
                GrammarConfigKind::FromSource { .. } => runtime_highlights,
            },
        }
    }

    /// Resolves the highlight query for this language.
    ///
    /// The community query, rewritten to the portable dialect, is strictly
    /// preferred: it is validated by compiling it against the resolved
    /// grammar, and on success it is the result. When there is no
    /// community query or it fails to compile, the grammar's bundled
    /// default is returned without validation, trusted by construction.
    /// When no grammar reference is present, or the grammar itself cannot
    /// be resolved, there is no highlighting and the result is `None`;
    /// neither case is an error, and a community query that fails to
    /// compile never surfaces as one.
    pub fn highlight_query(
        &self,
        community_query: Option<&str>,
        remote_grammar: Result<tree_sitter::Language, GrammarError>,
        runtime_highlights: Option<String>,
    ) -> (r: Option<String>)
        ensures
            !grammar_resolves(self.tree_sitter_grammar_config, remote_grammar) ==> r is None,
            grammar_resolves(self.tree_sitter_grammar_config, remote_grammar) ==> {
                let fallback = default_query_view(
                    self.tree_sitter_grammar_config,
                    runtime_highlights,
                );
                &&& fallback is Some ==> r is Some
                &&& r is None ==> fallback is None
                &&& r matches Some(q) ==> ((community_query matches Some(raw) && q@ == rewritten(
                    raw@,
                )) || fallback == Some(q@))
                &&& community_query is None ==> ((r is Some <==> fallback is Some) && (
                r matches Some(q) ==> fallback == Some(q@)))
            },
    {
        let config = match &self.tree_sitter_grammar_config {
            None => {
                return None;
            },
            Some(config) => config,
        };
        let language = match resolve_grammar(&config.kind, remote_grammar) {
            Ok(language) => language,
            Err(_) => {
                return None;
            },
        };
        let community = self.highlight_query_nvim_treesitter(community_query);
        let community_compiles: bool = match &community {
            Some(q) => tree_sitter::Query::new(&language, q.as_str()).is_ok(),
            None => false,
        };
        let fallback = self.highlight_query_default(runtime_highlights);
        select_query_candidate(community, community_compiles, fallback)
    }
}

} // verus!
