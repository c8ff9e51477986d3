//! Per-language configuration and grammar / highlight-query resolution.
//!
//! A [`LanguageConfig`](config::LanguageConfig) record describes one programming
//! language: file extensions, LSP command, comment syntax, and an optional
//! grammar reference. The grammar reference is resolved to a live
//! tree-sitter grammar, and a highlight query is chosen for it by an
//! ordered fallback: a community-maintained query (text-rewritten to the
//! portable predicate dialect and validated by compiling it against the
//! grammar) is preferred over the grammar's own bundled default query.

pub mod config;
pub mod grammar;
pub mod highlight;
pub mod query_text;
pub mod ts;
