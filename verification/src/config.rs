//! The per-language configuration record and its helper types.

use vstd::prelude::*;

use crate::grammar::{GrammarConfig, GrammarConfigKind, RemoteGrammarConfiguration};

verus! {

#[verifier::external_type_specification]
#[verifier::external_body]
pub struct ExJsonValue(serde_json::Value);

/// Relies on `serde_json::Value`'s derived `Clone`: it produces a value
/// equal to the one cloned.
pub assume_specification[ <serde_json::Value as Clone>::clone ](v: &serde_json::Value) -> (r:
    serde_json::Value)
    ensures
        r == *v,
;

/// A language identifier as defined by the LSP protocol.
#[derive(Debug, Clone, PartialEq, Eq, Hash, PartialOrd, Ord)]
pub struct LanguageId(pub String);

impl LanguageId {
    pub fn new(id: &'static str) -> (r: Self)
        ensures
            r.0@ == id@,
    {
        LanguageId(id.to_owned())
    }
}

/// An executable name together with its arguments.
#[derive(Debug, Clone, PartialEq, Eq)]
pub struct Command {
    pub command: String,
    pub arguments: Vec<String>,
}

impl Command {
    pub fn new(command: &'static str, arguments: &[&'static str]) -> (r: Self)
        ensures
            r.command@ == command@,
            r.arguments@.len() == arguments@.len(),
            forall|i: int|
                0 <= i < arguments@.len() ==> r.arguments@[i]@ == arguments@[i]@,
    {
        let mut args: Vec<String> = Vec::new();
        let mut i: usize = 0;
        while i < arguments.len()
            invariant
                i <= arguments@.len(),
                args@.len() == i,
                forall|j: int| 0 <= j < i ==> args@[j]@ == arguments@[j]@,
            decreases arguments@.len() - i,
        {
            args.push(arguments[i].to_owned());
            i = i + 1;
        }
        Command { command: command.to_owned(), arguments: args }
    }
}

impl Default for Command {
    fn default() -> (r: Self)
        ensures
            r.command@ == Seq::<char>::empty(),
            r.arguments@ == Seq::<String>::empty(),
    {
        Command { command: String::new(), arguments: Vec::new() }
    }
}

/// The command that starts a language server, together with the LSP
/// initialization options handed to it.
#[derive(Debug, Clone)]
pub struct LspCommand {
    pub command: Command,
    pub initialization_options: Option<serde_json::Value>,
}

/// A command ready to be run as a separate process.
#[derive(Debug, Clone)]
pub struct ProcessCommand {
    pub command: String,
    pub arguments: Vec<String>,
}

/// Clones a list of strings, keeping every element equal.
fn clone_strings(v: &Vec<String>) -> (r: Vec<String>)
    ensures
        r@ == v@,
{
    let mut out: Vec<String> = Vec::new();
    let mut i: usize = 0;
    while i < v.len()
        invariant
            i <= v@.len(),
            out@.len() == i,
            forall|j: int| 0 <= j < i ==> out@[j] == v@[j],
        decreases v@.len() - i,
    {
        out.push(v[i].clone());
        i = i + 1;
    }
    assert(out@ =~= v@);
    out
}

impl ProcessCommand {
    pub fn new(command: &String, arguments: &Vec<String>) -> (r: Self)
        ensures
            r.command == *command,
            r.arguments@ == arguments@,
    {
        ProcessCommand { command: command.clone(), arguments: clone_strings(arguments) }
    }
}

/// An external formatter: it receives the content on standard input and is
/// expected to return the formatted output on standard output.
#[derive(Debug, Clone)]
pub struct Formatter {
    pub command: ProcessCommand,
}

impl From<ProcessCommand> for Formatter {
    fn from(command: ProcessCommand) -> (r: Self) {
        Formatter { command }
    }
}

impl vstd::std_specs::convert::FromSpecImpl<ProcessCommand> for Formatter {
    open spec fn obeys_from_spec() -> bool {
        true
    }

    open spec fn from_spec(command: ProcessCommand) -> Self {
        Formatter { command }
    }
}

/// The immutable record describing one language: how its files are
/// recognised, how its language server and formatter are started, its
/// comment syntax, and which grammar backs it.
#[derive(Debug, Clone)]
pub struct LanguageConfig {
    pub extensions: Vec<String>,
    /// For files without extensions.
    pub file_names: Vec<String>,
    pub lsp_language_id: Option<LanguageId>,
    pub lsp_command: Option<LspCommand>,
    pub tree_sitter_grammar_config: Option<GrammarConfig>,
    /// The formatter command receives the content on STDIN and is expected
    /// to return the formatted output on STDOUT.
    pub formatter: Option<Command>,
    pub line_comment_prefix: Option<String>,
    pub block_comment_affixes: Option<(String, String)>,
}

impl LanguageConfig {
    /// The empty configuration: no extensions, no server, no grammar.
    pub fn new() -> (r: Self)
        ensures
            r.extensions@ == Seq::<String>::empty(),
            r.file_names@ == Seq::<String>::empty(),
            r.lsp_language_id is None,
            r.lsp_command is None,
            r.tree_sitter_grammar_config is None,
            r.formatter is None,
            r.line_comment_prefix is None,
            r.block_comment_affixes is None,
    {
        LanguageConfig {
            extensions: Vec::new(),
            file_names: Vec::new(),
            lsp_language_id: None,
            lsp_command: None,
            tree_sitter_grammar_config: None,
            formatter: None,
            line_comment_prefix: None,
            block_comment_affixes: None,
        }
    }

    pub fn file_names(&self) -> (r: &Vec<String>)
        ensures
            *r == self.file_names,
    {
        &self.file_names
    }

    pub fn lsp_language_id(&self) -> (r: &Option<LanguageId>)
        ensures
            *r == self.lsp_language_id,
    {
        &self.lsp_language_id
    }

    pub fn line_comment_prefix(&self) -> (r: Option<String>)
        ensures
            r == self.line_comment_prefix,
    {
        match &self.line_comment_prefix {
            None => None,
            Some(prefix) => Some(prefix.clone()),
        }
    }

    pub fn block_comment_affixes(&self) -> (r: Option<(String, String)>)
        ensures
            r == self.block_comment_affixes,
    {
        match &self.block_comment_affixes {
            None => None,
            Some((open_affix, close_affix)) => Some((open_affix.clone(), close_affix.clone())),
        }
    }

    pub fn extensions(&self) -> (r: &Vec<String>)
        ensures
            *r == self.extensions,
    {
        &self.extensions
    }

    pub fn initialization_options(&self) -> (r: Option<serde_json::Value>)
        ensures
            match self.lsp_command {
                None => r is None,
                Some(command) => r == command.initialization_options,
            },
    {
        match &self.lsp_command {
            None => None,
            Some(command) => match &command.initialization_options {
                None => None,
                Some(options) => Some(options.clone()),
            },
        }
    }

    /// The loader configuration for a `FromSource` grammar reference;
    /// statically linked grammars need no loading and yield `None`.
    pub fn tree_sitter_grammar_config(&self) -> (r: Option<RemoteGrammarConfiguration>)
        ensures
            match self.tree_sitter_grammar_config {
                None => r is None,
                Some(config) => match config.kind {
                    GrammarConfigKind::CargoLinked(_) => r is None,
                    GrammarConfigKind::FromSource { url, commit, subpath } => r matches Some(remote)
                        && remote.id == config.id && remote.url == url && remote.commit == commit
                        && remote.subpath == subpath,
                },
            },
    {
        match &self.tree_sitter_grammar_config {
            None => None,
            Some(config) => match &config.kind {
                GrammarConfigKind::CargoLinked(_) => None,
                GrammarConfigKind::FromSource { url, commit, subpath } => Some(
                    RemoteGrammarConfiguration {
                        id: config.id.clone(),
                        url: url.clone(),
                        commit: commit.clone(),
                        subpath: match subpath {
                            None => None,
                            Some(subpath) => Some(subpath.clone()),
                        },
                    },
                ),
            },
        }
    }

    /// No locals query is used for any language.
    pub fn locals_query(&self) -> (r: Option<&'static str>)
        ensures
            r is None,
    {
        None
    }

    /// No injection query is used for any language.
    pub fn injection_query(&self) -> (r: Option<&'static str>)
        ensures
            r is None,
    {
        None
    }

    pub fn lsp_process_command(&self) -> (r: Option<ProcessCommand>)
        ensures
            match self.lsp_command {
                None => r is None,
                Some(lsp) => r matches Some(p) && p.command == lsp.command.command
                    && p.arguments@ == lsp.command.arguments@,
            },
    {
        match &self.lsp_command {
            None => None,
            Some(lsp) => Some(ProcessCommand::new(&lsp.command.command, &lsp.command.arguments)),
        }
    }

    pub fn tree_sitter_grammar_id(&self) -> (r: Option<String>)
        ensures
            match self.tree_sitter_grammar_config {
                None => r is None,
                Some(config) => r matches Some(id) && id == config.id,
            },
    {
        match &self.tree_sitter_grammar_config {
            None => None,
            Some(config) => Some(config.id.clone()),
        }
    }

    pub fn id(&self) -> (r: Option<LanguageId>)
        ensures
            match self.lsp_language_id {
                None => r is None,
                Some(id) => r matches Some(out) && out.0 == id.0,
            },
    {
        match &self.lsp_language_id {
            None => None,
            Some(id) => Some(LanguageId(id.0.clone())),
        }
    }

    fn formatter_command(&self) -> (r: Option<ProcessCommand>)
        ensures
            match self.formatter {
                None => r is None,
                Some(command) => r matches Some(p) && p.command == command.command
                    && p.arguments@ == command.arguments@,
            },
    {
        match &self.formatter {
            None => None,
            Some(command) => Some(ProcessCommand::new(&command.command, &command.arguments)),
        }
    }

    pub fn formatter(&self) -> (r: Option<Formatter>)
        ensures
            match self.formatter {
                None => r is None,
                Some(command) => r matches Some(f) && f.command.command == command.command
                    && f.command.arguments@ == command.arguments@,
            },
    {
        match self.formatter_command() {
            None => None,
            Some(command) => Some(Formatter::from(command)),
        }
    }
}

impl Default for LanguageConfig {
    fn default() -> (r: Self)
        ensures
            r.extensions@ == Seq::<String>::empty(),
            r.file_names@ == Seq::<String>::empty(),
            r.lsp_language_id is None,
            r.lsp_command is None,
            r.tree_sitter_grammar_config is None,
            r.formatter is None,
            r.line_comment_prefix is None,
            r.block_comment_affixes is None,
    {
        LanguageConfig::new()
    }
}

} // verus!
