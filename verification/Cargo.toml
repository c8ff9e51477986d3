[package]
name = "language_config"
version = "0.1.0"
edition = "2021"
publish = false

[dependencies]
tree-sitter = "*"
serde_json = "*"
tree-sitter-bash = "*"
tree-sitter-c = "*"
tree-sitter-cpp = "*"
tree-sitter-css = "*"
tree-sitter-diff = "*"
tree-sitter-elixir = "*"
tree-sitter-gleam = "*"
tree-sitter-go = "*"
tree-sitter-haskell = "*"
tree-sitter-html = "*"
tree-sitter-javascript = "*"
tree-sitter-json = "*"
tree-sitter-julia = "*"
tree-sitter-lua = "*"
tree-sitter-md = "*"
tree-sitter-nix = "*"
tree-sitter-ocaml = "*"
tree-sitter-python = "*"
tree-sitter-ruby = "*"
tree-sitter-rust = "*"
tree-sitter-scheme = "*"
tree-sitter-svelte-ng = "*"
tree-sitter-swift = "*"
tree-sitter-toml-ng = "*"
tree-sitter-typescript = "*"
tree-sitter-xml = "*"
tree-sitter-yaml = "*"
tree-sitter-zig = "*"
