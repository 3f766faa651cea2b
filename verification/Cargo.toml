[package]
name = "cairo_lint_core"
version = "0.1.0"
edition = "2021"
publish = false

[dependencies]
annotate-snippets = "=0.11.5"
anyhow = "=1.0.104"
cairo-lang-compiler = "=2.8.5"
cairo-lang-defs = "=2.8.5"
cairo-lang-diagnostics = "=2.8.5"
cairo-lang-filesystem = "=2.8.5"
cairo-lang-parser = "=2.8.5"
cairo-lang-semantic = "=2.8.5"
cairo-lang-starknet = "=2.8.5"
cairo-lang-syntax = "=2.8.5"
cairo-lang-test-plugin = "=2.8.5"
cairo-lang-utils = "=2.8.5"
clap = { version = "=4.6.7", features = ["derive", "env"] }
num-bigint = "=0.4.8"
scarb-metadata = "=1.15.1"
scarb-ui = "=0.1.7"
semver = "=1.0.28"
smol_str = "=0.2.2"
starknet-types-core = ">=0.1.0, <0.1.8"
