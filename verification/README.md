# cairo_lint_core

A linter for Cairo: checks that report suspicious code (double comparisons,
manual `Option`/`Result` methods, `loop`s that are `while`s, unused imports and
more), the rewrites that fix what they report, and the application of those
rewrites to a file. The library is written in Verus; each check and each
rewrite has a contract that states exactly what it reports or produces.

Layout:

- `src/syntax.rs`, `src/semantic.rs`: the models of the compiler's syntax tree
  and semantic arenas that the checks read.
- `src/lints/`: one module per check.
- `src/fix/`: the rewrites, the fixes of unused imports, and how fixes are
  sorted, selected and applied.
- `src/project.rs`: the project configuration built from Scarb's metadata.
- `src/diagnostics.rs`, `src/plugin.rs`: diagnostics, their kinds, and how they
  are rendered.
- `app/`: the command-line program, which reads the compiler's trees into the
  library's models, runs the checks as a compiler plugin, prints the
  diagnostics and writes the fixes.

Dependencies: `cairo-lang-parser` is used by `app/` alone, to parse the files
whose trees it hands to the checks. `starknet-types-core` is used by no code;
it is named only to keep its version below 0.1.8, the versions with which the
cairo-lang 2.8.5 crates build.
