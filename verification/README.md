# effect_doctor_core

Health checks for Effect TS codebases: a linter whose rules, report and
change-scope logic are written in Verus and proved against their contracts.

## Layout

- `src/` — the verified library.
  - `ast.rs`: the plain model of a parsed file (expressions, statements and
    the depth-first walk of events the rules read).
  - `effect_imports.rs`, `matchers.rs`, `search.rs`: which local names bind
    Effect modules, and the matchers the rules share.
  - `rules/`: one module per rule family, each a spec of what it reports
    and the handler proved to report exactly that; `runner.rs` dispatches the
    walk to them and `profiles.rs` proves the experimental families opt-in.
  - `lint.rs`: a parsed file to line/column diagnostics.
  - `engine.rs`, `git_scope.rs`: the effect version a project targets, report
    order, the changed-files / changed-lines scopes, the type-aware tier.
  - `summary.rs`, `report.rs`: the terminal report's groups, breakdown,
    listing, exit status and editor ranges.
  - `cycles.rs`, `scc.rs`, `reach.rs`: import cycles from strongly-connected
    components, proved to be exactly the mutual-reachability classes.
  - `fn_index.rs`, `content_addr.rs`, `examples.rs`, `text.rs`: cross-file
    function findings, content hashes and file ids, rewrite recipes, and
    verified string helpers.
- `tests/` — tests run against the compiled library.
- `app/` — the command line (parsing with oxc, file walking, git, the
  language-service tier, rendering, the LSP server).
