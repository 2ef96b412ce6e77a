# kakeibo

A household ledger: a command line (`kakeibo`) and a web API
(`kakeibo-api`) over one SQLite/Turso database. The library in `src/` is
written in Verus; every function in it carries a contract that Verus proves.

## Layout

- `src/model.rs` — categories (identifiers, names, order), transactions, budgets.
- `src/text.rs`, `src/fmt.rs` — decimal text, amounts with separators, month
  labels, display-width padding.
- `src/month.rs` — `YYYY-MM-DD` / `YYYY-MM` checks (through chrono) and the
  previous month.
- `src/totals.rs` — per-category totals, spending and income.
- `src/report.rs` — monthly summaries and their screens.
- `src/progress.rs`, `src/progress_lines.rs` — the budgets that apply to a
  month, spending against them or against last month, and its screens.
- `src/args.rs`, `src/cli.rs` — the command-line grammar and its reader.
- `src/commands.rs` — what each command accepts, and the listings it prints.
- `src/repository.rs` — record shapes, edits, row decoding, API responses.
- `src/api.rs` — web request checks, paging, progress plans, error answers.
- `src/auth.rs` — bearer tokens, the token's key id and its RS256 signature
  and claims (through jsonwebtoken), key lookup.
- `app/` — `main`, the database, HTTP serving, fetching the issuer's key set,
  and percentages (floating point); it calls the library for every decision.
- `tests/` — tests of the library.
