# hurl (verified core)

The runner core and HTML report logic of Hurl, written in Verus with its contracts proved.

- `src/primitive.rs`, `src/ast.rs`: the Hurl AST and its accessors (sections of requests and
  responses, `INCLUDE` variables and captures, filter identifiers, displayed texts).
- `src/runner.rs`: values, the variable set, runtime errors and template evaluation.
- `src/body.rs`, `src/multipart.rs`: evaluation of request bodies and multipart parameters; file
  contents come through the `DirectoryContext` trait of `src/fs_context.rs`.
- `src/report.rs`, `src/report_laws.rs`: the pages of a testcase report, its source documents,
  the numbered source lines with their error lines, and the laws they obey.
- `src/text.rs`: decimal rendering, string equality and line counting.
- `app/lib.rs`: the directory context over the file system.
