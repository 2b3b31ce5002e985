# muninn_core

The verified core of Muninn, a filesystem metadata scanner for corpus
analysis. It classifies files by how deeply they can be inspected,
dispatches them to format parsers, runs analysis passes (filename version,
department, cross-references, jargon) and aggregates a corpus summary. The
library's functions state their behaviour in `requires`/`ensures` and are
proved by Verus, except for the small trusted wrappers around outside code
listed below, whose contracts are believed as written.

Layout:

- `src/` — the library, verified with Verus.
  - `classify.rs` — extension → (inspection depth, parser) table.
  - `text.rs` — char-level helpers: case folding, char search, and the
    file-name, extension and stem rules of paths (`/` and `\` both
    separate components).
  - `globs.rs` — glob sets compiled with `globset`, kept beside the patterns
    they were built from.
  - `config.rs`, `error.rs`, `output.rs` — configuration, errors, report data.
  - `analysis/` — summary, department, version, cross-references, jargon.
  - `parsers/` — the parser trait and its implementations, MIME detection.
  - `scanner.rs` — the pipeline's decisions: root validation, exclusion
    globs, size limit, per-file processing, file-name hashing.
- `tests/` — tests of the library on concrete values.
- `app/` — the `muninn` command: argument parsing, directory walking, file
  reads, parallel processing, and the JSON report.

Trusted code (`#[verifier::external_body]` wrappers, each naming the outside
function it calls in its doc comment):

- `globs.rs`: `new_glob_set_builder`, `add_glob`, `build_glob_set`,
  `glob_set_is_match` (`globset`).
- `analysis/version.rs`: `regex_find` (`regex::Regex::new`, `Regex::find`).
- `analysis/xref.rs`: `regex_set_new` (`regex::RegexSet::new`),
  `regex_find_all` (`Regex::new`, `Regex::find_iter`).
- `parsers/common.rs`: `infer_mime` (`infer::get`), `guess_mime`
  (`mime_guess::from_path`).
- `parsers/pdf.rs`: `load_pdf` (`lopdf::Document::load_mem`);
  `parsers/ooxml.rs`: `zip_has_entry` (`zip::ZipArchive::new`,
  `ZipArchive::index_for_name`); `parsers/ole.rs`: `open_compound_file`
  (`cfb::CompoundFile::open`).
- `analysis/summary.rs`: `system_now`, `since_unix_epoch`,
  `until_unix_epoch`, `duration_nanos` (the system clock, through
  `std::time`).
- `text.rs`: the contract of `String::push`.

Results of outside code that are functions of their arguments alone are
named by uninterpreted spec functions (`regex_compiles`, `leftmost_match`,
`glob_set_matches`, `sniffed_mime`, `pdf_loads`, `zip_opens`, ...);
contracts speak of those names.

Not implemented: jargon extraction needs a background corpus of English
word frequencies that is not part of this repository, so it reports no
terms; the parsers extract no format metadata yet. They record an error
when a file's contents could not be read, and the PDF, OOXML, OpenDocument,
OLE and RTF parsers one when the contents are not a well-formed file of
their format (loaded by `lopdf`, read by `zip` or `cfb`, or, for RTF,
checked for its header and balanced braces).
