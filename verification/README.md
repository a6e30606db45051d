# deepwiki_rs

Tools around the documentation a generator writes: finding mermaid diagrams
in markdown, checking them in a headless browser, repairing broken ones with
a language model, naming output by target language, and ranking project
directories by importance.

Layout:

- `src/` is the library, written in Verus: each public function carries a
  contract over a mathematical model of its inputs (character sequences,
  line lists, path components), and the properties that span several
  functions are stated and proved as `law_*` proof functions.
  - `text`: models of `str::lines`, `trim`, `contains`, `replace` and
    joining, with executable counterparts proved against them.
  - `utils`: extraction of fenced mermaid blocks from markdown.
  - `i18n`: target languages, their names, directories, file names and
    messages.
  - `directory_scoring`: path keys and the matching of scored directories.
  - `mermaid_validator`, `browser`: preparation of code for rendering, the
    render script, classification of render errors and retry decisions.
  - `ai_fixer`, `processor`, `fixer`, `markdown_scanner`: prompts, response
    clean-up, per-file tallies and directory walking decisions.
- `app/` holds what performs I/O or needs derives of outside crates: the
  browser session, HTTP requests, file-system walking, serde types.
- `tests/` runs the library on concrete values.
