# quickswitch

A terminal directory switcher: a list of the current directory's entries
with incremental search, hidden-file toggling, per-directory remembered
positions, a history list of visited directories and a preview pane. The
preview shows the extracted text of PDF files and, for other files, their
size.

## Layout

- `src/` is the library, verified with Verus. It holds the application
  state and its filter, the navigation rules of the file list, the shared
  key handling (search typing, moving the selection, entering and leaving
  directories), the keys of the Normal and History modes, recording visits
  in the history, the preview state and its scrolling, the PDF and binary
  preview generators, search highlighting, the rows and titles that the
  lists draw, the shell integration scripts and the data-directory rules.
  Paths are compared by their components, as `std::path::Path` compares
  them (`path.rs`); `text.rs` builds strings with exact specifications.
- `tests/` runs the library on concrete values.
- `app/` is the terminal program around the library: command-line parsing,
  terminal setup and drawing, the event loop, the clock, directory listing
  and the history file.

The library's calls into the standard library that vstd does not specify
(`str::to_lowercase`, `String::push`, `Arc::clone`) stand behind small
trusted wrappers whose contracts are written next to them.

PDF text is extracted by the application, not the library:
`pdf_extract::extract_text_from_mem` panics, rather than returning an error,
on some malformed documents, and no precondition over the bytes can say
which. The application makes the call under `std::panic::catch_unwind` and
hands the outcome (the text, or an error message) to
`PdfPreviewGenerator::generate_preview`, whose contract fixes the preview for
every outcome.
