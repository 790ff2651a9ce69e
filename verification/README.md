# quicktag

A tag inspector for Tiger-engine package files (Destiny and Marathon), written in Verus.

- `src/` is the verified library. It covers hashing and byte decoding, tag types and class
  tables, texture headers, formats and deswizzling, scanning tag data for references and
  strings, the tag cache and its reverse references, traversal and search of the tag graph, the
  localized string tables of every release, the word list, and the orders and searches of the
  lists the tool shows. Every function carries a contract that Verus proves. Calls into std and
  into outside crates (`tiger-pkg`, `regex`, `bytemuck`) go through a small set of wrappers
  whose contracts restate what those crates document.
- `app/` is a command-line front end. It opens a package directory with `tiger-pkg`, keeps the
  tag cache on disk, and runs the library for the `strings`, `traverse` and `texture` commands.
- `tests/` runs the library on concrete inputs.

The crate root for verification is `src/lib.rs`; the library also compiles as an ordinary
Rust crate.
