# favi

Safe wrappers around libavif's encoder, decoder and images, verified with
Verus, and the tool that tidies the generated libavif bindings.

- `src/sys.rs` models, as plain values, the fields of the libavif objects
  that the wrappers read and write.
- `src/error.rs`, `src/image.rs`, `src/encoder.rs`, `src/decoder.rs` and
  `src/data.rs` are the wrappers. libavif's own work (allocating objects,
  writing and reading files, converting pixels) is done by the caller, who
  hands the wrappers what libavif reported; the wrappers' contracts say what
  the caller gets back for each report.
- `src/bindings.rs` renames bindgen's anonymous CICP newtypes after libavif's
  typedefs and holds the list of traits derived for reviewed types;
  `src/text.rs` has the character-level search and replace it rests on.
- `app/main.rs` runs bindgen on libavif's header and writes the tidied
  bindings.
