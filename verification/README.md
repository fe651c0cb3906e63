# hoshidicts

Bindings for the hoshidicts Yomitan-dictionary engine, with the binding's own
rules verified by Verus.

- `src/` — the verified library:
  - `text.rs`: reading the engine's bytes as text. A string reads as the
    characters of its longest well-formed UTF-8 prefix; the validator, its
    maximality and the round trip of encoded text are proved.
  - `ffi.rs`: the records that cross the engine boundary, as plain values.
  - `options.rs`: lookup options and how they are handed to the engine.
  - `results.rs`: the answers of queries and lookups, and their accessors.
  - `lib.rs`: errors, C strings (refusing interior NULs), dictionary status
    codes and import reports.
- `app/` — the native handles (`Query`, `Deinflector`, `Lookup`,
  `OwnedLookup`, `import`) and the calls into the engine's C interface, which
  copy the engine's records into the library's and let the library decide.
- `tests/` — tests of the library.
