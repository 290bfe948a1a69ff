# treasuryx

The offline type layer of US Treasury source facts, written in Verus: dataset
constants, routing and write-authority guards, record validation, the offline
envelope parser and a fail-closed authorization outcome. Every executable function
of the library carries a contract that Verus proves.

The library has no network capability, derives no metric, converts no unit and
writes no canonical key.

## Layout

- `src/error.rs`: error classes and the error type; `message()` gives the displayed text.
- `src/text.rs`: decimal rendering, Unicode white space and string comparison.
- `src/value.rs`: `Date`, `Period`, `Frequency`, `Unit`, strict date parsing.
- `src/value/datasets.rs`: dataset IDs, catalogues and the guards.
- `src/value/record.rs`: records, amounts (held as binary64 bit patterns) and `validate_record`.
- `src/json.rs`: the decoded JSON document model and the member readers.
- `src/parse.rs`: `parse_treasury_records` over a decoded document.
- `src/authz.rs`: `authorize_treasury`.
- `src/pit.rs`: publication semantics.
- `app/lib.rs`: decoding JSON text with `serde_json` into the document model (this is
  where the binary64 readings of numbers are taken), an error type with `Display`
  via `thiserror`, and amount helpers in `f64`.

The proof functions named `lemma_*` state the library's laws: the fail-closed
outcome, the collection face, routing of curve products, write authority, ID round
trips, strict dates, and what an accepted envelope holds.
