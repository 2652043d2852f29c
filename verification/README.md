# product_service

The verified core of a product catalogue service for a second-hand clothing
shop: request validation, SQL fragment construction, picture storage layout,
image-variant planning, the decisions of the background jobs (upload, delete,
retry, and the image-embedding job that embeds each picture's `medium.webp`
when its fingerprint changed) and the text embedder's daily budget. Every function under `src/` carries a Verus contract.

Layout:

- `src/` — the library, verified with Verus. Calls into outside crates
  (`image`, `sha2`, `hex`, `chrono`, `uuid`) and a few std functions go through small trusted wrappers
  whose doc comments say what they claim.
- `tests/` — ordinary Rust tests of the library.
- `app/` — a small command-line program around the library: it reads a
  picture from disk, validates it, encodes its three WebP variants and writes
  them under the storage layout; it also holds the serde and `rust_decimal`
  conversions of the library's types.
