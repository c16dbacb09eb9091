# zephyr_vault

A local password vault. Accounts (service, user name, password, timestamps)
are serialized to JSON and sealed with AES-256-GCM under a key that Argon2id
derives from a master password and a fresh 16-byte salt; salt, 12-byte nonce
and ciphertext are stored in Base64.

Layout:

- `src/` — the verified library (Verus):
  - `crypto.rs` — sealing and opening the serialized vault; opening what was
    sealed, with the same password, gives the plaintext back.
  - `vault.rs` — accounts, adding, removing, CSV import and export.
  - `utils.rs` — password generation, case-insensitive search, the text of
    the account table.
  - `commands.rs` — the commands and the decisions they take.
  - `repository.rs` — what loading and saving the vault file decide.
  - `tailwind.rs` — interpreting the Tailwind CSS compiler's output.
  - `text.rs` — numerals, padding, substring search, parsing.
  - `primitives.rs` — the calls into `aes-gcm`, `argon2`, `base64` and
    `rand`, with the contracts the proofs rely on.
  - `error.rs` — the library's errors.
- `app/` — the command-line program: argument parsing, terminal and file
  I/O, JSON and CSV, clipboard.
- `tests/` — tests of the library.
