# application

The application layer of the Zurfur backend: the rules behind accounts,
authentication, commissions, feeds, onboarding, organizations, tags and
users, written in Verus and proved against their contracts.

## Layout

- `src/` — the verified library. Each use case's decisions are a function
  from the facts it reads to its answer. Where a use case reads several
  facts in turn, it is written as a step function (`step::Step`): given the
  facts read so far, it names the next fact to read or gives the answer.
  The laws of the library (for example, that an organization's owner is
  never removed, that onboarding twice creates nothing, or that a deadline
  just set can be cleared) are public proof functions beside the rules
  they speak of.
- `src/text.rs` — the string helpers the rules share, and the calls into
  `str` that the library trusts.
- `tests/` — tests of the library on concrete values.
- `app/` — the shell: the ports (stores, DID minter, OAuth client, JWT
  signing), the async use cases that perform the reads and writes and
  drive the step functions, and the copies of library types that carry
  `serde`, `thiserror` and `clap` derives.

## Outside crates

`sha2`, `base64`, `urlencoding` and `uuid` are called from the library
through small trusted wrappers, each with a doc comment saying what its
contract claims. The network, the database and the OAuth flow stay in
`app/`.
