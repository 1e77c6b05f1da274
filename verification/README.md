# irctext

A library for IRC messages, verified with Verus: parsing and rendering of raw
lines, sources, parameters and commands; typed numeric replies that only hold
parameters of the documented formats; CTCP messages; and IRC text formatting
(attributes, colors, styled spans), with rendering for ANSI terminals.

Layout:

- `src/` — the verified library. Each type has a view (its abstract content),
  parsers and renderers are specified by spec functions, and the main laws are
  public proof functions: parameter lists, raw messages, client sources and
  CTCP messages read back as themselves after rendering
  (`lemma_params_roundtrip`, `lemma_raw_roundtrip`,
  `lemma_client_source_roundtrip`, `lemma_ctcp_roundtrip`), formatted text
  parses back into its spans (`formatting::lemma_parse_format`), parsed spans
  are pieces of the input in order (`formatting::lemma_parse_ranges`), and
  the ANSI palette tables of IRC colors are inverse to each other.
- `src/host.rs`, `src/text.rs`, `src/formatting/ansi.rs` — the few calls into
  the `url` and `anstyle` crates and the standard library, with what their
  sources show stated and the rest named.
- `tests/` — tests of the library on concrete values.
- `app/` — conversions into `anstyle`'s own types.
