# yaml_sigil

A verified library for YamlSigil `v1alpha1` signed artifacts: a payload
signed with Ed25519 or ECDSA P-256/SHA-256, carried either as a YAML stream
(payload, a `---` marker line, a YAML signature document) or as a protobuf
`SignedYamlArtifact`.

## Layout

- `src/` — the library, written in Verus. Its functions carry contracts
  over mathematical models (`Seq`, `Option`, spec functions) and are proved,
  except the small trusted wrappers marked `#[verifier::external_body]` in
  `crypto` and `external`: each calls into an outside crate (some parse
  their byte arguments into the crate's types first and encode the result
  back), and its contract is believed, not proved.
  - `decomposition`, `payload`, `transcription`: the YAML envelope, its
    payload rules, composition and decomposition in both forms.
  - `varint`, `pb_wire`, `pb`, `pb_error`, `proto_outer`, `wire`: the
    protobuf wire format of the outer envelope and of the inner signature
    message, with round-trip lemmas.
  - `signature_doc`: the canonical YAML signature document (serialization,
    byte budget, top-level key scan).
  - `crypto`: the signature-encoding rules of both algorithm slots; curve
    arithmetic, hashing, and signing are trusted calls into
    curve25519-dalek, sha2, ed25519-dalek, and p256.
  - `sign`, `verify`, `verify_input`, `transcode`: signing, pre-verification
    and verification, and conversion between the two forms.
  - `round_trip`: what signing promises to verification.
  - `provider`, `provider_input`, `provider_signing`: local verification
    providers, their qualification suite, and provider-backed keys.
  - `resource`: the shared artifact-size policy.
  - `release_gate`, `release_identity`, `release_pull`, `release_checks`:
    the release policy's decisions over what GitHub and the registry report
    (publication decisions, signer and DCO identity, canonical release pull
    requests, original-run and ancestry checks).
  - `release_classify`, `release_qualify`, `release_finalize`: the release
    qualification and finalization runs as step functions from a state and
    an outside report to the next state and the next piece of outside work.
  - `external`: the remaining trusted calls (base64, a YAML scalar parse,
    UTF-8 conversion).
- `tests/` — executable tests of the library.
- `app/` — ordinary Rust around the library: the bounded YAML parse of a
  signature document, serde and `std::error::Error` forms of the library's
  types, and the default implementations of the `yaml-sigil-traits` signer,
  transcriber, and verifier traits.
