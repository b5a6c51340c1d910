# tenzro-edge-core

Pi-class participation layer for the Tenzro Network, written in Verus.

- `src/` is the verified library: DPoP proof minting (RFC 9449, with the
  RFC 7638 JWK thumbprint), configuration from environment values, the
  JSON-RPC request and reply handling of the DPoP path, and the decisions of
  each Tenzro component (attester, receipt sink, remote inference, model
  source, storage, agent registry and invoker, work settlement, discovery,
  work broker): what each sends, how each reads what came back, and how each
  maps SDK failures into its own fail-soft errors. Model artefacts are
  checked against the BLAKE3 digest their URI names; failed receipt writes
  wait in a replay queue (in memory) until a flush; discovery ends quietly
  when Tenzro is unreachable. Base64, hex, JSON string
  and decimal encodings are stated as spec functions; hashing and Ed25519
  signing are named results of the crates that compute them.
- `app/` is the `tenzro-edge` binary and the code around the library that
  Verus does not see: reading the environment, connecting the SDK client, the
  HTTP transport, and the async component methods that make the network
  calls and hand their results to the library.
- `tests/` runs the library against the outside crates.
