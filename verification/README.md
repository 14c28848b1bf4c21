# encryption_node

Client-side library for publishing and retrieving TTL-gated encrypted files
on IPFS: a file is sealed with XChaCha20-Poly1305 under a fresh key, the
envelope goes to IPFS, and the key goes to a key server that forgets it once
its TTL has passed.

- `src/` is the library, verified with Verus:
  - `crypto`: keys (wiped on drop), the v1 envelope
    `version(1) || nonce(24) || ciphertext+tag`, encryption and decryption;
  - `ipfs`, `key_client`: the URLs and requests the clients send and the
    reading of the answers;
  - `pipeline`: the publish and retrieve flows as step functions from an
    event to the next action;
  - `experiment`, `client`, `config`, `error`: the remaining pieces.
- `tests/` exercises the library.
- `app/` is the command-line program: argument handling, the HTTP and gRPC
  exchanges, and the loop that drives the flows.
