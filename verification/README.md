# drone_mesh

Post-quantum secure messaging between a central drone and client devices, written in
Verus. Devices announce Kyber-1024 and ML-DSA-44 public keys to the drone; texts are
sealed with Kyber-1024 + AES-256-GCM and signed with ML-DSA-44. The drone passes a private
text, sealed by the sender for its receiver, on unopened after checking the signature; it
opens a broadcast, sealed for the drone, and relays it re-sealed to every other device.

Layout:

- `src/` — the verified library.
  - `hexcodec`, `json`, `text`, `bytes`: hex codec, compact JSON writing, string and byte helpers.
  - `crypto/kyber`, `crypto/dilithium`: the key-encapsulation/sealing and signature engines,
    calling `pqc_kyber`, `aes-gcm`, `sha2`, `rand` and `dilithium-rs` through trusted wrappers.
  - `crypto/key_manager`: an entity's keys and the devices it knows.
  - `network`: message writing, the client handshake, the server's admission and broadcast rules.
  - `drone/central_drone`: what the drone does with each message (a list of actions).
  - `device/client_device`: how a device reads typed commands and incoming messages.
- `tests/` — tests run against the compiled library and the real outside crates.
- `app/` — the command-line program: WebSocket I/O, key files, serde forms, Python and
  WebAssembly bindings.
