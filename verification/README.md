# routing

Core types of a routing node, verified with Verus.

- `src/bytes.rs`: slice/vector/array conversions and random byte vectors.
- `src/crypto.rs`: the sodiumoxide calls (SHA-512, Ed25519 signing, key
  generation) behind trusted wrappers; keys cross as byte arrays.
- `src/dht_id.rs`: identifiers and the XOR-distance order
  (`closer_to_target`), with proofs that it is a strict total order on
  identifiers of one length and that a target is closest to itself.
- `src/types.rs`: authorities and their wire names, keys, signatures,
  node identities (`Pmid`, `PublicPmid`) and addresses.
- `src/routing_client.rs`: the requests a client builds for get and put,
  its message ids, and what it does with incoming messages.
- `app/`: the rustc-serialize/CBOR encodings, the sodiumoxide type
  conversions, and the client's send/receive loop.
