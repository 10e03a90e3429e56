# openssl (ML-KEM / ML-DSA key containers)

A Verus library for the post-quantum key types of a BoringSSL-backed OpenSSL
binding: the ML-KEM and ML-DSA parameter sets, their size tables, the key
containers, and every decision made around a call into the C library.

- `src/` — the verified library.
  - `error.rs`: `ErrorStack` and `cvt`, which turns a C status code into a
    decision.
  - `mlkem.rs`, `mldsa.rs`: sizes and byte-array storage of the C library's
    key structures.
  - `pkey.rs`: the `Private` / `Public` markers.
  - `pkey_ml_dsa_boring.rs`, `pkey_ml_kem_boring.rs`: containers holding the
    expanded private key and its seed.
  - `pkey_ml_kem.rs`: a container holding only the seed, expanded again for
    each decapsulation.
- `app/` — the C declarations and the calls into the C library, which run
  each operation: ask the library what to do, call the primitive, pass the
  status through `cvt`, hand the output back.
- `tests/` — tests of the library on concrete values.
