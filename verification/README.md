# x509

Verified X.509 certificate logic, with a thin layer over libcrypto.

- `src/` (verified with Verus)
  - `usage.rs`: key usage and extended key usage purposes, their names, and
    the comma-separated text of a list of them, with the proof that the text
    determines the list.
  - `validation.rs`: decoding of chain verification result codes into
    `X509ValidationError`, with the proof that the code determines the error.
  - `hash.rs`: digest algorithms and their digest sizes.
  - `generator.rs`: `X509Generator` settings, the sequence of steps that
    makes a self-signed certificate from them (with the proof that the steps
    carry every setting), and the serial number made from random bytes.
  - `certificate.rs`: certificate file encodings, and how a fingerprint is
    read off a digest call.
- `app/`: the libcrypto declarations and the handles (`X509`,
  `X509StoreContext`, `PKey`, memory BIOs) that carry out the steps.
- `tests/`: tests of the library.
