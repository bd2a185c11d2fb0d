//! A verified client library for a DNS-advertised catalog of signed
//! software-supply-chain attestations. The library verifies each
//! fetched manifest — a DSSE envelope in a Sigstore-shaped bundle —
//! by reconstructing the Pre-Authentication Encoding, checking the
//! signature against the bundle's own leaf certificate, and matching
//! the expected signer identity against the certificate's RFC822
//! subject alternative names; it decodes the tagged predicate, walks
//! the catalog, component and release manifests with cycle and depth
//! bookkeeping, aggregates results and per-node errors, selects
//! releases by package URL, and checks fetched artifacts by digest.
//! Network and DNS I/O stay outside: the traversal announces each
//! fetch and consumes its outcome.

pub mod artifact;
pub mod ascii;
pub mod attestation;
pub mod b64;
pub mod bundle;
pub mod cert;
pub mod digest;
pub mod discovery;
pub mod errors;
pub mod filter;
pub mod jsonval;
pub mod literals;
pub mod manifest;
pub mod model;
pub mod pae;
pub mod predicate;
pub mod purl;
pub mod sigverify;
pub mod traversal;
pub mod views;
