//! A translation gateway's core logic: it presents an OCI container
//! registry's tags and layer blobs as a filesystem-like surface, with a
//! per-repository `SHA256SUMS` document and synthetic filenames of the form
//! `<repository>-<tag><extension>` that resolve to blob redirects.
//!
//! Everything here is pure computation over strings and plain values; the
//! HTTP server and the outbound registry calls live outside the library and
//! hand it plain values.

pub mod codec;
pub mod errors;
pub mod handlers;
pub mod pipeline;
pub mod text;
