//! Streams a sequence of record batches into a single compressed Parquet
//! file: a validated compression configuration, a lazily initialized writer
//! bound to the first batch's schema, in-order writes with fail-fast error
//! propagation, and an optional storage-level sync before success is
//! reported.

pub mod compression;
pub mod encoder;
pub mod errors;
pub mod properties;
pub mod run;
pub mod sink;
