//! Path-safety and bucket-isolation core of a multi-tenant static file host.
//!
//! Each tenant ("bucket") is a directory on disk protected by a bearer token.
//! The logic here turns an untrusted, tenant-supplied relative path into
//! either a validated filesystem location or a rejection, resolves bucket
//! names to isolated storage roots, and decides the outcome of each file
//! operation.  All network plumbing and byte-level file I/O stays outside
//! this crate's verified code; the filesystem queries the path guard needs
//! (canonicalization, existence, directory reads) sit behind a small set of
//! trusted wrappers.

pub mod bucket;
pub mod config;
mod fsio;
pub mod guard;
pub mod ops;
pub mod paths;
pub mod registry;
