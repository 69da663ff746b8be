//! Cached, streaming fetch-and-extract pipeline for the BookCorpus archive.
//!
//! The crate holds the decisions of the pipeline: where things live in the
//! cache, which step follows which, how far a transfer has come and which
//! archive members may be unpacked. Every function carries a contract that is
//! proved; the caller performs the network and file operations that the
//! pipeline asks for and reports back what happened.
//!
//! - `path`: joining paths, file names, suffixes, safe member names
//! - `token`: the random names of temporary files
//! - `cache`: the cache root and the paths below it
//! - `progress`: the byte counter of a transfer
//! - `download`: the fetch, one action at a time
//! - `extract`: the extraction, one action at a time
//! - `api`: the archive and its cache, from which fetch and extraction start
//! - `error`: the kinds of failure

pub mod api;
pub mod cache;
pub mod download;
pub mod error;
pub mod extract;
pub mod path;
pub mod progress;
pub mod token;
