//! Provisioning of helper binaries and supervision of media downloads.
//!
//! The crate holds the decision logic of a download frontend: which
//! binaries to fetch and from where, how a fetched file is checked and
//! installed, how the output of a running tool is turned into progress
//! records, and how failed attempts are retried.  Every function comes
//! with a contract over plain mathematical values.

pub mod archive;
pub mod browsers;
pub mod catalog;
pub mod checksum;
pub mod download;
pub mod errors;
pub mod fetcher;
pub mod metadata;
pub mod platform;
pub mod progress;
pub mod provision;
pub mod registry;
pub mod retry;
pub mod supervisor;
pub mod text;
pub mod validation;
