//! Decisions of a mod installer: which repository a mod names, which release
//! asset to fetch, where the download is cached and which files an archive
//! unpacks to. Network and disk work is left to the caller.

pub mod archive;
pub mod cache;
pub mod config;
pub mod extract;
pub mod pipeline;
pub mod release;
pub mod repository;
pub mod run;
pub mod text;
