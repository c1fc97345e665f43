//! A one-directional content-synchronisation client for fastn packages.
//!
//! The library holds the decisions of a sync run: which files of a scanned
//! tree are uploaded, how a tree compares with what the store already has,
//! what each request to the store carries and how each of its answers is
//! read. Reading files and talking to the network stay with the caller, who
//! hands plain values in and gets plain values back.

pub mod text;
pub mod hash;
pub mod scan;
pub mod manifest;
pub mod diff;
pub mod site;
pub mod token;
pub mod http;
pub mod initiate_upload;
pub mod commit_upload;
pub mod uploader;
pub mod error;
pub mod sync;
