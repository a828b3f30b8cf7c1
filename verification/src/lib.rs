//! Package acquisition and signing-blob injection: validation of untrusted
//! input, the task lifecycle, injection planning and archive rewriting.

pub mod archive;
pub mod bag;
pub mod download;
pub mod download_manager;
pub mod injection;
pub mod ip;
pub mod manifest;
pub mod plist_util;
pub mod routes;
pub mod search;
pub mod security;
pub mod sinf;
pub mod text;
pub mod types;
pub mod wisp;
