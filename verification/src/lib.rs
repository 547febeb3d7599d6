//! Decryption, assembly and inspection of encrypted puzzle assets.
//!
//! Every function of this crate is verified. Calls into other crates are made
//! by a handful of small functions whose contracts are assumed; each of them
//! says so in its documentation.

pub mod error;
pub mod text;
pub mod crypto;
pub mod models;
pub mod json;
pub mod document;
pub mod client;
pub mod parts;
pub mod display;
pub mod cache;
pub mod cli;
pub mod storage;
