//! A parallel vanity-address search engine.
//!
//! The library generates random mnemonic phrases, derives the account-zero
//! key pair from each phrase along the fixed hierarchical path
//! `m/44'/60'/0'/0/0`, turns the public key into a mixed-case checksummed
//! hex address, and tests that address against a user-supplied,
//! case-insensitive pattern.  A thin driver around the library fans the
//! search out over worker threads and reports every match it finds.

pub mod config;
pub mod text;
pub mod address;
pub mod keys;
pub mod matcher;
pub mod worker;
