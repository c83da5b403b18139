//! Verified core of an emulator optimization helper: environment resolution
//! from an INI configuration, decoding of a fixed-layout console profile
//! store, and computation of idempotent asset-deployment plans with
//! per-profile status bookkeeping.
pub mod config;
pub mod deploy;
pub mod error;
pub mod ini_file;
pub mod optimizer;
pub mod profile;
pub mod strutil;
