//! Shell detection and rc-file resolution.
//!
//! The library identifies which command-line shell a user runs, computes the
//! set of configuration ("rc") files that shell reads at startup, and offers
//! idempotent line-append and line-remove transformations over rc-file
//! content.  All decisions are made over an explicit [`shell::Environment`]
//! snapshot of the process environment, so every rule is deterministic and
//! fully verified; reading the live environment, spawning shell binaries and
//! touching the file system are left to unverified callers.

pub mod dirs;
pub mod error;
pub mod shell;
pub mod text;
