//! Verified core of an out-of-process mod-installer helper: it places a
//! mod package's files into a game installation and a persistent state
//! directory under a reversible, ledger-tracked scheme, reverses that
//! placement on uninstall, and builds the process description for
//! launching the game with an optional mod-loader preloader injected.
//!
//! The library plans; it performs no I/O. Callers hand it snapshots of
//! the filesystem as plain path strings and receive exact copy plans,
//! ledgers, and launch descriptions, each pinned down by its contract.

pub mod arch;
pub mod install;
pub mod launch;
pub mod numerals;
pub mod paths;
pub mod text;
pub mod types;
