//! Bootstrap logic for `tig`, a tool that keeps its private bookkeeping in a
//! sidecar directory inside a git repository's `.git` directory.
//!
//! The library covers the two start-up steps the tool performs before any real
//! work: deciding from a `git --version` probe whether a usable git
//! installation is present and walking the directory tree upward to find the
//! enclosing repository's `.git` entry, and provisioning the tool's own
//! sidecar directory beneath it. All filesystem and process access stays with
//! the caller; the library works on plain values (path components, directory
//! listings, probe outcomes) and states exactly what each decision returns.

pub mod abs_path;
pub mod locator;
pub mod sidecar;
