//! Installation engine for a versioned desktop client: version resolution,
//! package discovery, archive-entry placement, store pruning and the install
//! state machine, each with a machine-checked contract.

pub mod text;
pub mod entry_path;
pub mod packages;
pub mod manifest;
pub mod error;
pub mod version;
pub mod process;
pub mod store;
pub mod archive;
pub mod install;
pub mod logs;
pub mod cleaner;
pub mod mods;
pub mod providers;
