//! Verified core of a microVM launcher.
//!
//! The library holds the logic that can be checked: the persisted
//! configuration schema with its version migration, validation of user
//! input, construction of the argument vectors handed to the external
//! rootfs manager, the hypervisor launch plan, and the orchestrator's
//! start-flow state machine.  Process spawning, file I/O and the
//! hypervisor FFI live outside the library and consume plain values
//! produced here.

pub mod changevm;
pub mod config;
pub mod config_cmd;
pub mod config_v1;
pub mod create;
pub mod delete;
pub mod inspect;
pub mod list;
pub mod migrate;
pub mod start;
pub mod utils;
