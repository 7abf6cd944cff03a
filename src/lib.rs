//! Lifecycle orchestration for ephemeral game-server instances: the slot store,
//! cheapest-instance selection, remote script execution, save synchronisation
//! and the provisioning / decommission workflows, each stated and proved.
//!
//! Every workflow is written as a step function from a state and an event to
//! the next state and an action; the caller performs the action (a cloud call,
//! a shell command, a file transfer) and hands the outcome back as an event.

pub mod bot_cmd;
pub mod config;
pub mod constant;
pub mod cvm_utils;
pub mod error;
pub mod lifecycle;
pub mod local_storage;
pub mod psm;
pub mod server_status;
pub mod shell_manager;
pub mod text;
