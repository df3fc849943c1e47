//! Hot reloading decisions for on-disk Solana program projects.
//!
//! The library decides when a program has to be rebuilt, redeployed or have its
//! declared program id rewritten, and with which command line. It performs no
//! input or output of its own: hosts run the commands it describes and hand the
//! outcomes back.

pub mod action;
pub mod batch;
pub mod command;
pub mod constants;
pub mod error;
pub mod framework;
pub mod framework_utils;
pub mod frameworks;
pub mod glob;
pub mod initialize;
pub mod list;
pub mod path;
pub mod program_id;
pub mod progress;
pub mod text;
pub mod toml;
pub mod watch;
