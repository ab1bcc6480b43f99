//! A sandboxed edge runtime for WebAssembly components.
//!
//! The runtime takes a request, hands it to a plugin that runs in a store of its own, held to a
//! budget of fuel, memory and time, and takes the plugin's response back. What happens in what
//! order, and what comes of every failure, is decided and proved here, and so is what the
//! reference plugins answer; the event loop and the files are left to the program around it.
#![allow(unused_imports)]

pub mod cli;
pub mod error;
pub mod host;
pub mod host_log;
pub mod http_types;
pub mod invocation;
pub mod json;
pub mod model;
pub mod plugins;
pub mod runtime;
pub mod text;
