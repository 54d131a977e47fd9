//! Validation core of a safe wrapper over a Vulkan-style graphics and compute
//! API.
//!
//! The crate holds the rules that decide whether a native object may be
//! created and whether a command may be recorded: format and
//! usage checks for buffer views, the layers of the command-buffer builder
//! chain, the bookkeeping of GPU locks, and the construction of attachment
//! images and compute pipelines. The native driver is never called from here:
//! every function works on plain values, hands out the request that the caller
//! forwards to the driver, and takes the driver's answer as an argument.
#![allow(unused_imports)]

pub mod buffer;
pub mod command_buffer;
pub mod descriptor;
pub mod device;
pub mod error;
pub mod format;
pub mod image;
pub mod memory;
pub mod pipeline;
pub mod sync;
