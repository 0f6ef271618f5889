//! Building QEMU command lines for quickemu virtual machines.
//!
//! The library turns a virtual machine's configuration into the list of
//! arguments that QEMU is started with, and decides the defaults that a
//! guest operating system gets (devices, firmware, CPU model, disk layout).
//! Whatever depends on the host (files that exist, CPU features, memory)
//! is handed in as plain values.

pub mod text;
pub mod units;
pub mod data;
pub mod error;
pub mod utils;
pub mod config;
pub mod cli;
pub mod legacy;
pub mod args;
