//! The first-generation configuration format and command line builder.

pub mod config;
pub mod config_parse;
pub mod validate;
pub mod qemu_args;
pub mod launch;
pub mod cli;
