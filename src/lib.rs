//! Typed globals and tables of a WebAssembly runtime, with the checks that
//! keep every write consistent with the resource's static type.

pub mod error;
pub mod ownership;
pub mod types;
pub mod table;
pub mod global;
pub mod config;
