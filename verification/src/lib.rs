//! Embedding boundary of a WebAssembly execution engine.
//!
//! Three components: a configuration-and-factory layer that selects a
//! compilation/execution backend pair against the build's compiled-in
//! capability set; a model of the values an instantiated module exports
//! (functions, tables, memories, globals); and the lifecycle bookkeeping
//! for the opaque host environment a host-implemented function carries.

pub mod config;
pub mod engine;
pub mod error;
pub mod export;
pub mod host_env;
