//! Compiles a generic, dynamically-typed configuration tree that describes a
//! command-line interface into a strongly-typed command specification tree,
//! together with the small pure helpers that the surrounding tooling uses.

pub mod apply;
pub mod builder;
pub mod command;
pub mod commands;
pub mod coerce;
pub mod config;
pub mod errors;
pub mod git;
pub mod laws;
pub mod tables;
pub mod tree;

