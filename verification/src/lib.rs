//! Core of an interactive expression evaluator for a small C-like language.
//!
//! One line of input at a time is classified as a builtin command or as code;
//! code is compiled through the saltwater compiler into native code, executed,
//! and the raw result is decoded according to the expression's static type.
//! This crate holds the verified logic of that cycle: line classification,
//! the command registry, the session state machine, the textual expression
//! wrapper handed to the compiler, and the typed decoding and formatting of
//! results. Reading input, persisting history and invoking the compiled
//! native entry point are left to the surrounding program.

pub mod compiler;
pub mod registry;
pub mod render;
pub mod session;
pub mod text;
