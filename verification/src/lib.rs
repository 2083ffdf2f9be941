//! The host side of a binding to an interactive line-editing engine.
//!
//! The engine itself (raw terminal mode, key parsing, redraw, the history it
//! keeps) is native code. This crate holds what the binding decides around
//! it: how host text is laid out for the engine and read back from it, the
//! buffer that collects completion candidates, the single slot that holds
//! the registered completion provider, and which entry point of the engine
//! each operation asks for. Nothing here touches the terminal: every
//! operation either builds the call that the caller is to make, or reads the
//! reply that the caller got.

pub mod bridge;
pub mod completions;
pub mod engine;
pub mod text;
