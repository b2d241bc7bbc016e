//! Verified decision core of an autonomous Agent Arena character.

pub mod brain;
pub mod character;
pub mod config;
pub mod execution;
pub mod json;
pub mod mcp;
pub mod runtime_clock;
pub mod text;
pub mod world;
