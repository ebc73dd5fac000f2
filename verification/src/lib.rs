use vstd::prelude::*;

pub mod json;
pub mod text;
pub mod scripts;
pub mod tools;
pub mod tool_catalog;
pub mod resources;
pub mod prompts;
pub mod mcp;
pub mod eval;
pub mod memory;
pub mod clock;
pub mod commands;
