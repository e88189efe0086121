//! Control-plane logic for a self-hosted container stack: version resolution,
//! release and asset selection, update planning, and the ordered lifecycle
//! steps that start, stop and restart the stack.

pub mod text;
pub mod version;
pub mod release;
pub mod update;
pub mod lifecycle;
pub mod stack;
pub mod commands;
pub mod env;
