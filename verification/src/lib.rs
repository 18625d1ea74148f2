//! Decision logic of a file-watching auto-compiler for vesti documents.

pub mod argv;
pub mod commands;
pub mod detector;
pub mod lifecycle;
pub mod mode;
pub mod outcome;
pub mod platform;
