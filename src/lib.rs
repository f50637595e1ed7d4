//! Turns natural-language date expressions into formatted, zoned date-time strings.

pub mod civil;
pub mod cli;
pub mod config;
pub mod pipeline;
pub mod reader;
pub mod errors;
pub mod laws;
pub mod services;
pub mod text;

pub use errors::Error;
