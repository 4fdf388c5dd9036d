//! Verified core of the Navegante command-line client.

pub mod text;
pub mod cli;
pub mod config;
pub mod json;
pub mod error;
pub mod models;
pub mod api;
pub mod render;
pub mod commands;
