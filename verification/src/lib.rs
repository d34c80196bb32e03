//! Core logic of a command-line client for the Bugsink error tracker:
//! configuration resolution, request planning, output filtering and the
//! self-update decisions, each stated and proved with Verus.

pub mod archive;
pub mod auth;
pub mod cli;
pub mod client;
pub mod commands;
pub mod config;
pub mod json;
pub mod login;
pub mod output;
pub mod paths;
pub mod text;
pub mod update;
pub mod updater;
pub mod version;
