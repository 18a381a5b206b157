//! Verified core of `gd`, a command line client for GitCode.
pub mod args;
pub mod auth;
pub mod cli;
pub mod client;
pub mod commands;
pub mod config;
pub mod diagnostic;
pub mod distance;
pub mod encoding;
pub mod env;
pub mod error;
pub mod http;
pub mod json;
pub mod num;
pub mod output;
pub mod pipeline;
pub mod release_migration;
pub mod repo;
pub mod scan;
pub mod text;
pub mod update;
pub mod version;
pub mod weburl;
