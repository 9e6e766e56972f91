//! Core of a git-hosting tool server: platform abstraction over two REST
//! backend families, configuration resolution from environment signals,
//! repository coordinate discovery from a local git configuration, an
//! owner/repo precedence chain, request construction for every tool, and a
//! normalizer that renders backend JSON as stable text.

pub mod platform;
pub mod error;
pub mod trusted;
pub mod strutil;
pub mod json;
pub mod response;
pub mod repo_resolver;
pub mod config;
pub mod server;
pub mod client;
pub mod request;
pub mod types;
pub mod tools;
