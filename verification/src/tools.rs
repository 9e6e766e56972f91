//! Per-tool parameter types, request construction and response rendering.
//!
//! Each tool contributes a plan builder, which computes the exact client
//! call from resolved coordinates and parameters, and a renderer, which
//! turns the backend's JSON into the tool's text. The transport in between
//! is not this layer's concern.

pub mod actions;
pub mod branches;
pub mod commits;
pub mod files;
pub mod issue_comments;
pub mod issues;
pub mod labels;
pub mod milestones;
pub mod notifications;
pub mod orgs;
pub mod pull_files;
pub mod pull_reviews;
pub mod pulls;
pub mod releases;
pub mod repo;
pub mod tags;
pub mod users;
pub mod wiki;
