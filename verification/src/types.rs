//! Parameter types shared by most tools.

pub mod common;
