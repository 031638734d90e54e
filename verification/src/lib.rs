//! Resolution of a multi-target packaging manifest into one validated build
//! configuration, and classification of Python resources under a storage policy.

pub mod collector;
pub mod config;
pub mod error;
pub mod install_location;
pub mod laws;
pub mod manifest;
pub mod policy;
pub mod resolve;
pub mod rules;
pub mod settings;
pub mod target;
pub mod text;
