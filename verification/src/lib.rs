//! A library for planning and generating multi-crate Rust workspaces.
//!
//! The core of the library is a generation pipeline: an ordered sequence of
//! steps, each of which plans one artifact category (workspace root, binary
//! crate, library crate, license, gitignore, etc/assets, CI workflows).
//! Every step produces plain filesystem actions together with a preview tree
//! entry for each path it would create, so that a dry run can show exactly
//! what a real run would do.

pub mod bins;
pub mod builder;
pub mod cargo;
pub mod ci;
pub mod cli;
pub mod config;
pub mod etc;
pub mod libs;
pub mod git;
pub mod gitignore;
pub mod license;
pub mod pipeline;
pub mod plan;
pub mod preview;
pub mod root;
pub mod textscan;
pub mod utils;
