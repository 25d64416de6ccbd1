//! Persistence backend of a desktop role-playing application.
//!
//! The crate models the on-disk document store of the application in
//! memory: categorized text documents (game saves, worldlines, lorebooks),
//! a singleton configuration document with a built-in default, a recursive
//! directory-tree importer, and the formatting rules of the daily log.
//! The surrounding binary mirrors every operation to the real filesystem;
//! everything that decides or computes lives here, verified.

pub mod config;
pub mod engine;
pub mod importer;
pub mod logline;
pub mod names;
pub mod paths;
pub mod store;
