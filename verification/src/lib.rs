//! Vendoring of source subtrees from version-controlled repositories.
//!
//! The library holds the decisions of the tool: the manifest model and its
//! merge rule, the scan for a manifest embedded in a source file, the reading
//! of repository references and revision identifiers, and the order of the
//! steps that vendor one subtree. Everything that touches the file system, the
//! network or a child process is left to the caller, which performs the
//! actions that the library names and reports back what happened.

pub mod commands;
pub mod comment;
pub mod config;
pub mod git;
pub mod text;
