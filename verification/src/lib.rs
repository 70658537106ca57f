//! Verified core of a command-line project scaffolder.
//!
//! Given a project name, a source language, and a project kind, the library
//! decides which directories, files, and external tool invocations make up a
//! new project, and renders its templated artifacts. All file-system work is
//! described as a plan of [`project::Action`] values; an unverified shell
//! around the library carries the plan out.

pub mod laws;
pub mod project;
pub mod render;
pub mod text;
