//! Build and run orchestration for projects that hold Java and Kotlin sources.
//!
//! The library decides; it never touches the file system or starts a process.
//! A caller hands it what was read (a listing of the source tree, the bytes of
//! the lock file, a digest of the sources, the exit of a compiler) and carries
//! out what it answers.

pub mod cache;
pub mod cli;
pub mod classpath;
pub mod config;
pub mod discovery;
pub mod error;
pub mod laws;
pub mod pipeline;
pub mod scaffold;
pub mod text;
pub mod toolchain;
