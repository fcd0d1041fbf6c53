//! Locates a Java installation's home directory and the well-known paths
//! inside it: the header folders and the native library of the virtual
//! machine.
//!
//! Everything that touches the environment, the file system's metadata or
//! a child process is left to the caller, who hands its observations in as
//! plain values. Searching below a home directory is done here, with the
//! `glob` crate.

pub mod error;
pub mod home;
pub mod locate;
pub mod pattern;
pub mod settings;
pub mod text;

pub use error::Error;
pub use home::JavaHome;
