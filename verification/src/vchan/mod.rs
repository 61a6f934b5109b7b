//! Streams over libxenvchan: which library call comes next, and what its
//! return code means.

pub mod calls;
pub mod config;
pub mod error;
pub mod laws;
pub mod listener;
pub mod meaning;
pub mod promises;
pub mod raw;
pub mod stream;
