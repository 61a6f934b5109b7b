//! Creating, restoring and destroying domains: which hypercalls are made, in
//! what order, and what is returned.

pub mod calls;
pub mod config;
pub mod create;
pub mod laws;
pub mod manager;
pub mod meaning;
pub mod promises;
pub mod restore;
pub mod ring;
