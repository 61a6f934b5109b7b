//! Decision logic of a Xen toolstack: vchan streams, domain creation and
//! domain restore.
//!
//! Nothing in this crate talks to the hypervisor. Each operation is a step
//! function: it is handed what the last outside call returned, and answers
//! with the next call to make or with the final result. The caller performs
//! the calls.

pub mod cint;
pub mod outside;
pub mod platform;
pub mod restore;
pub mod step;
pub mod text;
pub mod vchan;
