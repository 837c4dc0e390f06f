//! Browser management: launching, connecting, contexts.
pub mod context;
pub mod launcher;
