//! Bringing AMMs up to date.

pub mod checkpoint;
pub mod collect;
pub mod refresh;
pub mod resume;
pub mod scan;
pub mod session;
