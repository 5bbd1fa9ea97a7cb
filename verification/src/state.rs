//! The records an invocation creates.

pub mod membership;
pub mod metadata;
pub mod token;
