//! The decisions behind the HTTP endpoints: validation, registry updates and
//! the bodies of the answers.

pub mod jobs;
pub mod presign;
pub mod streams;
pub mod webhook;
